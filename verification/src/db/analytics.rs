//! The port that the dispatcher writes through: one operation for each kind
//! of message, each adding one row to the table.

use crate::db::table::{page_row_of, playback_row_of, song_row_of, RowView};
use crate::db::DbError;
use crate::model::{Metadata, PageChange, PlaybackChange, SongChange};
use vstd::prelude::*;

verus! {

/// The rows after a row was handed to a store that answered `r`: one more
/// row, the new one, where the answer is `Ok`, and the same rows where it is
/// not.
pub open spec fn written(rows: Seq<RowView>, row: RowView, r: Result<(), DbError>) -> Seq<
    RowView,
> {
    if r is Ok {
        rows.push(row)
    } else {
        rows
    }
}

/// Whether one of the rows has the timestamp.
pub open spec fn holds_timestamp(rows: Seq<RowView>, tmstp: i64) -> bool {
    exists|i: int| 0 <= i < rows.len() && (#[trigger] rows[i]).tmstp == tmstp
}

/// A store of messages.
///
/// Each operation hands one row to the store. The store either takes the
/// row, whole, and answers `Ok`, or takes nothing of it and answers with the
/// failure.
pub trait AnalyticsDB {
    /// The rows that the store has taken, oldest first.
    spec fn rows(&self) -> Seq<RowView>;

    /// Whether the store, as it stands, may give the answer `r` when it is
    /// handed `row`.
    spec fn answers(&self, row: RowView, r: Result<(), DbError>) -> bool;

    /// Stores a page change as one row.
    fn store_page_change(&mut self, meta: &Metadata, change: &PageChange) -> (r: Result<
        (),
        DbError,
    >)
        ensures
            old(self).answers(page_row_of(meta@, *change), r),
            final(self).rows() == written(old(self).rows(), page_row_of(meta@, *change), r),
    ;

    /// Stores a playback change as one row.
    fn store_playback_change(&mut self, meta: &Metadata, playback: &PlaybackChange) -> (r: Result<
        (),
        DbError,
    >)
        ensures
            old(self).answers(playback_row_of(meta@, playback@), r),
            final(self).rows() == written(
                old(self).rows(),
                playback_row_of(meta@, playback@),
                r,
            ),
    ;

    /// Stores a song change as one row.
    fn store_song_change(&mut self, meta: &Metadata, song: &SongChange) -> (r: Result<
        (),
        DbError,
    >)
        ensures
            old(self).answers(song_row_of(meta@, song@), r),
            final(self).rows() == written(old(self).rows(), song_row_of(meta@, song@), r),
    ;
}

} // verus!
