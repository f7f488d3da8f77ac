//! A store that keeps its table in memory, with the primary key of the
//! table: no second row with a timestamp that a row already has.

use crate::db::analytics::{holds_timestamp, written, AnalyticsDB};
use crate::db::table::{page_row, playback_row, song_row, Row, RowView};
use crate::db::{DbError, DbErrorKind};
use crate::model::{Metadata, PageChange, PlaybackChange, SongChange};
use vstd::prelude::*;

verus! {

/// Rows as mathematical values.
pub open spec fn row_views(rows: Seq<Row>) -> Seq<RowView> {
    Seq::new(rows.len(), |i: int| rows[i]@)
}

/// No two of the rows have the same timestamp.
pub open spec fn distinct_timestamps(rows: Seq<RowView>) -> bool {
    forall|i: int, j: int|
        0 <= i < j < rows.len() ==> (#[trigger] rows[i]).tmstp != (#[trigger] rows[j]).tmstp
}

/// The table in memory.
#[derive(Debug)]
pub struct MemoryStore {
    table: Vec<Row>,
}

impl MemoryStore {
    /// A store with an empty table.
    pub fn new() -> (store: MemoryStore)
        ensures
            store.rows() == Seq::<RowView>::empty(),
    {
        let store = MemoryStore { table: Vec::new() };
        assert(store.rows() =~= Seq::<RowView>::empty());
        store
    }

    /// The rows of the table, oldest first.
    pub fn stored(&self) -> (rows: &Vec<Row>)
        ensures
            row_views(rows@) == self.rows(),
    {
        &self.table
    }

    /// Whether the table holds a row with the timestamp.
    pub fn contains(&self, tmstp: i64) -> (r: bool)
        ensures
            r == holds_timestamp(self.rows(), tmstp),
    {
        let mut i: usize = 0;
        while i < self.table.len()
            invariant
                i <= self.table.len(),
                forall|j: int| 0 <= j < i ==> (#[trigger] self.rows()[j]).tmstp != tmstp,
            decreases self.table.len() - i,
        {
            if self.table[i].tmstp == tmstp {
                assert(self.rows()[i as int].tmstp == tmstp);
                return true;
            }
            i += 1;
        }
        false
    }

    /// Adds the row unless the table holds one with its timestamp.
    fn insert(&mut self, row: Row) -> (r: Result<(), DbError>)
        ensures
            old(self).answers(row@, r),
            final(self).rows() == written(old(self).rows(), row@, r),
    {
        if self.contains(row.tmstp) {
            Err(
                DbError {
                    kind: DbErrorKind::Uniqueness,
                    message: String::from_str("UNIQUE constraint failed: analytics.tmstp"),
                },
            )
        } else {
            let ghost view = row@;
            self.table.push(row);
            assert(self.rows() =~= old(self).rows().push(view));
            Ok(())
        }
    }
}

impl AnalyticsDB for MemoryStore {
    closed spec fn rows(&self) -> Seq<RowView> {
        row_views(self.table@)
    }

    /// The row is taken exactly when no row has its timestamp; otherwise the
    /// answer is a uniqueness failure.
    open spec fn answers(&self, row: RowView, r: Result<(), DbError>) -> bool {
        match r {
            Ok(_) => !holds_timestamp(self.rows(), row.tmstp),
            Err(e) => holds_timestamp(self.rows(), row.tmstp) && e.kind
                == DbErrorKind::Uniqueness,
        }
    }

    fn store_page_change(&mut self, meta: &Metadata, change: &PageChange) -> (r: Result<
        (),
        DbError,
    >) {
        self.insert(page_row(meta, change))
    }

    fn store_playback_change(&mut self, meta: &Metadata, playback: &PlaybackChange) -> (r: Result<
        (),
        DbError,
    >) {
        self.insert(playback_row(meta, playback))
    }

    fn store_song_change(&mut self, meta: &Metadata, song: &SongChange) -> (r: Result<
        (),
        DbError,
    >) {
        self.insert(song_row(meta, song))
    }
}

/// A table in which no two rows share a timestamp stays so, whatever row is
/// handed to it and whether or not it is taken.
pub proof fn timestamps_stay_distinct(before: MemoryStore, row: RowView, r: Result<(), DbError>)
    requires
        distinct_timestamps(before.rows()),
        before.answers(row, r),
    ensures
        distinct_timestamps(written(before.rows(), row, r)),
{
}

} // verus!
