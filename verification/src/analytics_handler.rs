//! The dispatcher: one buffer in, at most one row written, and the answer
//! for the sender.

use crate::db::analytics::{holds_timestamp, AnalyticsDB};
use crate::db::memory::MemoryStore;
use crate::db::table::{columns_of, other_columns_are_null, row_of, Column};
use crate::db::{DbError, DbErrorKind};
use crate::model::{decode_message, message_of, Event};
use crate::wire::DecodeError;
use vstd::prelude::*;
use vstd::std_specs::convert::FromSpecImpl;

verus! {

/// Why a buffer was not stored: it holds no message, or the store refused
/// the row.
#[derive(Clone, Debug, PartialEq, Eq)]
pub enum HandlerError {
    Decode(DecodeError),
    Store(DbError),
}

impl From<DbError> for HandlerError {
    fn from(e: DbError) -> (r: HandlerError) {
        HandlerError::Store(e)
    }
}

impl FromSpecImpl<DbError> for HandlerError {
    open spec fn obeys_from_spec() -> bool {
        true
    }

    open spec fn from_spec(e: DbError) -> HandlerError {
        HandlerError::Store(e)
    }
}

impl From<DecodeError> for HandlerError {
    fn from(e: DecodeError) -> (r: HandlerError) {
        HandlerError::Decode(e)
    }
}

impl FromSpecImpl<DecodeError> for HandlerError {
    open spec fn obeys_from_spec() -> bool {
        true
    }

    open spec fn from_spec(e: DecodeError) -> HandlerError {
        HandlerError::Decode(e)
    }
}

/// What one dispatch does: `before` is the store when the buffer arrives,
/// `after` the store when the answer `r` is given.
///
/// A buffer that holds no message leaves the store as it was, and the answer
/// is the decode error. A buffer that holds a message is handed to the store
/// as the row of that message, once: the answer is `Ok` and the row is the
/// one new row, or the answer is the failure of the store and there is no new
/// row.
pub open spec fn dispatched<DB: AnalyticsDB>(
    before: DB,
    buffer: Seq<u8>,
    after: DB,
    r: Result<(), HandlerError>,
) -> bool {
    match message_of(buffer) {
        Err(e) => r == Err::<(), _>(HandlerError::Decode(e)) && after == before,
        Ok(message) => match r {
            Ok(done) => before.answers(row_of(message), Ok(done)) && after.rows()
                == before.rows().push(row_of(message)),
            Err(HandlerError::Store(e)) => before.answers(row_of(message), Err(e))
                && after.rows() == before.rows(),
            Err(HandlerError::Decode(_)) => false,
        },
    }
}

/// Decodes the buffer and writes the message it holds through the
/// operation of the store that belongs to its kind.
pub fn consume_analytics_message<DB>(db: &mut DB, buffer: Vec<u8>) -> (r: Result<
    (),
    HandlerError,
>) where DB: AnalyticsDB
    ensures
        dispatched(*old(db), buffer@, *final(db), r),
{
    let message = match decode_message(buffer.as_slice()) {
        Err(e) => { return Err(HandlerError::Decode(e)); },
        Ok(message) => message,
    };
    let stored = match &message.event {
        Event::PageChange(page) => db.store_page_change(&message.metadata, page),
        Event::PlaybackChange(playback) => db.store_playback_change(&message.metadata, playback),
        Event::SongChange(song) => db.store_song_change(&message.metadata, song),
    };
    match stored {
        Ok(done) => Ok(done),
        Err(e) => Err(HandlerError::Store(e)),
    }
}

/// Exactly one write: a dispatch that succeeds adds one row, the row of the
/// message in the buffer, in which every column that is not of the message's
/// kind is null. A dispatch that fails adds none.
pub proof fn one_row_is_written<DB: AnalyticsDB>(
    before: DB,
    buffer: Seq<u8>,
    after: DB,
    r: Result<(), HandlerError>,
)
    requires
        dispatched(before, buffer, after, r),
    ensures
        r is Ok ==> {
            &&& message_of(buffer) is Ok
            &&& after.rows().len() == before.rows().len() + 1
            &&& after.rows().drop_last() == before.rows()
            &&& after.rows().last() == row_of(message_of(buffer)->Ok_0)
            &&& forall|column: Column|
                !columns_of(message_of(buffer)->Ok_0.event.kind()).contains(column)
                    ==> #[trigger] after.rows().last().cell(column) is Null
        },
        r is Err ==> after.rows() == before.rows(),
        message_of(buffer) is Err ==> r is Err && after == before,
{
    if r is Ok {
        let message = message_of(buffer)->Ok_0;
        assert(after.rows().drop_last() =~= before.rows());
        assert forall|column: Column|
            !columns_of(message.event.kind()).contains(column) implies #[trigger] row_of(
            message,
        ).cell(column) is Null by {
            other_columns_are_null(message, column);
        }
    }
}

/// Primary key: of two buffers that hold messages with the same timestamp
/// and are dispatched one after the other to a table in memory, the second is
/// refused as a uniqueness failure and leaves the table as the first left it.
/// The first is stored exactly when the table held no row with that
/// timestamp before.
pub proof fn second_timestamp_is_refused(
    before: MemoryStore,
    first: Seq<u8>,
    between: MemoryStore,
    first_answer: Result<(), HandlerError>,
    second: Seq<u8>,
    after: MemoryStore,
    second_answer: Result<(), HandlerError>,
)
    requires
        dispatched(before, first, between, first_answer),
        dispatched(between, second, after, second_answer),
        message_of(first) is Ok,
        message_of(second) is Ok,
        message_of(first)->Ok_0.metadata.tmstp == message_of(second)->Ok_0.metadata.tmstp,
    ensures
        first_answer is Ok <==> !holds_timestamp(
            before.rows(),
            message_of(first)->Ok_0.metadata.tmstp,
        ),
        first_answer is Ok ==> between.rows() == before.rows().push(
            row_of(message_of(first)->Ok_0),
        ),
        second_answer is Err,
        second_answer->Err_0 is Store,
        second_answer->Err_0->Store_0.kind == DbErrorKind::Uniqueness,
        after.rows() == between.rows(),
{
    let tmstp = message_of(first)->Ok_0.metadata.tmstp;
    let row = row_of(message_of(first)->Ok_0);
    assert(row.tmstp == tmstp);
    assert(row_of(message_of(second)->Ok_0).tmstp == tmstp);
    if first_answer is Ok {
        assert(between.rows()[before.rows().len() as int].tmstp == tmstp);
    }
    assert(holds_timestamp(between.rows(), tmstp));
}

/// The status of a request that was carried out.
pub const STATUS_OK: u16 = 200;

/// The status of a message that was stored.
pub const STATUS_ACCEPTED: u16 = 202;

/// The status of a buffer that holds no message: the fault of the sender.
pub const STATUS_BAD_REQUEST: u16 = 400;

/// The status of a message that the store did not take.
pub const STATUS_INTERNAL_SERVER_ERROR: u16 = 500;

/// What is answered to a request: a status and a text.
#[derive(Clone, Debug, PartialEq, Eq)]
pub struct Reply {
    pub status: u16,
    pub body: String,
}

impl HandlerError {
    /// What the error says, in words.
    pub open spec fn text(self) -> Seq<char> {
        match self {
            HandlerError::Decode(e) => e.text(),
            HandlerError::Store(e) => e.message@,
        }
    }

    /// What the error says, in words: for a decode error its description,
    /// for a failure of the store the words of the engine or the pool.
    pub fn message(&self) -> (text: String)
        ensures
            text@ == self.text(),
    {
        match self {
            HandlerError::Decode(e) => String::from_str(e.describe()),
            HandlerError::Store(e) => e.message.clone(),
        }
    }
}

/// The status that answers the outcome of a dispatch: accepted for a
/// message that was stored, a fault of the sender for a buffer that holds no
/// message, a fault of the server for a row that the store did not take.
pub open spec fn status_of(outcome: Result<(), HandlerError>) -> u16 {
    match outcome {
        Ok(_) => STATUS_ACCEPTED,
        Err(HandlerError::Decode(_)) => STATUS_BAD_REQUEST,
        Err(HandlerError::Store(_)) => STATUS_INTERNAL_SERVER_ERROR,
    }
}

/// The text that answers the outcome of a dispatch: nothing for a message
/// that was stored, else what the error says.
pub open spec fn body_of(outcome: Result<(), HandlerError>) -> Seq<char> {
    match outcome {
        Ok(_) => Seq::empty(),
        Err(e) => e.text(),
    }
}

/// The answer to the sender for the outcome of a dispatch.
pub fn reply(outcome: &Result<(), HandlerError>) -> (reply: Reply)
    ensures
        reply.status == status_of(*outcome),
        reply.body@ == body_of(*outcome),
{
    match outcome {
        Ok(_) => Reply { status: STATUS_ACCEPTED, body: String::new() },
        Err(HandlerError::Decode(e)) => Reply {
            status: STATUS_BAD_REQUEST,
            body: String::from_str(e.describe()),
        },
        Err(HandlerError::Store(e)) => Reply {
            status: STATUS_INTERNAL_SERVER_ERROR,
            body: e.message.clone(),
        },
    }
}

/// Handles the body of a posted message: dispatches it, once, and answers
/// for the outcome.
pub fn analytics_message<DB>(body: Vec<u8>, db: &mut DB) -> (reply: Reply) where DB: AnalyticsDB
    ensures
        exists|outcome: Result<(), HandlerError>|
            {
                &&& #[trigger] dispatched(*old(db), body@, *final(db), outcome)
                &&& reply.status == status_of(outcome)
                &&& reply.body@ == body_of(outcome)
            },
{
    let ghost buffer = body@;
    let outcome = consume_analytics_message(db, body);
    assert(dispatched(*old(db), buffer, *db, outcome));
    self::reply(&outcome)
}

/// Answers a liveness check: success and no text. No store is involved.
pub fn heartbeat() -> (reply: Reply)
    ensures
        reply.status == STATUS_OK,
        reply.body@ == Seq::<char>::empty(),
{
    Reply { status: STATUS_OK, body: String::new() }
}

} // verus!
