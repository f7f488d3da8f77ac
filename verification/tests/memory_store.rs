use analyticsbase::analytics_handler::{
    analytics_message, consume_analytics_message, heartbeat, reply, HandlerError, Reply,
    STATUS_ACCEPTED, STATUS_BAD_REQUEST, STATUS_INTERNAL_SERVER_ERROR, STATUS_OK,
};
use analyticsbase::db::analytics::AnalyticsDB;
use analyticsbase::db::memory::MemoryStore;
use analyticsbase::db::table::Row;
use analyticsbase::db::{DbError, DbErrorKind};
use analyticsbase::kinds::{MessageKind, PageId, PlaybackSource};
use analyticsbase::model::{
    encode_message, Event, Message, Metadata, PageChange, PlaybackChange, SongChange,
};
use analyticsbase::wire::DecodeError;

fn page_buffer(tmstp: i64, origin: &str, src: PageId, dst: PageId) -> Vec<u8> {
    encode_message(&Message {
        metadata: Metadata { tmstp, origin: String::from(origin), kind: MessageKind::PageChange },
        event: Event::PageChange(PageChange { src, dst }),
    })
    .unwrap()
}

fn playback_buffer(tmstp: i64, origin: &str, name: &str, started: bool) -> Vec<u8> {
    encode_message(&Message {
        metadata: Metadata {
            tmstp,
            origin: String::from(origin),
            kind: MessageKind::PlaybackChange,
        },
        event: Event::PlaybackChange(PlaybackChange {
            source: PlaybackSource::Radio,
            name: String::from(name),
            started,
        }),
    })
    .unwrap()
}

fn song_buffer() -> Vec<u8> {
    encode_message(&Message {
        metadata: Metadata {
            tmstp: 2000,
            origin: String::from("radio-2"),
            kind: MessageKind::SongChange,
        },
        event: Event::SongChange(SongChange {
            raw_meta: String::from("Artist - Title"),
            title: String::from("Title"),
            artist: String::from("Artist"),
            album: String::from("Album"),
        }),
    })
    .unwrap()
}

#[test]
fn memory_page_change_becomes_one_row() {
    let mut store = MemoryStore::new();
    let buffer = page_buffer(1000, "kitchen-1", PageId::Home, PageId::Settings);
    assert_eq!(consume_analytics_message(&mut store, buffer), Ok(()));
    assert_eq!(
        store.stored(),
        &vec![Row {
            tmstp: 1000,
            origin: String::from("kitchen-1"),
            kind: 0,
            transition_src: Some(0),
            transition_dst: Some(2),
            playback_source: None,
            playback_name: None,
            playback_started: None,
            song_raw: None,
            song_title: None,
            song_artist: None,
            song_album: None,
        }]
    );
}

#[test]
fn memory_song_change_becomes_one_row() {
    let mut store = MemoryStore::new();
    assert_eq!(consume_analytics_message(&mut store, song_buffer()), Ok(()));
    assert_eq!(
        store.stored(),
        &vec![Row {
            tmstp: 2000,
            origin: String::from("radio-2"),
            kind: 2,
            transition_src: None,
            transition_dst: None,
            playback_source: None,
            playback_name: None,
            playback_started: None,
            song_raw: Some(String::from("Artist - Title")),
            song_title: Some(String::from("Title")),
            song_artist: Some(String::from("Artist")),
            song_album: Some(String::from("Album")),
        }]
    );
}

#[test]
fn memory_empty_buffer_writes_nothing() {
    let mut store = MemoryStore::new();
    assert_eq!(
        consume_analytics_message(&mut store, Vec::new()),
        Err(HandlerError::Decode(DecodeError::Truncated))
    );
    assert!(store.stored().is_empty());
}

#[test]
fn memory_buffer_that_is_no_message_leaves_the_rows() {
    let mut store = MemoryStore::new();
    let good = page_buffer(1, "a", PageId::Home, PageId::Player);
    assert_eq!(consume_analytics_message(&mut store, good.clone()), Ok(()));
    let before = store.stored().clone();
    let mut unknown = good.clone();
    unknown[0] = 7;
    assert_eq!(
        consume_analytics_message(&mut store, unknown),
        Err(HandlerError::Decode(DecodeError::UnknownKind(7)))
    );
    let mut mismatch = good.clone();
    mismatch[0] = 1;
    assert_eq!(
        consume_analytics_message(&mut store, mismatch),
        Err(HandlerError::Decode(DecodeError::PayloadMismatch))
    );
    let mut code = good;
    let last = code.len() - 1;
    code[last] = 9;
    assert_eq!(
        consume_analytics_message(&mut store, code),
        Err(HandlerError::Decode(DecodeError::UnknownEnumValue(9)))
    );
    assert_eq!(store.stored(), &before);
}

#[test]
fn memory_second_message_of_a_timestamp_is_refused() {
    let mut store = MemoryStore::new();
    let first = playback_buffer(3000, "kitchen-1", "fm", true);
    let second = playback_buffer(3000, "radio-2", "am", false);
    assert_eq!(consume_analytics_message(&mut store, first), Ok(()));
    let after_first = store.stored().clone();
    match consume_analytics_message(&mut store, second) {
        Err(HandlerError::Store(e)) => {
            assert_eq!(e.kind, DbErrorKind::Uniqueness);
            assert!(e.is_uniqueness());
        }
        other => panic!("not refused: {:?}", other),
    }
    assert_eq!(store.stored(), &after_first);
    assert_eq!(store.stored().len(), 1);
    assert_eq!(store.stored()[0].origin, "kitchen-1");
    assert_eq!(store.stored()[0].playback_name, Some(String::from("fm")));
    assert!(store.contains(3000));
    assert!(!store.contains(3001));
}

#[test]
fn memory_same_buffer_twice_is_refused_the_second_time() {
    let mut store = MemoryStore::new();
    let buffer = song_buffer();
    assert_eq!(consume_analytics_message(&mut store, buffer.clone()), Ok(()));
    assert!(matches!(
        consume_analytics_message(&mut store, buffer),
        Err(HandlerError::Store(DbError { kind: DbErrorKind::Uniqueness, .. }))
    ));
    assert_eq!(store.stored().len(), 1);
}

#[test]
fn memory_rows_are_kept_in_the_order_of_arrival() {
    let mut store = MemoryStore::new();
    for tmstp in [5i64, -3, 9, 0] {
        let buffer = page_buffer(tmstp, "o", PageId::Home, PageId::Home);
        assert_eq!(consume_analytics_message(&mut store, buffer), Ok(()));
    }
    let stamps: Vec<i64> = store.stored().iter().map(|row| row.tmstp).collect();
    assert_eq!(stamps, vec![5, -3, 9, 0]);
}

#[test]
fn memory_store_operations_write_the_row_of_their_kind() {
    let mut store = MemoryStore::new();
    let meta = Metadata { tmstp: 1, origin: String::from("o"), kind: MessageKind::PageChange };
    let page = PageChange { src: PageId::Library, dst: PageId::Home };
    assert_eq!(store.store_page_change(&meta, &page), Ok(()));
    let meta = Metadata { tmstp: 2, origin: String::from("o"), kind: MessageKind::PlaybackChange };
    let playback = PlaybackChange {
        source: PlaybackSource::Bluetooth,
        name: String::from("n"),
        started: true,
    };
    assert_eq!(store.store_playback_change(&meta, &playback), Ok(()));
    let meta = Metadata { tmstp: 2, origin: String::from("o"), kind: MessageKind::SongChange };
    let song = SongChange {
        raw_meta: String::from("r"),
        title: String::from("t"),
        artist: String::from("a"),
        album: String::from("l"),
    };
    assert!(store.store_song_change(&meta, &song).unwrap_err().is_uniqueness());
    let meta = Metadata { tmstp: 3, origin: String::from("o"), kind: MessageKind::SongChange };
    assert_eq!(store.store_song_change(&meta, &song), Ok(()));
    let rows = store.stored();
    assert_eq!(rows.len(), 3);
    assert_eq!((rows[0].kind, rows[0].transition_src, rows[0].transition_dst), (0, Some(3), Some(0)));
    assert_eq!((rows[1].kind, rows[1].playback_source, rows[1].playback_started), (1, Some(1), Some(true)));
    assert_eq!((rows[2].kind, rows[2].song_album.as_deref()), (2, Some("l")));
}

#[test]
fn replies_follow_the_outcome() {
    assert_eq!(reply(&Ok(())), Reply { status: 202, body: String::new() });
    assert_eq!(
        reply(&Err(HandlerError::Decode(DecodeError::Truncated))),
        Reply { status: 400, body: String::from("the buffer ends too early") }
    );
    assert_eq!(
        reply(&Err(HandlerError::Store(DbError {
            kind: DbErrorKind::Uniqueness,
            message: String::from("taken"),
        }))),
        Reply { status: 500, body: String::from("taken") }
    );
    assert_eq!(
        (STATUS_OK, STATUS_ACCEPTED, STATUS_BAD_REQUEST, STATUS_INTERNAL_SERVER_ERROR),
        (200, 202, 400, 500)
    );
}

#[test]
fn handler_errors_come_from_their_causes() {
    let store = DbError { kind: DbErrorKind::Pool, message: String::from("no connection") };
    assert_eq!(HandlerError::from(store.clone()), HandlerError::Store(store.clone()));
    assert_eq!(HandlerError::from(store).message(), "no connection");
    assert_eq!(
        HandlerError::from(DecodeError::InvalidText),
        HandlerError::Decode(DecodeError::InvalidText)
    );
    assert_eq!(
        HandlerError::from(DecodeError::InvalidText).message(),
        DecodeError::InvalidText.describe()
    );
}

#[test]
fn memory_posted_message_is_answered() {
    let mut store = MemoryStore::new();
    let buffer = page_buffer(1000, "kitchen-1", PageId::Home, PageId::Settings);
    let accepted = analytics_message(buffer.clone(), &mut store);
    assert_eq!(accepted, Reply { status: 202, body: String::new() });
    let refused = analytics_message(buffer, &mut store);
    assert_eq!(refused.status, 500);
    assert!(!refused.body.is_empty());
    let rejected = analytics_message(vec![1, 2, 3], &mut store);
    assert_eq!(rejected, Reply { status: 400, body: String::from("the buffer ends too early") });
    assert_eq!(store.stored().len(), 1);
}

#[test]
fn heartbeat_is_answered_with_success() {
    let mut store = MemoryStore::new();
    let buffer = page_buffer(1, "o", PageId::Home, PageId::Home);
    assert_eq!(consume_analytics_message(&mut store, buffer), Ok(()));
    let before = store.stored().clone();
    assert_eq!(heartbeat(), Reply { status: 200, body: String::new() });
    assert_eq!(store.stored(), &before);
}
