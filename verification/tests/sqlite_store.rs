use analyticsbase::analytics_handler::{
    analytics_message, consume_analytics_message, heartbeat, HandlerError,
};
use analyticsbase::db::analytics::AnalyticsDB;
use analyticsbase::db::sqlite::SqliteStore;
use analyticsbase::db::table::Row;
use analyticsbase::db::{initialize_db, DbErrorKind};
use analyticsbase::kinds::{MessageKind, PageId, PlaybackSource};
use analyticsbase::model::{
    encode_message, Event, Message, Metadata, PageChange, PlaybackChange, SongChange,
};
use analyticsbase::wire::DecodeError;

fn database(name: &str) -> String {
    format!("file:{}?mode=memory&cache=shared", name)
}

fn read_rows(path: &str) -> Vec<Row> {
    let conn = rusqlite::Connection::open(path).unwrap();
    let mut statement = conn
        .prepare(
            "SELECT tmstp, origin, kind, transition_src, transition_dst, playback_source, \
             playback_name, playback_started, song_raw, song_title, song_artist, song_album \
             FROM analytics ORDER BY rowid",
        )
        .unwrap();
    let rows = statement
        .query_map([], |r| {
            Ok(Row {
                tmstp: r.get(0)?,
                origin: r.get(1)?,
                kind: r.get(2)?,
                transition_src: r.get(3)?,
                transition_dst: r.get(4)?,
                playback_source: r.get(5)?,
                playback_name: r.get(6)?,
                playback_started: r.get(7)?,
                song_raw: r.get(8)?,
                song_title: r.get(9)?,
                song_artist: r.get(10)?,
                song_album: r.get(11)?,
            })
        })
        .unwrap();
    rows.map(|row| row.unwrap()).collect()
}

fn page_buffer(tmstp: i64, origin: &str, src: PageId, dst: PageId) -> Vec<u8> {
    encode_message(&Message {
        metadata: Metadata { tmstp, origin: String::from(origin), kind: MessageKind::PageChange },
        event: Event::PageChange(PageChange { src, dst }),
    })
    .unwrap()
}

fn playback_buffer(tmstp: i64, origin: &str, name: &str, started: bool) -> Vec<u8> {
    encode_message(&Message {
        metadata: Metadata {
            tmstp,
            origin: String::from(origin),
            kind: MessageKind::PlaybackChange,
        },
        event: Event::PlaybackChange(PlaybackChange {
            source: PlaybackSource::Bluetooth,
            name: String::from(name),
            started,
        }),
    })
    .unwrap()
}

#[test]
fn sqlite_page_change_becomes_one_row() {
    let path = database("sqlite_page_change_becomes_one_row");
    let mut store = initialize_db(&path).unwrap();
    let buffer = page_buffer(1000, "kitchen-1", PageId::Home, PageId::Settings);
    assert_eq!(consume_analytics_message(&mut store, buffer), Ok(()));
    assert_eq!(
        read_rows(&path),
        vec![Row {
            tmstp: 1000,
            origin: String::from("kitchen-1"),
            kind: 0,
            transition_src: Some(0),
            transition_dst: Some(2),
            playback_source: None,
            playback_name: None,
            playback_started: None,
            song_raw: None,
            song_title: None,
            song_artist: None,
            song_album: None,
        }]
    );
}

#[test]
fn sqlite_song_change_becomes_one_row() {
    let path = database("sqlite_song_change_becomes_one_row");
    let mut store = initialize_db(&path).unwrap();
    let buffer = encode_message(&Message {
        metadata: Metadata {
            tmstp: 2000,
            origin: String::from("radio-2"),
            kind: MessageKind::SongChange,
        },
        event: Event::SongChange(SongChange {
            raw_meta: String::from("Artist - Title"),
            title: String::from("Title"),
            artist: String::from("Artist"),
            album: String::from("Album"),
        }),
    })
    .unwrap();
    assert_eq!(consume_analytics_message(&mut store, buffer), Ok(()));
    assert_eq!(
        read_rows(&path),
        vec![Row {
            tmstp: 2000,
            origin: String::from("radio-2"),
            kind: 2,
            transition_src: None,
            transition_dst: None,
            playback_source: None,
            playback_name: None,
            playback_started: None,
            song_raw: Some(String::from("Artist - Title")),
            song_title: Some(String::from("Title")),
            song_artist: Some(String::from("Artist")),
            song_album: Some(String::from("Album")),
        }]
    );
}

#[test]
fn sqlite_playback_change_becomes_one_row() {
    let path = database("sqlite_playback_change_becomes_one_row");
    let mut store = initialize_db(&path).unwrap();
    let buffer = playback_buffer(-5, "hall", "Phone", false);
    assert_eq!(consume_analytics_message(&mut store, buffer), Ok(()));
    assert_eq!(
        read_rows(&path),
        vec![Row {
            tmstp: -5,
            origin: String::from("hall"),
            kind: 1,
            transition_src: None,
            transition_dst: None,
            playback_source: Some(1),
            playback_name: Some(String::from("Phone")),
            playback_started: Some(false),
            song_raw: None,
            song_title: None,
            song_artist: None,
            song_album: None,
        }]
    );
}

#[test]
fn sqlite_heartbeat_leaves_the_table() {
    let path = database("sqlite_heartbeat_leaves_the_table");
    let mut store = initialize_db(&path).unwrap();
    let buffer = page_buffer(1, "o", PageId::Home, PageId::Player);
    assert_eq!(consume_analytics_message(&mut store, buffer), Ok(()));
    let before = read_rows(&path);
    let reply = heartbeat();
    assert_eq!(reply.status, 200);
    assert_eq!(reply.body, "");
    assert_eq!(read_rows(&path), before);
    assert_eq!(before.len(), 1);
}

#[test]
fn sqlite_empty_buffer_writes_nothing() {
    let path = database("sqlite_empty_buffer_writes_nothing");
    let mut store = initialize_db(&path).unwrap();
    assert_eq!(
        consume_analytics_message(&mut store, Vec::new()),
        Err(HandlerError::Decode(DecodeError::Truncated))
    );
    assert!(read_rows(&path).is_empty());
    let reply = analytics_message(Vec::new(), &mut store);
    assert_eq!(reply.status, 400);
    assert!(read_rows(&path).is_empty());
}

#[test]
fn sqlite_second_message_of_a_timestamp_is_refused() {
    let path = database("sqlite_second_message_of_a_timestamp_is_refused");
    let mut store = initialize_db(&path).unwrap();
    let first = playback_buffer(3000, "kitchen-1", "fm", true);
    let second = playback_buffer(3000, "radio-2", "am", false);
    assert_eq!(consume_analytics_message(&mut store, first), Ok(()));
    match consume_analytics_message(&mut store, second) {
        Err(HandlerError::Store(e)) => {
            assert_eq!(e.kind, DbErrorKind::Uniqueness, "{}", e.message);
            assert!(e.is_uniqueness());
            assert!(!e.message.is_empty());
        }
        other => panic!("not refused: {:?}", other),
    }
    let rows = read_rows(&path);
    assert_eq!(rows.len(), 1);
    assert_eq!(rows[0].tmstp, 3000);
    assert_eq!(rows[0].origin, "kitchen-1");
    assert_eq!(rows[0].playback_name, Some(String::from("fm")));
    assert_eq!(rows[0].playback_started, Some(true));
}

#[test]
fn sqlite_posted_message_is_answered() {
    let path = database("sqlite_posted_message_is_answered");
    let mut store = initialize_db(&path).unwrap();
    let buffer = page_buffer(7, "o", PageId::Library, PageId::Home);
    let accepted = analytics_message(buffer.clone(), &mut store);
    assert_eq!((accepted.status, accepted.body.as_str()), (202, ""));
    let refused = analytics_message(buffer, &mut store);
    assert_eq!(refused.status, 500);
    assert!(refused.body.contains("analytics.tmstp"), "{}", refused.body);
    assert_eq!(read_rows(&path).len(), 1);
}

#[test]
fn sqlite_table_is_created_once() {
    let path = database("sqlite_table_is_created_once");
    let mut store = initialize_db(&path).unwrap();
    let buffer = page_buffer(1, "o", PageId::Home, PageId::Home);
    assert_eq!(consume_analytics_message(&mut store, buffer), Ok(()));
    assert_eq!(store.create_table(), Ok(()));
    let again = initialize_db(&path).unwrap();
    assert_eq!(again.create_table(), Ok(()));
    assert_eq!(read_rows(&path).len(), 1);
}

#[test]
fn sqlite_store_without_table_reports_the_engine() {
    let path = database("sqlite_store_without_table_reports_the_engine");
    let mut store = SqliteStore::open(&path).unwrap();
    let meta = Metadata { tmstp: 1, origin: String::from("o"), kind: MessageKind::PageChange };
    let page = PageChange { src: PageId::Home, dst: PageId::Home };
    let failure = store.store_page_change(&meta, &page).unwrap_err();
    assert_eq!(failure.kind, DbErrorKind::Engine);
    assert!(failure.message.contains("no such table"), "{}", failure.message);
    assert_eq!(store.create_table(), Ok(()));
    assert_eq!(store.store_page_change(&meta, &page), Ok(()));
    assert_eq!(read_rows(&path).len(), 1);
}

#[test]
fn sqlite_store_operations_write_the_row_of_their_kind() {
    let path = database("sqlite_store_operations_write_the_row_of_their_kind");
    let mut store = initialize_db(&path).unwrap();
    let meta = Metadata { tmstp: 10, origin: String::from("a"), kind: MessageKind::PlaybackChange };
    let playback = PlaybackChange {
        source: PlaybackSource::Library,
        name: String::from("Shelf"),
        started: true,
    };
    assert_eq!(store.store_playback_change(&meta, &playback), Ok(()));
    let meta = Metadata { tmstp: 11, origin: String::from("b"), kind: MessageKind::SongChange };
    let song = SongChange {
        raw_meta: String::new(),
        title: String::from("t"),
        artist: String::new(),
        album: String::from("l"),
    };
    assert_eq!(store.store_song_change(&meta, &song), Ok(()));
    assert!(store.store_song_change(&meta, &song).unwrap_err().is_uniqueness());
    let rows = read_rows(&path);
    assert_eq!(rows.len(), 2);
    assert_eq!(rows[0].playback_source, Some(2));
    assert_eq!(rows[0].playback_started, Some(true));
    assert_eq!(rows[0].song_raw, None);
    assert_eq!(rows[1].song_raw, Some(String::new()));
    assert_eq!(rows[1].song_title, Some(String::from("t")));
    assert_eq!(rows[1].playback_name, None);
}

#[test]
fn sqlite_handles_share_one_table() {
    let path = database("sqlite_handles_share_one_table");
    let store = initialize_db(&path).unwrap();
    let mut first = store.handle();
    let mut second = store.handle();
    assert_eq!(
        consume_analytics_message(&mut first, page_buffer(1, "a", PageId::Home, PageId::Player)),
        Ok(())
    );
    assert_eq!(
        consume_analytics_message(&mut second, page_buffer(2, "b", PageId::Player, PageId::Home)),
        Ok(())
    );
    match consume_analytics_message(&mut second, page_buffer(1, "c", PageId::Home, PageId::Home)) {
        Err(HandlerError::Store(e)) => assert!(e.is_uniqueness(), "{}", e.message),
        other => panic!("not refused: {:?}", other),
    }
    let rows = read_rows(&path);
    assert_eq!(rows.len(), 2);
    assert_eq!((rows[0].tmstp, rows[0].origin.as_str()), (1, "a"));
    assert_eq!((rows[1].tmstp, rows[1].origin.as_str()), (2, "b"));
}
