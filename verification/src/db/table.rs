//! The one wide table that holds every message, a row for each: its columns,
//! the row that a message becomes, and the insert statement for a row.
//!
//! | column             | holds                                   |
//! |--------------------|-----------------------------------------|
//! | `tmstp`            | primary key: milliseconds since epoch   |
//! | `origin`           | the sender                              |
//! | `kind`             | the code of the message kind            |
//! | `transition_src`   | page change: code of the page left      |
//! | `transition_dst`   | page change: code of the page entered   |
//! | `playback_source`  | playback change: code of the source     |
//! | `playback_name`    | playback change: name                   |
//! | `playback_started` | playback change: started or stopped     |
//! | `song_raw`         | song change: the metadata as received   |
//! | `song_title`       | song change: title                      |
//! | `song_artist`      | song change: artist                     |
//! | `song_album`       | song change: album                      |
//!
//! The columns of the kinds that a message is not of stay null.

use crate::kinds::MessageKind;
use crate::model::{
    EventView, MessageView, Metadata, MetadataView, PageChange, PlaybackChange,
    PlaybackChangeView, SongChange, SongChangeView,
};
use vstd::prelude::*;
use vstd::string::StringExecFns;

verus! {

/// The statement that creates the table unless it is there.
pub const SCHEMA: &'static str = "CREATE TABLE IF NOT EXISTS analytics (
    tmstp   INTEGER PRIMARY KEY,
    origin  VARCHAR(20) NOT NULL,
    kind    TINYINT,
    transition_src  TINYINT,
    transition_dst  TINYINT,
    playback_source TINYINT,
    playback_name   VARCHAR(25),
    playback_started BOOLEAN,
    song_raw        VARCHAR(60),
    song_title      VARCHAR(20),
    song_artist     VARCHAR(20),
    song_album      VARCHAR(20)
);";

/// A column of the table.
#[derive(Clone, Copy, Debug, PartialEq, Eq, Structural)]
pub enum Column {
    Tmstp,
    Origin,
    Kind,
    TransitionSrc,
    TransitionDst,
    PlaybackSource,
    PlaybackName,
    PlaybackStarted,
    SongRaw,
    SongTitle,
    SongArtist,
    SongAlbum,
}

impl Column {
    /// The name of the column in the table.
    pub open spec fn name_spec(self) -> Seq<char> {
        match self {
            Column::Tmstp => "tmstp"@,
            Column::Origin => "origin"@,
            Column::Kind => "kind"@,
            Column::TransitionSrc => "transition_src"@,
            Column::TransitionDst => "transition_dst"@,
            Column::PlaybackSource => "playback_source"@,
            Column::PlaybackName => "playback_name"@,
            Column::PlaybackStarted => "playback_started"@,
            Column::SongRaw => "song_raw"@,
            Column::SongTitle => "song_title"@,
            Column::SongArtist => "song_artist"@,
            Column::SongAlbum => "song_album"@,
        }
    }

    /// The name of the column in the table.
    pub fn name(self) -> (name: &'static str)
        ensures
            name@ == self.name_spec(),
    {
        match self {
            Column::Tmstp => "tmstp",
            Column::Origin => "origin",
            Column::Kind => "kind",
            Column::TransitionSrc => "transition_src",
            Column::TransitionDst => "transition_dst",
            Column::PlaybackSource => "playback_source",
            Column::PlaybackName => "playback_name",
            Column::PlaybackStarted => "playback_started",
            Column::SongRaw => "song_raw",
            Column::SongTitle => "song_title",
            Column::SongArtist => "song_artist",
            Column::SongAlbum => "song_album",
        }
    }
}

/// A value that is bound to a parameter of a statement.
#[derive(Clone, Debug, PartialEq, Eq)]
pub enum SqlValue {
    Null,
    Integer(i64),
    Text(String),
}

/// A bound value as a mathematical value.
pub enum SqlValueView {
    Null,
    Integer(i64),
    Text(Seq<char>),
}

impl View for SqlValue {
    type V = SqlValueView;

    open spec fn view(&self) -> SqlValueView {
        match *self {
            SqlValue::Null => SqlValueView::Null,
            SqlValue::Integer(i) => SqlValueView::Integer(i),
            SqlValue::Text(s) => SqlValueView::Text(s@),
        }
    }
}

/// A row of the table.
#[derive(Clone, Debug, PartialEq, Eq)]
pub struct Row {
    pub tmstp: i64,
    pub origin: String,
    pub kind: u8,
    pub transition_src: Option<u8>,
    pub transition_dst: Option<u8>,
    pub playback_source: Option<u8>,
    pub playback_name: Option<String>,
    pub playback_started: Option<bool>,
    pub song_raw: Option<String>,
    pub song_title: Option<String>,
    pub song_artist: Option<String>,
    pub song_album: Option<String>,
}

/// A row as a mathematical value.
pub struct RowView {
    pub tmstp: i64,
    pub origin: Seq<char>,
    pub kind: u8,
    pub transition_src: Option<u8>,
    pub transition_dst: Option<u8>,
    pub playback_source: Option<u8>,
    pub playback_name: Option<Seq<char>>,
    pub playback_started: Option<bool>,
    pub song_raw: Option<Seq<char>>,
    pub song_title: Option<Seq<char>>,
    pub song_artist: Option<Seq<char>>,
    pub song_album: Option<Seq<char>>,
}

/// The view of a text that may be absent.
pub open spec fn text_view(text: Option<String>) -> Option<Seq<char>> {
    match text {
        None => None,
        Some(s) => Some(s@),
    }
}

impl View for Row {
    type V = RowView;

    open spec fn view(&self) -> RowView {
        RowView {
            tmstp: self.tmstp,
            origin: self.origin@,
            kind: self.kind,
            transition_src: self.transition_src,
            transition_dst: self.transition_dst,
            playback_source: self.playback_source,
            playback_name: text_view(self.playback_name),
            playback_started: self.playback_started,
            song_raw: text_view(self.song_raw),
            song_title: text_view(self.song_title),
            song_artist: text_view(self.song_artist),
            song_album: text_view(self.song_album),
        }
    }
}

/// The value that a code is stored as: the code as an integer, or null.
pub open spec fn code_cell(code: Option<u8>) -> SqlValueView {
    match code {
        None => SqlValueView::Null,
        Some(c) => SqlValueView::Integer(c as i64),
    }
}

/// The value that a text is stored as: the text, or null.
pub open spec fn text_cell(text: Option<Seq<char>>) -> SqlValueView {
    match text {
        None => SqlValueView::Null,
        Some(s) => SqlValueView::Text(s),
    }
}

/// The value that a boolean is stored as: 1 for true and 0 for false, or
/// null.
pub open spec fn flag_cell(flag: Option<bool>) -> SqlValueView {
    match flag {
        None => SqlValueView::Null,
        Some(b) => SqlValueView::Integer(
            if b {
                1
            } else {
                0
            },
        ),
    }
}

impl RowView {
    /// The row of a message with this metadata and no payload columns set.
    pub open spec fn bare(meta: MetadataView) -> RowView {
        RowView {
            tmstp: meta.tmstp,
            origin: meta.origin,
            kind: meta.kind.code_spec(),
            transition_src: None,
            transition_dst: None,
            playback_source: None,
            playback_name: None,
            playback_started: None,
            song_raw: None,
            song_title: None,
            song_artist: None,
            song_album: None,
        }
    }

    /// The value in a column of the row.
    pub open spec fn cell(self, column: Column) -> SqlValueView {
        match column {
            Column::Tmstp => SqlValueView::Integer(self.tmstp),
            Column::Origin => SqlValueView::Text(self.origin),
            Column::Kind => SqlValueView::Integer(self.kind as i64),
            Column::TransitionSrc => code_cell(self.transition_src),
            Column::TransitionDst => code_cell(self.transition_dst),
            Column::PlaybackSource => code_cell(self.playback_source),
            Column::PlaybackName => text_cell(self.playback_name),
            Column::PlaybackStarted => flag_cell(self.playback_started),
            Column::SongRaw => text_cell(self.song_raw),
            Column::SongTitle => text_cell(self.song_title),
            Column::SongArtist => text_cell(self.song_artist),
            Column::SongAlbum => text_cell(self.song_album),
        }
    }
}

/// The row of a page change: the two page codes, and nothing of the other
/// kinds.
pub open spec fn page_row_of(meta: MetadataView, change: PageChange) -> RowView {
    RowView {
        transition_src: Some(change.src.code_spec()),
        transition_dst: Some(change.dst.code_spec()),
        ..RowView::bare(meta)
    }
}

/// The row of a playback change: source code, name and flag, and nothing of
/// the other kinds.
pub open spec fn playback_row_of(meta: MetadataView, playback: PlaybackChangeView) -> RowView {
    RowView {
        playback_source: Some(playback.source.code_spec()),
        playback_name: Some(playback.name),
        playback_started: Some(playback.started),
        ..RowView::bare(meta)
    }
}

/// The row of a song change: the four texts, and nothing of the other kinds.
pub open spec fn song_row_of(meta: MetadataView, song: SongChangeView) -> RowView {
    RowView {
        song_raw: Some(song.raw_meta),
        song_title: Some(song.title),
        song_artist: Some(song.artist),
        song_album: Some(song.album),
        ..RowView::bare(meta)
    }
}

/// The row that a message becomes.
pub open spec fn row_of(message: MessageView) -> RowView {
    match message.event {
        EventView::PageChange(change) => page_row_of(message.metadata, change),
        EventView::PlaybackChange(playback) => playback_row_of(message.metadata, playback),
        EventView::SongChange(song) => song_row_of(message.metadata, song),
    }
}

/// The columns that the insert statement of a kind names, in its order.
pub open spec fn columns_of(kind: MessageKind) -> Seq<Column> {
    match kind {
        MessageKind::PageChange => seq![
            Column::Tmstp,
            Column::Origin,
            Column::Kind,
            Column::TransitionSrc,
            Column::TransitionDst,
        ],
        MessageKind::PlaybackChange => seq![
            Column::Tmstp,
            Column::Origin,
            Column::Kind,
            Column::PlaybackSource,
            Column::PlaybackName,
            Column::PlaybackStarted,
        ],
        MessageKind::SongChange => seq![
            Column::Tmstp,
            Column::Origin,
            Column::Kind,
            Column::SongRaw,
            Column::SongTitle,
            Column::SongArtist,
            Column::SongAlbum,
        ],
    }
}

/// Whether the insert statement of the kind names every column in which the
/// row holds a value.
pub open spec fn covers(kind: MessageKind, row: RowView) -> bool {
    forall|column: Column| #[trigger] row.cell(column) is Null || columns_of(kind).contains(column)
}

/// The columns of a message's own kind hold a value, and all other columns
/// of its row are null.
pub proof fn other_columns_are_null(message: MessageView, column: Column)
    ensures
        row_of(message).cell(column) is Null <==> !columns_of(message.event.kind()).contains(
            column,
        ),
{
    let columns = columns_of(message.event.kind());
    match message.event {
        EventView::PageChange(_) => {
            assert(columns[0] == Column::Tmstp && columns[1] == Column::Origin && columns[2]
                == Column::Kind && columns[3] == Column::TransitionSrc && columns[4]
                == Column::TransitionDst);
        },
        EventView::PlaybackChange(_) => {
            assert(columns[0] == Column::Tmstp && columns[1] == Column::Origin && columns[2]
                == Column::Kind && columns[3] == Column::PlaybackSource && columns[4]
                == Column::PlaybackName && columns[5] == Column::PlaybackStarted);
        },
        EventView::SongChange(_) => {
            assert(columns[0] == Column::Tmstp && columns[1] == Column::Origin && columns[2]
                == Column::Kind && columns[3] == Column::SongRaw && columns[4]
                == Column::SongTitle && columns[5] == Column::SongArtist && columns[6]
                == Column::SongAlbum);
        },
    }
}

/// The insert statement of a message's kind names every column in which the
/// row of the message holds a value.
pub proof fn row_is_covered(message: MessageView)
    ensures
        covers(message.event.kind(), row_of(message)),
{
    assert forall|column: Column| #[trigger]
        row_of(message).cell(column) is Null || columns_of(message.event.kind()).contains(
            column,
        ) by {
        other_columns_are_null(message, column);
    }
}

/// The names of the columns, separated by commas.
pub open spec fn column_list(columns: Seq<Column>) -> Seq<char>
    decreases columns.len(),
{
    if columns.len() == 0 {
        Seq::empty()
    } else if columns.len() == 1 {
        columns[0].name_spec()
    } else {
        column_list(columns.drop_last()) + ","@ + columns.last().name_spec()
    }
}

/// As many question marks as `count` says, separated by commas.
pub open spec fn marks(count: nat) -> Seq<char>
    decreases count,
{
    if count == 0 {
        Seq::empty()
    } else if count == 1 {
        "?"@
    } else {
        marks((count - 1) as nat) + ",?"@
    }
}

/// The text of the statement that inserts a row with values for the given
/// columns: each column by name, and a parameter for each.
pub open spec fn insert_sql_of(columns: Seq<Column>) -> Seq<char> {
    "INSERT INTO analytics ("@ + column_list(columns) + ") VALUES ("@ + marks(columns.len())
        + ")"@
}

/// The values of a row in the given columns, in their order.
pub open spec fn bindings_of(row: RowView, columns: Seq<Column>) -> Seq<SqlValueView> {
    Seq::new(columns.len(), |i: int| row.cell(columns[i]))
}

/// Bound values as mathematical values.
pub open spec fn value_views(values: Seq<SqlValue>) -> Seq<SqlValueView> {
    Seq::new(values.len(), |i: int| values[i]@)
}

/// An insert statement: its text, and the value for each of its parameters.
#[derive(Clone, Debug, PartialEq, Eq)]
pub struct InsertStatement {
    pub sql: String,
    pub values: Vec<SqlValue>,
}

/// The stored form of a text that may be absent.
fn text_value(text: &Option<String>) -> (value: SqlValue)
    ensures
        value@ == text_cell(text_view(*text)),
{
    match text {
        None => SqlValue::Null,
        Some(s) => SqlValue::Text(s.clone()),
    }
}

/// The stored form of a code that may be absent.
fn code_value(code: Option<u8>) -> (value: SqlValue)
    ensures
        value@ == code_cell(code),
{
    match code {
        None => SqlValue::Null,
        Some(c) => SqlValue::Integer(c as i64),
    }
}

impl Row {
    /// The row of a message with this metadata and no payload columns set.
    fn bare(meta: &Metadata) -> (row: Row)
        ensures
            row@ == RowView::bare(meta@),
    {
        Row {
            tmstp: meta.tmstp,
            origin: meta.origin.clone(),
            kind: meta.kind.code(),
            transition_src: None,
            transition_dst: None,
            playback_source: None,
            playback_name: None,
            playback_started: None,
            song_raw: None,
            song_title: None,
            song_artist: None,
            song_album: None,
        }
    }

    /// The value in a column of the row, as it is bound to a statement:
    /// codes and flags as integers, what is absent as null.
    pub fn cell(&self, column: Column) -> (value: SqlValue)
        ensures
            value@ == self@.cell(column),
    {
        match column {
            Column::Tmstp => SqlValue::Integer(self.tmstp),
            Column::Origin => SqlValue::Text(self.origin.clone()),
            Column::Kind => SqlValue::Integer(self.kind as i64),
            Column::TransitionSrc => code_value(self.transition_src),
            Column::TransitionDst => code_value(self.transition_dst),
            Column::PlaybackSource => code_value(self.playback_source),
            Column::PlaybackName => text_value(&self.playback_name),
            Column::PlaybackStarted => match self.playback_started {
                None => SqlValue::Null,
                Some(started) => SqlValue::Integer(
                    if started {
                        1
                    } else {
                        0
                    },
                ),
            },
            Column::SongRaw => text_value(&self.song_raw),
            Column::SongTitle => text_value(&self.song_title),
            Column::SongArtist => text_value(&self.song_artist),
            Column::SongAlbum => text_value(&self.song_album),
        }
    }
}

/// The row of a page change.
pub fn page_row(meta: &Metadata, change: &PageChange) -> (row: Row)
    ensures
        row@ == page_row_of(meta@, *change),
{
    let mut row = Row::bare(meta);
    row.transition_src = Some(change.src.code());
    row.transition_dst = Some(change.dst.code());
    row
}

/// The row of a playback change.
pub fn playback_row(meta: &Metadata, playback: &PlaybackChange) -> (row: Row)
    ensures
        row@ == playback_row_of(meta@, playback@),
{
    let mut row = Row::bare(meta);
    row.playback_source = Some(playback.source.code());
    row.playback_name = Some(playback.name.clone());
    row.playback_started = Some(playback.started);
    row
}

/// The row of a song change.
pub fn song_row(meta: &Metadata, song: &SongChange) -> (row: Row)
    ensures
        row@ == song_row_of(meta@, song@),
{
    let mut row = Row::bare(meta);
    row.song_raw = Some(song.raw_meta.clone());
    row.song_title = Some(song.title.clone());
    row.song_artist = Some(song.artist.clone());
    row.song_album = Some(song.album.clone());
    row
}

/// The columns that the insert statement of a kind names, in its order.
pub fn columns_for(kind: MessageKind) -> (columns: Vec<Column>)
    ensures
        columns@ == columns_of(kind),
{
    let mut columns: Vec<Column> = Vec::new();
    columns.push(Column::Tmstp);
    columns.push(Column::Origin);
    columns.push(Column::Kind);
    match kind {
        MessageKind::PageChange => {
            columns.push(Column::TransitionSrc);
            columns.push(Column::TransitionDst);
        },
        MessageKind::PlaybackChange => {
            columns.push(Column::PlaybackSource);
            columns.push(Column::PlaybackName);
            columns.push(Column::PlaybackStarted);
        },
        MessageKind::SongChange => {
            columns.push(Column::SongRaw);
            columns.push(Column::SongTitle);
            columns.push(Column::SongArtist);
            columns.push(Column::SongAlbum);
        },
    }
    assert(columns@ =~= columns_of(kind));
    columns
}

/// The text of the statement that inserts a row with values for the given
/// columns.
pub fn insert_sql(columns: &Vec<Column>) -> (sql: String)
    ensures
        sql@ == insert_sql_of(columns@),
{
    let mut sql = String::from_str("INSERT INTO analytics (");
    let mut list = String::new();
    let mut params = String::new();
    let mut i: usize = 0;
    while i < columns.len()
        invariant
            i <= columns.len(),
            list@ == column_list(columns@.take(i as int)),
            params@ == marks(i as nat),
        decreases columns.len() - i,
    {
        proof {
            assert(columns@.take(i + 1).drop_last() =~= columns@.take(i as int));
        }
        if i > 0 {
            list.append(",");
            params.append(",?");
        } else {
            params.append("?");
        }
        list.append(columns[i].name());
        i += 1;
    }
    assert(columns@.take(i as int) =~= columns@);
    sql.append(list.as_str());
    sql.append(") VALUES (");
    sql.append(params.as_str());
    sql.append(")");
    sql
}

/// The values of a row in the given columns, in their order.
pub fn bindings(row: &Row, columns: &Vec<Column>) -> (values: Vec<SqlValue>)
    ensures
        value_views(values@) == bindings_of(row@, columns@),
{
    let mut values: Vec<SqlValue> = Vec::new();
    let mut i: usize = 0;
    while i < columns.len()
        invariant
            i <= columns.len(),
            values@.len() == i,
            forall|j: int| 0 <= j < i ==> (#[trigger] values@[j])@ == row@.cell(columns@[j]),
        decreases columns.len() - i,
    {
        values.push(row.cell(columns[i]));
        i += 1;
    }
    assert(value_views(values@) =~= bindings_of(row@, columns@));
    values
}

/// The statement that inserts a row as a message of the given kind: it
/// names the columns of that kind and binds the row's value for each.
pub fn insert_statement(row: &Row, kind: MessageKind) -> (statement: InsertStatement)
    ensures
        statement.sql@ == insert_sql_of(columns_of(kind)),
        value_views(statement.values@) == bindings_of(row@, columns_of(kind)),
{
    let columns = columns_for(kind);
    InsertStatement { sql: insert_sql(&columns), values: bindings(row, &columns) }
}

} // verus!
