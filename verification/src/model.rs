//! The typed values of a message: the metadata that every message has and
//! the three payloads, each built from what an envelope holds.

use crate::envelope::{
    decode, encode, envelope_is_canonical, envelope_round_trip, parse_envelope, Envelope, EnvelopeView, Payload,
    PayloadView, RawPageChange, RawPlaybackChange, RawSongChange, MIN_ENVELOPE_LEN,
};
use crate::kinds::{MessageKind, PageId, PlaybackSource};
use crate::wire::DecodeError;
use vstd::prelude::*;

verus! {

/// What every message says of itself: when it was sent, by whom, and of
/// which kind it is.
#[derive(Clone, Debug, PartialEq, Eq)]
pub struct Metadata {
    /// Milliseconds since the epoch.
    pub tmstp: i64,
    pub origin: String,
    pub kind: MessageKind,
}

/// The user went from one page to another.
#[derive(Clone, Copy, Debug, PartialEq, Eq, Structural)]
pub struct PageChange {
    pub src: PageId,
    pub dst: PageId,
}

/// Playback from a source started or stopped.
#[derive(Clone, Debug, PartialEq, Eq)]
pub struct PlaybackChange {
    pub source: PlaybackSource,
    pub name: String,
    pub started: bool,
}

/// Another song is playing.
#[derive(Clone, Debug, PartialEq, Eq)]
pub struct SongChange {
    pub raw_meta: String,
    pub title: String,
    pub artist: String,
    pub album: String,
}

/// The metadata of a message as a mathematical value.
pub struct MetadataView {
    pub tmstp: i64,
    pub origin: Seq<char>,
    pub kind: MessageKind,
}

/// A playback change as a mathematical value.
pub struct PlaybackChangeView {
    pub source: PlaybackSource,
    pub name: Seq<char>,
    pub started: bool,
}

/// A song change as a mathematical value.
pub struct SongChangeView {
    pub raw_meta: Seq<char>,
    pub title: Seq<char>,
    pub artist: Seq<char>,
    pub album: Seq<char>,
}

impl View for Metadata {
    type V = MetadataView;

    open spec fn view(&self) -> MetadataView {
        MetadataView { tmstp: self.tmstp, origin: self.origin@, kind: self.kind }
    }
}

impl View for PageChange {
    type V = PageChange;

    open spec fn view(&self) -> PageChange {
        *self
    }
}

impl View for PlaybackChange {
    type V = PlaybackChangeView;

    open spec fn view(&self) -> PlaybackChangeView {
        PlaybackChangeView { source: self.source, name: self.name@, started: self.started }
    }
}

impl View for SongChange {
    type V = SongChangeView;

    open spec fn view(&self) -> SongChangeView {
        SongChangeView {
            raw_meta: self.raw_meta@,
            title: self.title@,
            artist: self.artist@,
            album: self.album@,
        }
    }
}

/// The metadata that an envelope gives.
pub open spec fn metadata_of(envelope: EnvelopeView) -> MetadataView {
    MetadataView { tmstp: envelope.timestamp, origin: envelope.origin, kind: envelope.kind }
}

/// The page change that two page codes give: both must lie in the closed
/// set, and the first that does not is reported.
pub open spec fn page_change_of(src: u8, dst: u8) -> Result<PageChange, DecodeError> {
    match PageId::from_code_spec(src) {
        None => Err(DecodeError::UnknownEnumValue(src)),
        Some(src_page) => match PageId::from_code_spec(dst) {
            None => Err(DecodeError::UnknownEnumValue(dst)),
            Some(dst_page) => Ok(PageChange { src: src_page, dst: dst_page }),
        },
    }
}

/// The playback change that a source code, a name and a flag give: the code
/// must lie in the closed set, and the name is taken as it is.
pub open spec fn playback_change_of(source: u8, name: Seq<char>, started: bool) -> Result<
    PlaybackChangeView,
    DecodeError,
> {
    match PlaybackSource::from_code_spec(source) {
        None => Err(DecodeError::UnknownEnumValue(source)),
        Some(known) => Ok(PlaybackChangeView { source: known, name, started }),
    }
}

impl Metadata {
    /// The metadata of an envelope: its timestamp, origin and kind, as they
    /// stand.
    pub fn new(envelope: &Envelope) -> (metadata: Metadata)
        ensures
            metadata@ == metadata_of(envelope@),
    {
        Metadata {
            tmstp: envelope.timestamp,
            origin: envelope.origin.clone(),
            kind: envelope.kind,
        }
    }
}

impl PageChange {
    /// Builds a page change from its raw payload, or says which page code is
    /// unknown.
    pub fn new(raw: &RawPageChange) -> (r: Result<PageChange, DecodeError>)
        ensures
            r == page_change_of(raw.src, raw.dst),
    {
        let src = match PageId::from_code(raw.src) {
            None => { return Err(DecodeError::UnknownEnumValue(raw.src)); },
            Some(page) => page,
        };
        let dst = match PageId::from_code(raw.dst) {
            None => { return Err(DecodeError::UnknownEnumValue(raw.dst)); },
            Some(page) => page,
        };
        Ok(PageChange { src, dst })
    }
}

impl PlaybackChange {
    /// Builds a playback change from its raw payload, or says that the
    /// source code is unknown. The name is copied as it is.
    pub fn new(raw: &RawPlaybackChange) -> (r: Result<PlaybackChange, DecodeError>)
        ensures
            match r {
                Ok(change) => playback_change_of(raw.source, raw.name@, raw.started) == Ok::<
                    _,
                    DecodeError,
                >(change@),
                Err(e) => playback_change_of(raw.source, raw.name@, raw.started) == Err::<
                    PlaybackChangeView,
                    _,
                >(e),
            },
    {
        match PlaybackSource::from_code(raw.source) {
            None => Err(DecodeError::UnknownEnumValue(raw.source)),
            Some(source) => Ok(
                PlaybackChange { source, name: raw.name.clone(), started: raw.started },
            ),
        }
    }
}

impl SongChange {
    /// Builds a song change from its raw payload: the four texts, copied as
    /// they are.
    pub fn new(raw: &RawSongChange) -> (change: SongChange)
        ensures
            change@ == (SongChangeView {
                raw_meta: raw.raw@,
                title: raw.title@,
                artist: raw.artist@,
                album: raw.album@,
            }),
    {
        SongChange {
            raw_meta: raw.raw.clone(),
            title: raw.title.clone(),
            artist: raw.artist.clone(),
            album: raw.album.clone(),
        }
    }
}

/// The typed payload of a message.
#[derive(Clone, Debug, PartialEq, Eq)]
pub enum Event {
    PageChange(PageChange),
    PlaybackChange(PlaybackChange),
    SongChange(SongChange),
}

/// A message: its metadata and the one payload of the kind that the metadata
/// names.
#[derive(Clone, Debug, PartialEq, Eq)]
pub struct Message {
    pub metadata: Metadata,
    pub event: Event,
}

/// A typed payload as a mathematical value.
pub enum EventView {
    PageChange(PageChange),
    PlaybackChange(PlaybackChangeView),
    SongChange(SongChangeView),
}

/// A message as a mathematical value.
pub struct MessageView {
    pub metadata: MetadataView,
    pub event: EventView,
}

impl View for Event {
    type V = EventView;

    open spec fn view(&self) -> EventView {
        match *self {
            Event::PageChange(p) => EventView::PageChange(p),
            Event::PlaybackChange(p) => EventView::PlaybackChange(p@),
            Event::SongChange(p) => EventView::SongChange(p@),
        }
    }
}

impl View for Message {
    type V = MessageView;

    open spec fn view(&self) -> MessageView {
        MessageView { metadata: self.metadata@, event: self.event@ }
    }
}

impl EventView {
    /// The kind of message that this payload belongs to.
    pub open spec fn kind(self) -> MessageKind {
        match self {
            EventView::PageChange(_) => MessageKind::PageChange,
            EventView::PlaybackChange(_) => MessageKind::PlaybackChange,
            EventView::SongChange(_) => MessageKind::SongChange,
        }
    }

    /// The payload as an envelope holds it, with codes in place of the
    /// enumerations.
    pub open spec fn payload(self) -> PayloadView {
        match self {
            EventView::PageChange(p) => PayloadView::PageChange {
                src: p.src.code_spec(),
                dst: p.dst.code_spec(),
            },
            EventView::PlaybackChange(p) => PayloadView::PlaybackChange {
                source: p.source.code_spec(),
                name: p.name,
                started: p.started,
            },
            EventView::SongChange(p) => PayloadView::SongChange {
                raw: p.raw_meta,
                title: p.title,
                artist: p.artist,
                album: p.album,
            },
        }
    }
}

impl MessageView {
    /// The kind in the metadata is the kind of the payload.
    pub open spec fn wf(self) -> bool {
        self.metadata.kind == self.event.kind()
    }

    /// The envelope that carries this message.
    pub open spec fn envelope(self) -> EnvelopeView {
        EnvelopeView {
            origin: self.metadata.origin,
            timestamp: self.metadata.tmstp,
            kind: self.metadata.kind,
            payload: self.event.payload(),
        }
    }

    /// Whether each text of the message is short enough to be written.
    pub open spec fn fits(self) -> bool {
        self.envelope().fits()
    }

    /// The bytes of the message: those of its envelope.
    pub open spec fn bytes(self) -> Seq<u8> {
        self.envelope().bytes()
    }
}

/// The typed payload that a raw payload gives, or the first code in it that
/// lies outside its closed set.
pub open spec fn event_of(payload: PayloadView) -> Result<EventView, DecodeError> {
    match payload {
        PayloadView::PageChange { src, dst } => match page_change_of(src, dst) {
            Err(e) => Err(e),
            Ok(change) => Ok(EventView::PageChange(change)),
        },
        PayloadView::PlaybackChange { source, name, started } => match playback_change_of(
            source,
            name,
            started,
        ) {
            Err(e) => Err(e),
            Ok(change) => Ok(EventView::PlaybackChange(change)),
        },
        PayloadView::SongChange { raw, title, artist, album } => Ok(
            EventView::SongChange(SongChangeView { raw_meta: raw, title, artist, album }),
        ),
    }
}

/// The message that an envelope gives. The payload must be the one that the
/// kind announces, and each code in it must lie in its closed set.
pub open spec fn interpret(envelope: EnvelopeView) -> Result<MessageView, DecodeError> {
    if envelope.payload.kind() != envelope.kind {
        Err(DecodeError::PayloadMismatch)
    } else {
        match event_of(envelope.payload) {
            Err(e) => Err(e),
            Ok(event) => Ok(MessageView { metadata: metadata_of(envelope), event }),
        }
    }
}

/// The message that a buffer holds, or the first thing that is wrong with
/// the buffer.
pub open spec fn message_of(bytes: Seq<u8>) -> Result<MessageView, DecodeError> {
    match parse_envelope(bytes) {
        Err(e) => Err(e),
        Ok(envelope) => interpret(envelope),
    }
}

/// Round trip: for each kind of payload, a message that is written out and
/// decoded comes back with the same metadata and the same payload.
pub proof fn message_round_trip(message: MessageView)
    requires
        message.wf(),
        message.fits(),
    ensures
        message_of(message.bytes()) == Ok::<_, DecodeError>(message),
{
    envelope_round_trip(message.envelope());
}

/// A buffer shorter than the shortest envelope holds no message: decoding it
/// fails, and says that the buffer is truncated.
pub proof fn truncated_input_is_rejected(bytes: Seq<u8>)
    requires
        bytes.len() < MIN_ENVELOPE_LEN,
    ensures
        message_of(bytes) == Err::<MessageView, _>(DecodeError::Truncated),
{
}

/// A buffer whose kind byte lies outside the closed set holds no message.
pub proof fn unknown_kind_is_rejected(bytes: Seq<u8>)
    requires
        bytes.len() >= MIN_ENVELOPE_LEN,
        bytes[0] > 2,
    ensures
        message_of(bytes) == Err::<MessageView, _>(DecodeError::UnknownKind(bytes[0])),
{
}

/// The first code in a payload that lies outside its closed set, if there
/// is one: a page code above 3 or a source code above 2.
pub open spec fn unknown_code(payload: PayloadView) -> Option<u8> {
    match payload {
        PayloadView::PageChange { src, dst } => if src > 3 {
            Some(src)
        } else if dst > 3 {
            Some(dst)
        } else {
            None
        },
        PayloadView::PlaybackChange { source, .. } => if source > 2 {
            Some(source)
        } else {
            None
        },
        PayloadView::SongChange { .. } => None,
    }
}

/// A buffer that holds an envelope with a page code or a source code outside
/// its closed set holds no message.
pub proof fn unknown_enum_value_is_rejected(bytes: Seq<u8>)
    requires
        parse_envelope(bytes) is Ok,
        unknown_code(parse_envelope(bytes)->Ok_0.payload) is Some,
    ensures
        message_of(bytes) is Err,
        message_of(bytes)->Err_0 == DecodeError::PayloadMismatch || message_of(bytes)->Err_0
            == DecodeError::UnknownEnumValue(
            unknown_code(parse_envelope(bytes)->Ok_0.payload)->Some_0,
        ),
{
}

/// An envelope gives a message exactly when its payload is of the kind it
/// announces and holds no unknown code; a payload of another kind is a
/// mismatch, and an unknown code in a payload of the right kind is reported
/// as that code.
pub proof fn interpretation_is_exact(envelope: EnvelopeView)
    ensures
        interpret(envelope) is Ok <==> envelope.payload.kind() == envelope.kind && unknown_code(
            envelope.payload,
        ) is None,
        interpret(envelope) == Err::<MessageView, _>(DecodeError::PayloadMismatch)
            <==> envelope.payload.kind() != envelope.kind,
        forall|code: u8|
            interpret(envelope) == Err::<MessageView, _>(DecodeError::UnknownEnumValue(code)) <==> (
            envelope.payload.kind() == envelope.kind && unknown_code(envelope.payload) == Some(
                code,
            )),
        interpret(envelope) is Ok ==> interpret(envelope)->Ok_0.wf() && interpret(
            envelope,
        )->Ok_0.envelope() == envelope,
{
}

/// What decodes to a message is that message written out, and the message is
/// well formed: its kind is the kind of its payload.
pub proof fn decoded_message_is_exact(bytes: Seq<u8>)
    requires
        message_of(bytes) is Ok,
    ensures
        message_of(bytes)->Ok_0.wf(),
        message_of(bytes)->Ok_0.fits(),
        message_of(bytes)->Ok_0.bytes() == bytes,
{
    let envelope = parse_envelope(bytes)->Ok_0;
    let message = message_of(bytes)->Ok_0;
    envelope_is_canonical(bytes);
    interpretation_is_exact(envelope);
}

impl Event {
    /// The kind of message that this payload belongs to.
    pub fn kind(&self) -> (kind: MessageKind)
        ensures
            kind == self@.kind(),
    {
        match self {
            Event::PageChange(_) => MessageKind::PageChange,
            Event::PlaybackChange(_) => MessageKind::PlaybackChange,
            Event::SongChange(_) => MessageKind::SongChange,
        }
    }

    /// The payload as an envelope holds it.
    pub fn to_payload(&self) -> (payload: Payload)
        ensures
            payload@ == self@.payload(),
    {
        match self {
            Event::PageChange(p) => Payload::PageChange(
                RawPageChange { src: p.src.code(), dst: p.dst.code() },
            ),
            Event::PlaybackChange(p) => Payload::PlaybackChange(
                RawPlaybackChange {
                    source: p.source.code(),
                    name: p.name.clone(),
                    started: p.started,
                },
            ),
            Event::SongChange(p) => Payload::SongChange(
                RawSongChange {
                    raw: p.raw_meta.clone(),
                    title: p.title.clone(),
                    artist: p.artist.clone(),
                    album: p.album.clone(),
                },
            ),
        }
    }
}

impl Message {
    /// The message with this payload, sent by `origin` at `tmstp`; its kind
    /// is the kind of the payload.
    pub fn new(tmstp: i64, origin: String, event: Event) -> (message: Message)
        ensures
            message@.wf(),
            message.metadata.tmstp == tmstp,
            message.metadata.origin == origin,
            message.event == event,
    {
        let kind = event.kind();
        Message { metadata: Metadata { tmstp, origin, kind }, event }
    }

    /// Builds the message that an envelope holds.
    ///
    /// Fails with `PayloadMismatch` if the envelope carries another payload
    /// than its kind announces, and with `UnknownEnumValue` if a code in the
    /// payload lies outside its closed set.
    pub fn from_envelope(envelope: &Envelope) -> (r: Result<Message, DecodeError>)
        ensures
            match r {
                Ok(message) => interpret(envelope@) == Ok::<_, DecodeError>(message@),
                Err(e) => interpret(envelope@) == Err::<MessageView, _>(e),
            },
    {
        let metadata = Metadata::new(envelope);
        match metadata.kind {
            MessageKind::PageChange => {
                let payload = match envelope.payload_as_page_change() {
                    None => { return Err(DecodeError::PayloadMismatch); },
                    Some(payload) => payload,
                };
                match PageChange::new(payload) {
                    Err(e) => Err(e),
                    Ok(page) => Ok(Message { metadata, event: Event::PageChange(page) }),
                }
            },
            MessageKind::PlaybackChange => {
                let payload = match envelope.payload_as_playback_change() {
                    None => { return Err(DecodeError::PayloadMismatch); },
                    Some(payload) => payload,
                };
                match PlaybackChange::new(payload) {
                    Err(e) => Err(e),
                    Ok(playback) => Ok(
                        Message { metadata, event: Event::PlaybackChange(playback) },
                    ),
                }
            },
            MessageKind::SongChange => {
                let payload = match envelope.payload_as_playback_song_change() {
                    None => { return Err(DecodeError::PayloadMismatch); },
                    Some(payload) => payload,
                };
                let song = SongChange::new(payload);
                Ok(Message { metadata, event: Event::SongChange(song) })
            },
        }
    }

    /// The envelope that carries this message.
    pub fn to_envelope(&self) -> (envelope: Envelope)
        ensures
            envelope@ == self@.envelope(),
    {
        Envelope {
            origin: self.metadata.origin.clone(),
            timestamp: self.metadata.tmstp,
            kind: self.metadata.kind,
            payload: self.event.to_payload(),
        }
    }
}

/// Decodes a buffer into the message it holds, or says what is wrong with
/// the buffer.
pub fn decode_message(buffer: &[u8]) -> (r: Result<Message, DecodeError>)
    ensures
        match r {
            Ok(message) => message_of(buffer@) == Ok::<_, DecodeError>(message@),
            Err(e) => message_of(buffer@) == Err::<MessageView, _>(e),
        },
{
    match decode(buffer) {
        Err(e) => Err(e),
        Ok(envelope) => Message::from_envelope(&envelope),
    }
}

/// Writes a message out; `None` if one of its texts is longer than a text
/// field can say.
pub fn encode_message(message: &Message) -> (r: Option<Vec<u8>>)
    ensures
        match r {
            Some(bytes) => message@.fits() && bytes@ == message@.bytes(),
            None => !message@.fits(),
        },
{
    let envelope = message.to_envelope();
    encode(&envelope)
}

} // verus!
