//! The binary envelope: what it holds, how it is laid out in bytes, and the
//! decoder and encoder for it.
//!
//! Layout, in this order:
//!
//! | field     | bytes                                              |
//! |-----------|----------------------------------------------------|
//! | kind      | 1: the code of the message kind                    |
//! | timestamp | 8: milliseconds since the epoch, little-endian     |
//! | origin    | a text field                                       |
//! | payload   | 1: the code of the payload kind, then its fields   |
//!
//! A text field is the length of its UTF-8 encoding in four little-endian
//! bytes, followed by the encoding. The fields of a page change are the two
//! page codes; those of a playback change the source code, the name as a text
//! field and one byte, 0 or 1, for `started`; those of a song change four text
//! fields: raw, title, artist, album. Nothing follows the payload.

use crate::kinds::MessageKind;
use crate::wire::{
    fits, get_i64, get_text, i64_bytes, i64_of, i64_round_trip, parse_text, put_i64, put_text,
    text_bytes, text_bytes_len, text_fits, text_is_canonical, text_round_trip, DecodeError,
};
use vstd::prelude::*;

verus! {

/// The payload of a page change as the buffer holds it: two page codes.
#[derive(Clone, Copy, Debug, PartialEq, Eq)]
pub struct RawPageChange {
    pub src: u8,
    pub dst: u8,
}

/// The payload of a playback change as the buffer holds it.
#[derive(Clone, Debug, PartialEq, Eq)]
pub struct RawPlaybackChange {
    pub source: u8,
    pub name: String,
    pub started: bool,
}

/// The payload of a song change as the buffer holds it.
#[derive(Clone, Debug, PartialEq, Eq)]
pub struct RawSongChange {
    pub raw: String,
    pub title: String,
    pub artist: String,
    pub album: String,
}

/// The one payload that an envelope carries.
#[derive(Clone, Debug, PartialEq, Eq)]
pub enum Payload {
    PageChange(RawPageChange),
    PlaybackChange(RawPlaybackChange),
    SongChange(RawSongChange),
}

/// A decoded buffer: who sent it and when, which kind of message it says it
/// is, and the payload it carries.
#[derive(Clone, Debug, PartialEq, Eq)]
pub struct Envelope {
    pub origin: String,
    pub timestamp: i64,
    pub kind: MessageKind,
    pub payload: Payload,
}

/// A payload as a mathematical value.
pub enum PayloadView {
    PageChange { src: u8, dst: u8 },
    PlaybackChange { source: u8, name: Seq<char>, started: bool },
    SongChange { raw: Seq<char>, title: Seq<char>, artist: Seq<char>, album: Seq<char> },
}

/// An envelope as a mathematical value.
pub struct EnvelopeView {
    pub origin: Seq<char>,
    pub timestamp: i64,
    pub kind: MessageKind,
    pub payload: PayloadView,
}

impl View for Payload {
    type V = PayloadView;

    open spec fn view(&self) -> PayloadView {
        match *self {
            Payload::PageChange(p) => PayloadView::PageChange { src: p.src, dst: p.dst },
            Payload::PlaybackChange(p) => PayloadView::PlaybackChange {
                source: p.source,
                name: p.name@,
                started: p.started,
            },
            Payload::SongChange(p) => PayloadView::SongChange {
                raw: p.raw@,
                title: p.title@,
                artist: p.artist@,
                album: p.album@,
            },
        }
    }
}

impl View for Envelope {
    type V = EnvelopeView;

    open spec fn view(&self) -> EnvelopeView {
        EnvelopeView {
            origin: self.origin@,
            timestamp: self.timestamp,
            kind: self.kind,
            payload: self.payload@,
        }
    }
}

impl PayloadView {
    /// The kind of message that this payload belongs to.
    pub open spec fn kind(self) -> MessageKind {
        match self {
            PayloadView::PageChange { .. } => MessageKind::PageChange,
            PayloadView::PlaybackChange { .. } => MessageKind::PlaybackChange,
            PayloadView::SongChange { .. } => MessageKind::SongChange,
        }
    }

    /// Whether each text of the payload is short enough to be written.
    pub open spec fn fits(self) -> bool {
        match self {
            PayloadView::PageChange { .. } => true,
            PayloadView::PlaybackChange { name, .. } => text_fits(name),
            PayloadView::SongChange { raw, title, artist, album } => text_fits(raw) && text_fits(
                title,
            ) && text_fits(artist) && text_fits(album),
        }
    }

    /// The bytes of the payload: its code, then its fields.
    pub open spec fn bytes(self) -> Seq<u8> {
        match self {
            PayloadView::PageChange { src, dst } => seq![0u8, src, dst],
            PayloadView::PlaybackChange { source, name, started } => seq![1u8, source]
                + text_bytes(name) + seq![flag_byte(started)],
            PayloadView::SongChange { raw, title, artist, album } => seq![2u8] + text_bytes(raw)
                + text_bytes(title) + text_bytes(artist) + text_bytes(album),
        }
    }
}

impl EnvelopeView {
    /// Whether each text of the envelope is short enough to be written.
    pub open spec fn fits(self) -> bool {
        text_fits(self.origin) && self.payload.fits()
    }

    /// The bytes of the envelope.
    pub open spec fn bytes(self) -> Seq<u8> {
        seq![self.kind.code_spec()] + i64_bytes(self.timestamp) + text_bytes(self.origin)
            + self.payload.bytes()
    }
}

/// The byte that stands for a boolean.
pub open spec fn flag_byte(flag: bool) -> u8 {
    if flag {
        1
    } else {
        0
    }
}

/// The length of the shortest envelope: one with an empty origin and a page
/// change.
pub const MIN_ENVELOPE_LEN: usize = 16;

/// Reads a payload from bytes that hold it and nothing else.
pub open spec fn parse_payload(bytes: Seq<u8>) -> Result<PayloadView, DecodeError> {
    if bytes.len() < 1 {
        Err(DecodeError::Truncated)
    } else if bytes[0] == 0 {
        if bytes.len() < 3 {
            Err(DecodeError::Truncated)
        } else if bytes.len() > 3 {
            Err(DecodeError::TrailingBytes)
        } else {
            Ok(PayloadView::PageChange { src: bytes[1], dst: bytes[2] })
        }
    } else if bytes[0] == 1 {
        if bytes.len() < 2 {
            Err(DecodeError::Truncated)
        } else {
            match parse_text(bytes.skip(2)) {
                Err(e) => Err(e),
                Ok((name, rest)) => if rest.len() < 1 {
                    Err(DecodeError::Truncated)
                } else if rest[0] > 1 {
                    Err(DecodeError::InvalidFlag(rest[0]))
                } else if rest.len() > 1 {
                    Err(DecodeError::TrailingBytes)
                } else {
                    Ok(PayloadView::PlaybackChange { source: bytes[1], name, started: rest[0] == 1 })
                },
            }
        }
    } else if bytes[0] == 2 {
        match parse_text(bytes.skip(1)) {
            Err(e) => Err(e),
            Ok((raw, after_raw)) => match parse_text(after_raw) {
                Err(e) => Err(e),
                Ok((title, after_title)) => match parse_text(after_title) {
                    Err(e) => Err(e),
                    Ok((artist, after_artist)) => match parse_text(after_artist) {
                        Err(e) => Err(e),
                        Ok((album, rest)) => if rest.len() > 0 {
                            Err(DecodeError::TrailingBytes)
                        } else {
                            Ok(PayloadView::SongChange { raw, title, artist, album })
                        },
                    },
                },
            },
        }
    } else {
        Err(DecodeError::UnknownPayload(bytes[0]))
    }
}

/// Reads an envelope from a buffer: the envelope that the buffer holds, or
/// the first thing that is wrong with the buffer.
pub open spec fn parse_envelope(bytes: Seq<u8>) -> Result<EnvelopeView, DecodeError> {
    if bytes.len() < MIN_ENVELOPE_LEN {
        Err(DecodeError::Truncated)
    } else {
        match MessageKind::from_code_spec(bytes[0]) {
            None => Err(DecodeError::UnknownKind(bytes[0])),
            Some(kind) => match parse_text(bytes.skip(9)) {
                Err(e) => Err(e),
                Ok((origin, rest)) => match parse_payload(rest) {
                    Err(e) => Err(e),
                    Ok(payload) => Ok(
                        EnvelopeView {
                            origin,
                            timestamp: i64_of(bytes.subrange(1, 9)),
                            kind,
                            payload,
                        },
                    ),
                },
            },
        }
    }
}

/// A payload that was written is read back unchanged.
pub proof fn payload_round_trip(payload: PayloadView)
    requires
        payload.fits(),
    ensures
        parse_payload(payload.bytes()) == Ok::<_, DecodeError>(payload),
{
    let bytes = payload.bytes();
    match payload {
        PayloadView::PageChange { .. } => {},
        PayloadView::PlaybackChange { source, name, started } => {
            let tail = seq![flag_byte(started)];
            assert(bytes.skip(2) =~= text_bytes(name) + tail);
            text_round_trip(name, tail);
        },
        PayloadView::SongChange { raw, title, artist, album } => {
            let after_album = Seq::<u8>::empty();
            let after_artist = text_bytes(album) + after_album;
            let after_title = text_bytes(artist) + after_artist;
            let after_raw = text_bytes(title) + after_title;
            assert(bytes.skip(1) =~= text_bytes(raw) + after_raw);
            text_round_trip(raw, after_raw);
            text_round_trip(title, after_title);
            text_round_trip(artist, after_artist);
            text_round_trip(album, after_album);
        },
    }
}

/// What was read as a payload is written as the bytes it was read from.
pub proof fn payload_is_canonical(bytes: Seq<u8>)
    requires
        parse_payload(bytes) is Ok,
    ensures
        parse_payload(bytes)->Ok_0.fits(),
        parse_payload(bytes)->Ok_0.bytes() == bytes,
{
    let payload = parse_payload(bytes)->Ok_0;
    if bytes[0] == 0 {
        assert(payload.bytes() =~= bytes);
    } else if bytes[0] == 1 {
        text_is_canonical(bytes.skip(2));
        let rest = parse_text(bytes.skip(2))->Ok_0.1;
        assert(rest =~= seq![flag_byte(rest[0] == 1)]);
        assert(bytes =~= seq![1u8, bytes[1]] + bytes.skip(2));
        assert(payload.bytes() =~= bytes);
    } else {
        let after_raw = parse_text(bytes.skip(1))->Ok_0.1;
        let after_title = parse_text(after_raw)->Ok_0.1;
        let after_artist = parse_text(after_title)->Ok_0.1;
        let rest = parse_text(after_artist)->Ok_0.1;
        text_is_canonical(bytes.skip(1));
        text_is_canonical(after_raw);
        text_is_canonical(after_title);
        text_is_canonical(after_artist);
        assert(rest =~= Seq::<u8>::empty());
        assert(bytes =~= seq![2u8] + bytes.skip(1));
        assert(payload.bytes() =~= bytes);
    }
}

/// No envelope is shorter than `MIN_ENVELOPE_LEN`.
pub proof fn envelope_bytes_len(envelope: EnvelopeView)
    ensures
        envelope.bytes().len() >= MIN_ENVELOPE_LEN,
{
    i64_round_trip(envelope.timestamp, Seq::empty());
    text_bytes_len(envelope.origin);
    match envelope.payload {
        PayloadView::PageChange { .. } => {},
        PayloadView::PlaybackChange { name, .. } => {
            text_bytes_len(name);
        },
        PayloadView::SongChange { raw, title, artist, album } => {
            text_bytes_len(raw);
            text_bytes_len(title);
            text_bytes_len(artist);
            text_bytes_len(album);
        },
    }
}

/// Round trip: an envelope that was written is read back unchanged, whatever
/// its kind and whatever its fields hold.
pub proof fn envelope_round_trip(envelope: EnvelopeView)
    requires
        envelope.fits(),
    ensures
        parse_envelope(envelope.bytes()) == Ok::<_, DecodeError>(envelope),
{
    let bytes = envelope.bytes();
    let tail = envelope.payload.bytes();
    i64_round_trip(envelope.timestamp, Seq::empty());
    assert(bytes.subrange(1, 9) =~= i64_bytes(envelope.timestamp));
    assert(bytes.skip(9) =~= text_bytes(envelope.origin) + tail);
    text_round_trip(envelope.origin, tail);
    payload_round_trip(envelope.payload);
    envelope_bytes_len(envelope);
}

/// The decoder accepts only what the encoder writes: a buffer that holds an
/// envelope is, byte for byte, that envelope written out.
pub proof fn envelope_is_canonical(bytes: Seq<u8>)
    requires
        parse_envelope(bytes) is Ok,
    ensures
        parse_envelope(bytes)->Ok_0.fits(),
        parse_envelope(bytes)->Ok_0.bytes() == bytes,
{
    let envelope = parse_envelope(bytes)->Ok_0;
    let rest = parse_text(bytes.skip(9))->Ok_0.1;
    text_is_canonical(bytes.skip(9));
    payload_is_canonical(rest);
    i64_round_trip(0, bytes.subrange(1, 9));
    assert(bytes =~= seq![bytes[0]] + bytes.subrange(1, 9) + bytes.skip(9));
    assert(envelope.bytes() =~= bytes);
}

/// A buffer shorter than the shortest envelope is rejected as truncated.
pub proof fn short_buffer_is_rejected(bytes: Seq<u8>)
    requires
        bytes.len() < MIN_ENVELOPE_LEN,
    ensures
        parse_envelope(bytes) == Err::<EnvelopeView, _>(DecodeError::Truncated),
{
}

/// A buffer whose kind byte lies outside the closed set is rejected, and so
/// is one whose payload code does.
pub proof fn unknown_code_is_rejected(bytes: Seq<u8>)
    ensures
        bytes.len() >= MIN_ENVELOPE_LEN && bytes[0] > 2 ==> parse_envelope(bytes) == Err::<
            EnvelopeView,
            _,
        >(DecodeError::UnknownKind(bytes[0])),
        bytes.len() >= 1 && bytes[0] > 2 ==> parse_payload(bytes) == Err::<PayloadView, _>(
            DecodeError::UnknownPayload(bytes[0]),
        ),
{
}

impl Payload {
    /// The kind of message that this payload belongs to.
    pub fn kind(&self) -> (kind: MessageKind)
        ensures
            kind == self@.kind(),
    {
        match self {
            Payload::PageChange(_) => MessageKind::PageChange,
            Payload::PlaybackChange(_) => MessageKind::PlaybackChange,
            Payload::SongChange(_) => MessageKind::SongChange,
        }
    }

    /// Whether each text of the payload is short enough to be written.
    pub fn fits(&self) -> (r: bool)
        ensures
            r == self@.fits(),
    {
        match self {
            Payload::PageChange(_) => true,
            Payload::PlaybackChange(p) => fits(p.name.as_str()),
            Payload::SongChange(p) => fits(p.raw.as_str()) && fits(p.title.as_str()) && fits(
                p.artist.as_str(),
            ) && fits(p.album.as_str()),
        }
    }
}

impl Envelope {
    /// The page change that the envelope carries, if it carries one.
    pub fn payload_as_page_change(&self) -> (r: Option<&RawPageChange>)
        ensures
            match r {
                Some(p) => self.payload == Payload::PageChange(*p),
                None => !(self.payload is PageChange),
            },
    {
        match &self.payload {
            Payload::PageChange(p) => Some(p),
            _ => None,
        }
    }

    /// The playback change that the envelope carries, if it carries one.
    pub fn payload_as_playback_change(&self) -> (r: Option<&RawPlaybackChange>)
        ensures
            match r {
                Some(p) => self.payload == Payload::PlaybackChange(*p),
                None => !(self.payload is PlaybackChange),
            },
    {
        match &self.payload {
            Payload::PlaybackChange(p) => Some(p),
            _ => None,
        }
    }

    /// The song change that the envelope carries, if it carries one.
    pub fn payload_as_playback_song_change(&self) -> (r: Option<&RawSongChange>)
        ensures
            match r {
                Some(p) => self.payload == Payload::SongChange(*p),
                None => !(self.payload is SongChange),
            },
    {
        match &self.payload {
            Payload::SongChange(p) => Some(p),
            _ => None,
        }
    }
}

/// Reads the payload that fills the buffer from `at` to its end.
fn decode_payload(buf: &[u8], at: usize) -> (r: Result<Payload, DecodeError>)
    requires
        at <= buf@.len(),
    ensures
        match r {
            Ok(payload) => parse_payload(buf@.skip(at as int)) == Ok::<_, DecodeError>(payload@),
            Err(e) => parse_payload(buf@.skip(at as int)) == Err::<PayloadView, _>(e),
        },
{
    let ghost bytes = buf@.skip(at as int);
    let len = buf.len();
    if len - at < 1 {
        return Err(DecodeError::Truncated);
    }
    let code = buf[at];
    if code == 0 {
        if len - at < 3 {
            Err(DecodeError::Truncated)
        } else if len - at > 3 {
            Err(DecodeError::TrailingBytes)
        } else {
            Ok(Payload::PageChange(RawPageChange { src: buf[at + 1], dst: buf[at + 2] }))
        }
    } else if code == 1 {
        if len - at < 2 {
            return Err(DecodeError::Truncated);
        }
        let source = buf[at + 1];
        assert(bytes.skip(2) =~= buf@.skip(at + 2));
        match get_text(buf, at + 2) {
            Err(e) => Err(e),
            Ok((name, next)) => {
                if len - next < 1 {
                    Err(DecodeError::Truncated)
                } else {
                    let flag = buf[next];
                    if flag > 1 {
                        Err(DecodeError::InvalidFlag(flag))
                    } else if len - next > 1 {
                        Err(DecodeError::TrailingBytes)
                    } else {
                        Ok(
                            Payload::PlaybackChange(
                                RawPlaybackChange { source, name, started: flag == 1 },
                            ),
                        )
                    }
                }
            },
        }
    } else if code == 2 {
        assert(bytes.skip(1) =~= buf@.skip(at + 1));
        let (raw, after_raw) = match get_text(buf, at + 1) {
            Err(e) => { return Err(e); },
            Ok(found) => found,
        };
        let (title, after_title) = match get_text(buf, after_raw) {
            Err(e) => { return Err(e); },
            Ok(found) => found,
        };
        let (artist, after_artist) = match get_text(buf, after_title) {
            Err(e) => { return Err(e); },
            Ok(found) => found,
        };
        let (album, end) = match get_text(buf, after_artist) {
            Err(e) => { return Err(e); },
            Ok(found) => found,
        };
        if len - end > 0 {
            Err(DecodeError::TrailingBytes)
        } else {
            Ok(Payload::SongChange(RawSongChange { raw, title, artist, album }))
        }
    } else {
        Err(DecodeError::UnknownPayload(code))
    }
}

/// Decodes a buffer into the envelope it holds.
///
/// The buffer is accepted exactly when it is an envelope written out in the
/// layout of this module; otherwise the error names the first thing that is
/// wrong with it. Whether the payload is the one that the kind announces is
/// not checked here: the envelope holds both as they came.
pub fn decode(buffer: &[u8]) -> (r: Result<Envelope, DecodeError>)
    ensures
        match r {
            Ok(envelope) => parse_envelope(buffer@) == Ok::<_, DecodeError>(envelope@),
            Err(e) => parse_envelope(buffer@) == Err::<EnvelopeView, _>(e),
        },
{
    if buffer.len() < MIN_ENVELOPE_LEN {
        return Err(DecodeError::Truncated);
    }
    let kind = match MessageKind::from_code(buffer[0]) {
        None => { return Err(DecodeError::UnknownKind(buffer[0])); },
        Some(kind) => kind,
    };
    let timestamp = get_i64(buffer, 1);
    match get_text(buffer, 9) {
        Err(e) => Err(e),
        Ok((origin, at)) => match decode_payload(buffer, at) {
            Err(e) => Err(e),
            Ok(payload) => Ok(Envelope { origin, timestamp, kind, payload }),
        },
    }
}

/// Writes an envelope out; `None` if one of its texts is longer than a text
/// field can say.
pub fn encode(envelope: &Envelope) -> (r: Option<Vec<u8>>)
    ensures
        match r {
            Some(bytes) => envelope@.fits() && bytes@ == envelope@.bytes(),
            None => !envelope@.fits(),
        },
{
    if !fits(envelope.origin.as_str()) || !envelope.payload.fits() {
        return None;
    }
    let mut out: Vec<u8> = Vec::new();
    out.push(envelope.kind.code());
    put_i64(&mut out, envelope.timestamp);
    put_text(&mut out, envelope.origin.as_str());
    let ghost head = out@;
    match &envelope.payload {
        Payload::PageChange(p) => {
            out.push(0);
            out.push(p.src);
            out.push(p.dst);
        },
        Payload::PlaybackChange(p) => {
            out.push(1);
            out.push(p.source);
            put_text(&mut out, p.name.as_str());
            out.push(if p.started { 1 } else { 0 });
        },
        Payload::SongChange(p) => {
            out.push(2);
            put_text(&mut out, p.raw.as_str());
            put_text(&mut out, p.title.as_str());
            put_text(&mut out, p.artist.as_str());
            put_text(&mut out, p.album.as_str());
        },
    }
    assert(out@ =~= head + envelope@.payload.bytes());
    assert(head =~= seq![envelope.kind.code_spec()] + i64_bytes(envelope.timestamp) + text_bytes(
        envelope.origin@,
    ));
    Some(out)
}

} // verus!
