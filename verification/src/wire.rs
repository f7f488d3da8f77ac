//! The fields that an envelope is made of: fixed-width integers in
//! little-endian order and length-prefixed UTF-8 text.

use vstd::prelude::*;
use vstd::slice::slice_subrange;
use vstd::string::StringSliceAdditionalSpecFns;
use vstd::utf8::*;

verus! {

/// Why a buffer is not an envelope, or an envelope not a message.
#[derive(Clone, Copy, Debug, PartialEq, Eq, Structural)]
pub enum DecodeError {
    /// The buffer ends before the field that is being read does.
    Truncated,
    /// Bytes follow the payload.
    TrailingBytes,
    /// A text field is not valid UTF-8.
    InvalidText,
    /// A boolean field holds a byte other than 0 and 1.
    InvalidFlag(u8),
    /// The kind byte names no message kind.
    UnknownKind(u8),
    /// The byte in front of the payload names no payload.
    UnknownPayload(u8),
    /// A code inside the payload lies outside its closed set.
    UnknownEnumValue(u8),
    /// The payload in the buffer is not the one that the kind announces.
    PayloadMismatch,
}

impl DecodeError {
    /// What the error says, in words.
    pub open spec fn text(self) -> Seq<char> {
        match self {
            DecodeError::Truncated => "the buffer ends too early"@,
            DecodeError::TrailingBytes => "bytes follow the payload"@,
            DecodeError::InvalidText => "a text is not valid UTF-8"@,
            DecodeError::InvalidFlag(_) => "a flag is neither 0 nor 1"@,
            DecodeError::UnknownKind(_) => "unknown message kind"@,
            DecodeError::UnknownPayload(_) => "unknown payload kind"@,
            DecodeError::UnknownEnumValue(_) => "unknown code in the payload"@,
            DecodeError::PayloadMismatch => "the payload is not of the announced kind"@,
        }
    }

    /// What the error says, in words.
    pub fn describe(self) -> (text: &'static str)
        ensures
            text@ == self.text(),
    {
        match self {
            DecodeError::Truncated => "the buffer ends too early",
            DecodeError::TrailingBytes => "bytes follow the payload",
            DecodeError::InvalidText => "a text is not valid UTF-8",
            DecodeError::InvalidFlag(_) => "a flag is neither 0 nor 1",
            DecodeError::UnknownKind(_) => "unknown message kind",
            DecodeError::UnknownPayload(_) => "unknown payload kind",
            DecodeError::UnknownEnumValue(_) => "unknown code in the payload",
            DecodeError::PayloadMismatch => "the payload is not of the announced kind",
        }
    }
}

/// The unsigned number that four bytes hold, least significant byte first.
#[verifier::opaque]
pub open spec fn u32_of(bytes: Seq<u8>) -> nat
    recommends
        bytes.len() == 4,
{
    (bytes[0] as nat) + 256 * ((bytes[1] as nat) + 256 * ((bytes[2] as nat) + 256 * (
    bytes[3] as nat)))
}

/// The four bytes of an unsigned number below 2^32, least significant first.
#[verifier::opaque]
pub open spec fn u32_bytes(value: nat) -> Seq<u8>
    recommends
        value <= 0xffff_ffff,
{
    seq![
        (value % 256) as u8,
        (value / 256 % 256) as u8,
        (value / 256 / 256 % 256) as u8,
        (value / 256 / 256 / 256 % 256) as u8,
    ]
}

/// The unsigned number that eight bytes hold, least significant byte first.
pub open spec fn u64_of(bytes: Seq<u8>) -> nat
    recommends
        bytes.len() == 8,
{
    u32_of(bytes.subrange(0, 4)) + 0x1_0000_0000 * u32_of(bytes.subrange(4, 8))
}

/// The eight bytes of an unsigned number below 2^64, least significant first.
pub open spec fn u64_bytes(value: nat) -> Seq<u8>
    recommends
        value <= 0xffff_ffff_ffff_ffff,
{
    u32_bytes(value % 0x1_0000_0000) + u32_bytes(value / 0x1_0000_0000)
}

/// The two's complement of a signed 64-bit number, as an unsigned one.
pub open spec fn i64_bits(value: i64) -> nat {
    if value >= 0 {
        value as nat
    } else {
        (value + 0x1_0000_0000_0000_0000) as nat
    }
}

/// The signed number whose two's complement is `bits`.
pub open spec fn i64_of_bits(bits: nat) -> i64
    recommends
        bits <= 0xffff_ffff_ffff_ffff,
{
    if bits < 0x8000_0000_0000_0000 {
        bits as i64
    } else {
        (bits - 0x1_0000_0000_0000_0000) as i64
    }
}

/// The eight bytes of a timestamp: its two's complement, least significant
/// byte first.
pub open spec fn i64_bytes(value: i64) -> Seq<u8> {
    u64_bytes(i64_bits(value))
}

/// The timestamp that eight bytes hold.
pub open spec fn i64_of(bytes: Seq<u8>) -> i64
    recommends
        bytes.len() == 8,
{
    i64_of_bits(u64_of(bytes))
}

/// Four bytes and the number they hold determine each other.
pub proof fn u32_round_trip(value: nat, bytes: Seq<u8>)
    ensures
        u32_bytes(value).len() == 4,
        value <= 0xffff_ffff ==> u32_of(u32_bytes(value)) == value,
        bytes.len() == 4 ==> u32_of(bytes) <= 0xffff_ffff && u32_bytes(u32_of(bytes)) == bytes,
{
    reveal(u32_of);
    reveal(u32_bytes);
    if value <= 0xffff_ffff {
        let q1 = value / 256;
        let q2 = q1 / 256;
        let q3 = q2 / 256;
        assert(q3 < 256);
        assert(u32_of(u32_bytes(value)) == value % 256 + 256 * (q1 % 256 + 256 * (q2 % 256 + 256
            * (q3 % 256))));
    }
    if bytes.len() == 4 {
        let v = u32_of(bytes);
        let r1 = (bytes[1] as nat) + 256 * ((bytes[2] as nat) + 256 * (bytes[3] as nat));
        let r2 = (bytes[2] as nat) + 256 * (bytes[3] as nat);
        let r3 = bytes[3] as nat;
        assert(v == (bytes[0] as nat) + 256 * r1);
        assert(v % 256 == bytes[0] as nat && v / 256 == r1);
        assert(r1 % 256 == bytes[1] as nat && r1 / 256 == r2);
        assert(r2 % 256 == bytes[2] as nat && r2 / 256 == r3);
        assert(u32_bytes(v) =~= bytes);
    }
}

/// Eight bytes and the number they hold determine each other.
pub proof fn u64_round_trip(value: nat, bytes: Seq<u8>)
    ensures
        u64_bytes(value).len() == 8,
        value <= 0xffff_ffff_ffff_ffff ==> u64_of(u64_bytes(value)) == value,
        bytes.len() == 8 ==> u64_of(bytes) <= 0xffff_ffff_ffff_ffff && u64_bytes(u64_of(bytes))
            == bytes,
{
    let low = value % 0x1_0000_0000;
    let high = value / 0x1_0000_0000;
    u32_round_trip(low, bytes.subrange(0, 4));
    u32_round_trip(high, bytes.subrange(4, 8));
    assert(u64_bytes(value).subrange(0, 4) =~= u32_bytes(low));
    assert(u64_bytes(value).subrange(4, 8) =~= u32_bytes(high));
    if bytes.len() == 8 {
        let v = u64_of(bytes);
        assert(v % 0x1_0000_0000 == u32_of(bytes.subrange(0, 4)));
        assert(v / 0x1_0000_0000 == u32_of(bytes.subrange(4, 8)));
        assert(u64_bytes(v) =~= bytes.subrange(0, 4) + bytes.subrange(4, 8));
        assert(bytes.subrange(0, 4) + bytes.subrange(4, 8) =~= bytes);
    }
}

/// Eight bytes and the timestamp they hold determine each other.
pub proof fn i64_round_trip(value: i64, bytes: Seq<u8>)
    ensures
        i64_bytes(value).len() == 8,
        i64_of(i64_bytes(value)) == value,
        bytes.len() == 8 ==> i64_bytes(i64_of(bytes)) == bytes,
{
    u64_round_trip(i64_bits(value), bytes);
}

/// Appends the four bytes of `value`.
pub fn put_u32(out: &mut Vec<u8>, value: u32)
    ensures
        final(out)@ == old(out)@ + u32_bytes(value as nat),
{
    reveal(u32_bytes);
    let q1: u32 = value / 256;
    let q2: u32 = q1 / 256;
    let q3: u32 = q2 / 256;
    out.push((value % 256) as u8);
    out.push((q1 % 256) as u8);
    out.push((q2 % 256) as u8);
    out.push((q3 % 256) as u8);
    assert(out@ =~= old(out)@ + u32_bytes(value as nat));
}

/// Reads the number in the four bytes that start at `at`.
pub fn get_u32(buf: &[u8], at: usize) -> (value: u32)
    requires
        at + 4 <= buf@.len(),
    ensures
        value == u32_of(buf@.subrange(at as int, at + 4)),
{
    reveal(u32_of);
    let b0: u32 = buf[at] as u32;
    let b1: u32 = buf[at + 1] as u32;
    let b2: u32 = buf[at + 2] as u32;
    let b3: u32 = buf[at + 3] as u32;
    b0 + 256 * (b1 + 256 * (b2 + 256 * b3))
}

/// Appends the eight bytes of a timestamp.
pub fn put_i64(out: &mut Vec<u8>, value: i64)
    ensures
        final(out)@ == old(out)@ + i64_bytes(value),
{
    let bits: u64 = if value >= 0 {
        value as u64
    } else {
        (value - i64::MIN) as u64 + 0x8000_0000_0000_0000u64
    };
    assert(bits == i64_bits(value));
    let low: u32 = (bits % 0x1_0000_0000) as u32;
    let high: u32 = (bits / 0x1_0000_0000) as u32;
    put_u32(out, low);
    put_u32(out, high);
    assert(out@ =~= old(out)@ + i64_bytes(value));
}

/// Reads the timestamp in the eight bytes that start at `at`.
pub fn get_i64(buf: &[u8], at: usize) -> (value: i64)
    requires
        at + 8 <= buf@.len(),
    ensures
        value == i64_of(buf@.subrange(at as int, at + 8)),
{
    assert(buf.len() <= usize::MAX);
    let low: u64 = get_u32(buf, at) as u64;
    let high: u64 = get_u32(buf, at + 4) as u64;
    proof {
        let bytes = buf@.subrange(at as int, at + 8);
        assert(bytes.subrange(0, 4) =~= buf@.subrange(at as int, at + 4));
        assert(bytes.subrange(4, 8) =~= buf@.subrange(at + 4, at + 8));
        u32_round_trip(0, bytes.subrange(0, 4));
        u32_round_trip(0, bytes.subrange(4, 8));
    }
    let bits: u64 = low + 0x1_0000_0000 * high;
    if bits < 0x8000_0000_0000_0000u64 {
        bits as i64
    } else {
        (bits - 0x8000_0000_0000_0000u64) as i64 + i64::MIN
    }
}

/// Whether a text is short enough for its length to be written in four bytes.
pub open spec fn text_fits(text: Seq<char>) -> bool {
    encode_utf8(text).len() <= 0xffff_ffff
}

/// The bytes of a text field: the length of the UTF-8 encoding in four bytes,
/// then the encoding.
#[verifier::opaque]
pub open spec fn text_bytes(text: Seq<char>) -> Seq<u8> {
    u32_bytes(encode_utf8(text).len()) + encode_utf8(text)
}

/// Reads a text field from the front of `bytes`: the text and the bytes that
/// follow it.
#[verifier::opaque]
pub open spec fn parse_text(bytes: Seq<u8>) -> Result<(Seq<char>, Seq<u8>), DecodeError> {
    if bytes.len() < 4 {
        Err(DecodeError::Truncated)
    } else {
        let end = 4 + u32_of(bytes.subrange(0, 4));
        if bytes.len() < end {
            Err(DecodeError::Truncated)
        } else if !valid_utf8(bytes.subrange(4, end as int)) {
            Err(DecodeError::InvalidText)
        } else {
            Ok((decode_utf8(bytes.subrange(4, end as int)), bytes.skip(end as int)))
        }
    }
}

/// A text field takes at least the four bytes of its length.
pub proof fn text_bytes_len(text: Seq<char>)
    ensures
        text_bytes(text).len() == 4 + encode_utf8(text).len(),
{
    reveal(text_bytes);
    u32_round_trip(encode_utf8(text).len(), Seq::empty());
}

/// A text field that was written is read back, with what follows it.
pub proof fn text_round_trip(text: Seq<char>, rest: Seq<u8>)
    requires
        text_fits(text),
    ensures
        parse_text(text_bytes(text) + rest) == Ok::<_, DecodeError>((text, rest)),
{
    reveal(text_bytes);
    reveal(parse_text);
    let body = encode_utf8(text);
    let bytes = text_bytes(text) + rest;
    u32_round_trip(body.len(), Seq::empty());
    assert(bytes.subrange(0, 4) =~= u32_bytes(body.len()));
    assert(bytes.subrange(4, 4 + body.len() as int) =~= body);
    assert(bytes.skip(4 + body.len() as int) =~= rest);
    encode_utf8_valid_utf8(text);
    encode_utf8_decode_utf8(text);
}

/// What was read as a text field is the field of the text that came out.
pub proof fn text_is_canonical(bytes: Seq<u8>)
    requires
        parse_text(bytes) is Ok,
    ensures
        text_fits(parse_text(bytes)->Ok_0.0),
        bytes == text_bytes(parse_text(bytes)->Ok_0.0) + parse_text(bytes)->Ok_0.1,
{
    reveal(text_bytes);
    reveal(parse_text);
    let head = bytes.subrange(0, 4);
    let end = 4 + u32_of(head);
    let body = bytes.subrange(4, end as int);
    u32_round_trip(0, head);
    decode_utf8_encode_utf8(body);
    assert(bytes =~= head + body + bytes.skip(end as int));
}

/// The error of `core::str::from_utf8`, carried through unread.
#[verifier::external_type_specification]
#[verifier::external_body]
pub struct ExUtf8Error(core::str::Utf8Error);

/// `core::str::from_utf8`: the bytes are accepted exactly when they are valid
/// UTF-8, and the string slice that comes back is made of those bytes.
pub assume_specification[ core::str::from_utf8 ](v: &[u8]) -> (r: Result<
    &str,
    core::str::Utf8Error,
>)
    ensures
        r is Ok <==> valid_utf8(v@),
        r is Ok ==> r->Ok_0.spec_bytes() == v@,
;

/// Whether `text` is short enough to be written as a text field.
pub fn fits(text: &str) -> (r: bool)
    ensures
        r == text_fits(text@),
{
    text.as_bytes().len() <= 0xffff_ffff
}

/// Appends a text field.
pub fn put_text(out: &mut Vec<u8>, text: &str)
    requires
        text_fits(text@),
    ensures
        final(out)@ == old(out)@ + text_bytes(text@),
{
    reveal(text_bytes);
    let body = text.as_bytes();
    put_u32(out, body.len() as u32);
    out.extend_from_slice(body);
    assert(out@ =~= old(out)@ + text_bytes(text@));
}

/// Reads the text field that starts at `at`: the text and the place where
/// the next field starts.
pub fn get_text(buf: &[u8], at: usize) -> (r: Result<(String, usize), DecodeError>)
    requires
        at <= buf@.len(),
    ensures
        match r {
            Ok((text, next)) => at <= next <= buf@.len() && parse_text(buf@.skip(at as int)) == Ok::<
                _,
                DecodeError,
            >((text@, buf@.skip(next as int))),
            Err(e) => parse_text(buf@.skip(at as int)) == Err::<(Seq<char>, Seq<u8>), _>(e),
        },
{
    reveal(parse_text);
    let ghost bytes = buf@.skip(at as int);
    if buf.len() - at < 4 {
        return Err(DecodeError::Truncated);
    }
    let n = get_u32(buf, at) as usize;
    assert(bytes.subrange(0, 4) =~= buf@.subrange(at as int, at + 4));
    if buf.len() - at - 4 < n {
        return Err(DecodeError::Truncated);
    }
    let body = slice_subrange(buf, at + 4, at + 4 + n);
    assert(bytes.subrange(4, 4 + n) =~= body@);
    assert(bytes.skip(4 + n) =~= buf@.skip(at + 4 + n));
    match core::str::from_utf8(body) {
        Ok(text) => {
            proof {
                encode_utf8_decode_utf8(text@);
            }
            Ok((text.to_owned(), at + 4 + n))
        },
        Err(_) => Err(DecodeError::InvalidText),
    }
}

} // verus!
