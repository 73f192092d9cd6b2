//! The encoding of numbers, flags and texts on the wire.
//!
//! Numbers travel in the variable-length form of bincode's standard
//! configuration: a number up to 250 is one byte; a larger one is a marker
//! byte (251, 252 or 253) followed by 2, 4 or 8 bytes, least significant
//! first. bincode writes and reads the numbers; the narrower fields, flags,
//! optional values and texts are put together from them here.

use vstd::prelude::*;
use vstd::slice::slice_subrange;
use vstd::utf8::{decode_utf8, encode_utf8, valid_utf8};
use bincode::error::EncodeError;

verus! {

/// Why bytes could not be read as a message.
#[derive(Clone, Copy, Debug, PartialEq, Eq, Structural)]
pub enum DecodeError {
    /// The bytes end before the value does.
    UnexpectedEnd,
    /// A number is written wider than its field.
    InvalidIntegerType,
    /// The tag names no variant; the payload is the tag.
    UnexpectedVariant(u32),
    /// A flag is neither 0 nor 1; the payload is the byte.
    InvalidBooleanValue(u8),
    /// A text is not UTF-8.
    Utf8,
    /// Any other refusal of the decoder.
    Other,
}

/// The error with which bincode refuses to encode a value. Nothing is known
/// of what it holds.
#[verifier::external_type_specification]
#[verifier::external_body]
pub struct ExEncodeError(EncodeError);

/// The largest number that travels as a single byte.
pub const SINGLE_BYTE_MAX: u8 = 250;

/// The marker before a number of two bytes.
pub const U16_BYTE: u8 = 251;

/// The marker before a number of four bytes.
pub const U32_BYTE: u8 = 252;

/// The marker before a number of eight bytes.
pub const U64_BYTE: u8 = 253;

/// The `width` lowest bytes of `v`, least significant first.
pub open spec fn le_bytes(v: nat, width: nat) -> Seq<u8>
    decreases width,
{
    if width == 0 {
        Seq::<u8>::empty()
    } else {
        seq![(v % 256) as u8] + le_bytes(v / 256, (width - 1) as nat)
    }
}

/// The number that bytes write, least significant first.
pub open spec fn le_value(bytes: Seq<u8>) -> nat
    decreases bytes.len(),
{
    if bytes.len() == 0 {
        0
    } else {
        bytes[0] as nat + 256 * le_value(bytes.subrange(1, bytes.len() as int))
    }
}

/// The variable-length form of a number below 2^64.
pub open spec fn varint(v: nat) -> Seq<u8> {
    if v <= 250 {
        seq![v as u8]
    } else if v < 0x1_0000 {
        seq![U16_BYTE] + le_bytes(v, 2)
    } else if v < 0x1_0000_0000 {
        seq![U32_BYTE] + le_bytes(v, 4)
    } else {
        seq![U64_BYTE] + le_bytes(v, 8)
    }
}

/// The number of bytes that follow a marker, or 0 for a byte that is none
/// of the three markers.
pub open spec fn marker_width(marker: u8) -> nat {
    if marker == U16_BYTE {
        2
    } else if marker == U32_BYTE {
        4
    } else if marker == U64_BYTE {
        8
    } else {
        0
    }
}

/// Reads a number in variable-length form for a field of `widest` bytes: the
/// number and how many bytes it took, or why there is none.
pub open spec fn read_varint(bytes: Seq<u8>, widest: nat) -> Result<(nat, nat), DecodeError> {
    if bytes.len() == 0 {
        Err(DecodeError::UnexpectedEnd)
    } else if bytes[0] <= SINGLE_BYTE_MAX {
        Ok((bytes[0] as nat, 1))
    } else if marker_width(bytes[0]) == 0 || marker_width(bytes[0]) > widest {
        Err(DecodeError::InvalidIntegerType)
    } else if bytes.len() < 1 + marker_width(bytes[0]) {
        Err(DecodeError::UnexpectedEnd)
    } else {
        Ok(
            (
                le_value(bytes.subrange(1, 1 + marker_width(bytes[0]) as int)),
                1 + marker_width(bytes[0]),
            ),
        )
    }
}

/// Reads a number for a field of two bytes.
pub open spec fn read_u16(bytes: Seq<u8>) -> Result<(u16, usize), DecodeError> {
    match read_varint(bytes, 2) {
        Ok((v, n)) => Ok((v as u16, n as usize)),
        Err(e) => Err(e),
    }
}

/// Reads a number for a field of four bytes.
pub open spec fn read_u32(bytes: Seq<u8>) -> Result<(u32, usize), DecodeError> {
    match read_varint(bytes, 4) {
        Ok((v, n)) => Ok((v as u32, n as usize)),
        Err(e) => Err(e),
    }
}

/// Reads a number for a field of eight bytes.
pub open spec fn read_u64(bytes: Seq<u8>) -> Result<(u64, usize), DecodeError> {
    match read_varint(bytes, 8) {
        Ok((v, n)) => Ok((v as u64, n as usize)),
        Err(e) => Err(e),
    }
}

/// The byte of a flag.
pub open spec fn bool_bytes(flag: bool) -> Seq<u8> {
    if flag {
        seq![1u8]
    } else {
        seq![0u8]
    }
}

/// Reads a flag.
pub open spec fn read_bool(bytes: Seq<u8>) -> Result<(bool, usize), DecodeError> {
    if bytes.len() == 0 {
        Err(DecodeError::UnexpectedEnd)
    } else if bytes[0] == 0 {
        Ok((false, 1usize))
    } else if bytes[0] == 1 {
        Ok((true, 1usize))
    } else {
        Err(DecodeError::InvalidBooleanValue(bytes[0]))
    }
}

/// The bytes of an optional number: 0 for none, else 1 and the number.
pub open spec fn option_bytes(value: Option<u16>) -> Seq<u8> {
    match value {
        None => seq![0u8],
        Some(v) => seq![1u8] + varint(v as nat),
    }
}

/// Reads an optional number.
pub open spec fn read_option(bytes: Seq<u8>) -> Result<(Option<u16>, usize), DecodeError> {
    if bytes.len() == 0 {
        Err(DecodeError::UnexpectedEnd)
    } else if bytes[0] == 0 {
        Ok((None, 1usize))
    } else if bytes[0] == 1 {
        match read_u16(bytes.subrange(1, bytes.len() as int)) {
            Ok((v, n)) => Ok((Some(v), (n + 1) as usize)),
            Err(e) => Err(e),
        }
    } else {
        Err(DecodeError::UnexpectedVariant(bytes[0] as u32))
    }
}

/// The bytes of a text: the length of its UTF-8 form, then that form.
pub open spec fn text_bytes(text: Seq<char>) -> Seq<u8> {
    varint(encode_utf8(text).len()) + encode_utf8(text)
}

/// Reads a text: its characters and how many bytes it took.
pub open spec fn read_text(bytes: Seq<u8>) -> Result<(Seq<char>, nat), DecodeError> {
    match read_u64(bytes) {
        Err(e) => Err(e),
        Ok((len, n)) => if bytes.len() - n < len {
            Err(DecodeError::UnexpectedEnd)
        } else if !valid_utf8(bytes.subrange(n as int, n + len)) {
            Err(DecodeError::Utf8)
        } else {
            Ok((decode_utf8(bytes.subrange(n as int, n + len)), (n + len) as nat))
        },
    }
}

/// Calls `bincode::encode_to_vec` on a `u64` with the standard
/// configuration, which writes the number in variable-length form into a
/// fresh vector and cannot fail there.
#[verifier::external_body]
fn encode_number(v: u64) -> (r: Result<Vec<u8>, EncodeError>)
    ensures
        r is Ok,
        r->Ok_0@ == varint(v as nat),
{
    bincode::encode_to_vec(v, bincode::config::standard())
}

/// Calls `bincode::decode_from_slice` for a `u64` with the standard
/// configuration. It reads one byte, and two, four or eight more after the
/// marker 251, 252 or 253; it refuses the other markers and bytes that end
/// too early, and ignores what follows the number.
#[verifier::external_body]
fn decode_number(bytes: &[u8]) -> (r: Result<(u64, usize), DecodeError>)
    ensures
        r == read_u64(bytes@),
{
    match bincode::decode_from_slice::<u64, _>(bytes, bincode::config::standard()) {
        Ok(pair) => Ok(pair),
        Err(bincode::error::DecodeError::UnexpectedEnd { .. }) => Err(DecodeError::UnexpectedEnd),
        Err(bincode::error::DecodeError::InvalidIntegerType { .. }) => {
            Err(DecodeError::InvalidIntegerType)
        },
        Err(_) => Err(DecodeError::Other),
    }
}

/// Calls `String::from_utf8`, which hands back the text that the bytes
/// write in UTF-8, or nothing where they are not UTF-8.
#[verifier::external_body]
fn text_from_utf8(bytes: Vec<u8>) -> (r: Option<String>)
    ensures
        r is Some <==> valid_utf8(bytes@),
        r is Some ==> r->0@ == decode_utf8(bytes@),
{
    String::from_utf8(bytes).ok()
}

/// Appends a number of two bytes.
pub fn put_u16(out: &mut Vec<u8>, v: u16) -> (r: Result<(), EncodeError>)
    ensures
        r is Ok,
        final(out)@ == old(out)@ + varint(v as nat),
{
    let mut bytes = encode_number(v as u64)?;
    out.append(&mut bytes);
    Ok(())
}

/// Appends a number of four bytes.
pub fn put_u32(out: &mut Vec<u8>, v: u32) -> (r: Result<(), EncodeError>)
    ensures
        r is Ok,
        final(out)@ == old(out)@ + varint(v as nat),
{
    let mut bytes = encode_number(v as u64)?;
    out.append(&mut bytes);
    Ok(())
}

/// Appends a number of eight bytes.
pub fn put_u64(out: &mut Vec<u8>, v: u64) -> (r: Result<(), EncodeError>)
    ensures
        r is Ok,
        final(out)@ == old(out)@ + varint(v as nat),
{
    let mut bytes = encode_number(v)?;
    out.append(&mut bytes);
    Ok(())
}

/// Appends a flag.
pub fn put_bool(out: &mut Vec<u8>, flag: bool)
    ensures
        final(out)@ == old(out)@ + bool_bytes(flag),
{
    if flag {
        out.push(1u8);
    } else {
        out.push(0u8);
    }
    assert(out@ =~= old(out)@ + bool_bytes(flag));
}

/// Appends an optional number.
pub fn put_option(out: &mut Vec<u8>, value: Option<u16>) -> (r: Result<(), EncodeError>)
    ensures
        r is Ok,
        final(out)@ == old(out)@ + option_bytes(value),
{
    match value {
        None => {
            out.push(0u8);
            assert(out@ =~= old(out)@ + option_bytes(value));
            Ok(())
        },
        Some(v) => {
            out.push(1u8);
            let r = put_u16(out, v);
            assert(out@ =~= old(out)@ + option_bytes(value));
            r
        },
    }
}

/// Appends a text.
pub fn put_text(out: &mut Vec<u8>, text: &str) -> (r: Result<(), EncodeError>)
    ensures
        r is Ok,
        final(out)@ == old(out)@ + text_bytes(text@),
{
    let bytes = text.as_bytes();
    let r = put_u64(out, bytes.len() as u64);
    out.extend_from_slice(bytes);
    assert(out@ =~= old(out)@ + text_bytes(text@));
    r
}

/// Reads a number for a field of eight bytes from the start of `bytes`.
pub fn take_u64(bytes: &[u8]) -> (r: Result<(u64, usize), DecodeError>)
    ensures
        r == read_u64(bytes@),
{
    decode_number(bytes)
}

/// Reads a number for a field of four bytes from the start of `bytes`: a
/// number written wider than four bytes is refused.
pub fn take_u32(bytes: &[u8]) -> (r: Result<(u32, usize), DecodeError>)
    ensures
        r == read_u32(bytes@),
{
    if bytes.len() > 0 && bytes[0] > U32_BYTE {
        return Err(DecodeError::InvalidIntegerType);
    }
    match decode_number(bytes) {
        Ok((v, n)) => {
            proof {
                lemma_read_stays_inside(bytes@, 4);
            }
            Ok((v as u32, n))
        },
        Err(e) => Err(e),
    }
}

/// Reads a number for a field of two bytes from the start of `bytes`: a
/// number written wider than two bytes is refused.
pub fn take_u16(bytes: &[u8]) -> (r: Result<(u16, usize), DecodeError>)
    ensures
        r == read_u16(bytes@),
{
    if bytes.len() > 0 && bytes[0] > U16_BYTE {
        return Err(DecodeError::InvalidIntegerType);
    }
    match decode_number(bytes) {
        Ok((v, n)) => {
            proof {
                lemma_read_stays_inside(bytes@, 2);
            }
            Ok((v as u16, n))
        },
        Err(e) => Err(e),
    }
}

/// Reads a flag from the start of `bytes`.
pub fn take_bool(bytes: &[u8]) -> (r: Result<(bool, usize), DecodeError>)
    ensures
        r == read_bool(bytes@),
{
    if bytes.len() == 0 {
        Err(DecodeError::UnexpectedEnd)
    } else if bytes[0] == 0 {
        Ok((false, 1))
    } else if bytes[0] == 1 {
        Ok((true, 1))
    } else {
        Err(DecodeError::InvalidBooleanValue(bytes[0]))
    }
}

/// Reads an optional number from the start of `bytes`.
pub fn take_option(bytes: &[u8]) -> (r: Result<(Option<u16>, usize), DecodeError>)
    ensures
        r == read_option(bytes@),
{
    if bytes.len() == 0 {
        Err(DecodeError::UnexpectedEnd)
    } else if bytes[0] == 0 {
        Ok((None, 1))
    } else if bytes[0] == 1 {
        match take_u16(slice_subrange(bytes, 1, bytes.len())) {
            Ok((v, n)) => {
                proof {
                    lemma_read_stays_inside(bytes@.subrange(1, bytes@.len() as int), 2);
                }
                Ok((Some(v), n + 1))
            },
            Err(e) => Err(e),
        }
    } else {
        Err(DecodeError::UnexpectedVariant(bytes[0] as u32))
    }
}

/// Reads a text from the start of `bytes`.
pub fn take_text(bytes: &[u8]) -> (r: Result<(String, usize), DecodeError>)
    ensures
        match read_text(bytes@) {
            Ok((text, n)) => r is Ok && r->Ok_0.0@ == text && r->Ok_0.1 == n,
            Err(e) => r == Err::<(String, usize), DecodeError>(e),
        },
{
    match take_u64(bytes) {
        Err(e) => Err(e),
        Ok((len, n)) => {
            proof {
                lemma_read_stays_inside(bytes@, 8);
            }
            if ((bytes.len() - n) as u64) < len {
                Err(DecodeError::UnexpectedEnd)
            } else {
                let end: usize = n + len as usize;
                let owned = vstd::slice::slice_to_vec(slice_subrange(bytes, n, end));
                match text_from_utf8(owned) {
                    Some(text) => Ok((text, end)),
                    None => Err(DecodeError::Utf8),
                }
            }
        },
    }
}

/// The bytes have the width asked for.
pub proof fn lemma_le_bytes_len(v: nat, width: nat)
    ensures
        le_bytes(v, width).len() == width,
    decreases width,
{
    if width > 0 {
        lemma_le_bytes_len(v / 256, (width - 1) as nat);
    }
}

/// A number fits into `width` bytes.
pub open spec fn fits(v: nat, width: nat) -> bool
    decreases width,
{
    if width == 0 {
        v == 0
    } else {
        fits(v / 256, (width - 1) as nat)
    }
}

/// Bytes written from a number that fits read back as that number.
pub proof fn lemma_le_round_trip(v: nat, width: nat)
    requires
        fits(v, width),
    ensures
        le_value(le_bytes(v, width)) == v,
    decreases width,
{
    if width > 0 {
        let rest = le_bytes(v / 256, (width - 1) as nat);
        let all = le_bytes(v, width);
        lemma_le_round_trip(v / 256, (width - 1) as nat);
        assert(all.subrange(1, all.len() as int) =~= rest);
        assert(all[0] == (v % 256) as u8);
    }
}

/// The variable-length form of a number is one, three, five or nine bytes long.
pub proof fn lemma_varint_len(v: nat)
    ensures
        1 <= varint(v).len() <= 9,
{
    lemma_le_bytes_len(v, 2);
    lemma_le_bytes_len(v, 4);
    lemma_le_bytes_len(v, 8);
}

/// A number written in variable-length form reads back as itself, whatever
/// follows it, in every field wide enough for it.
pub proof fn lemma_varint_round_trip(v: nat, widest: nat, tail: Seq<u8>)
    requires
        widest == 2 || widest == 4 || widest == 8,
        widest == 2 ==> v < 0x1_0000,
        widest == 4 ==> v < 0x1_0000_0000,
        widest == 8 ==> v < 0x1_0000_0000_0000_0000,
    ensures
        read_varint(varint(v) + tail, widest) == Ok::<(nat, nat), DecodeError>(
            (v, varint(v).len()),
        ),
{
    let bytes = varint(v) + tail;
    lemma_varint_len(v);
    if v <= 250 {
        assert(bytes[0] == v as u8);
    } else {
        let width: nat = if v < 0x1_0000 {
            2
        } else if v < 0x1_0000_0000 {
            4
        } else {
            8
        };
        lemma_le_bytes_len(v, width);
        assert(bytes[0] == varint(v)[0]);
        assert(bytes.subrange(1, 1 + width as int) =~= le_bytes(v, width));
        assert(fits(v, width)) by {
            reveal_with_fuel(fits, 9);
        }
        lemma_le_round_trip(v, width);
    }
}

/// Reading a number never takes more bytes than there are.
pub proof fn lemma_read_stays_inside(bytes: Seq<u8>, widest: nat)
    requires
        widest == 2 || widest == 4 || widest == 8,
    ensures
        read_varint(bytes, widest) matches Ok((v, n)) ==> 1 <= n <= bytes.len() && n <= 9 && v
            < 0x1_0000_0000_0000_0000 && (widest == 2 ==> v < 0x1_0000) && (widest == 4 ==> v
            < 0x1_0000_0000),
{
    if bytes.len() > 0 && bytes[0] > SINGLE_BYTE_MAX && marker_width(bytes[0]) > 0 && bytes.len()
        >= 1 + marker_width(bytes[0]) {
        let width = marker_width(bytes[0]);
        lemma_le_value_bound(bytes.subrange(1, 1 + width as int));
        reveal_with_fuel(space, 9);
    }
}

/// The number of values that `width` bytes can write.
pub open spec fn space(width: nat) -> nat
    decreases width,
{
    if width == 0 {
        1
    } else {
        256 * space((width - 1) as nat)
    }
}

/// Bytes write a number below the number of values they can write.
pub proof fn lemma_le_value_bound(bytes: Seq<u8>)
    ensures
        le_value(bytes) < space(bytes.len()),
    decreases bytes.len(),
{
    if bytes.len() > 0 {
        lemma_le_value_bound(bytes.subrange(1, bytes.len() as int));
    }
}

} // verus!
