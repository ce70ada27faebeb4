//! XDR primitives: the big-endian integer layout and the calls into
//! `xdr_codec` that read and write it.

use vstd::prelude::*;
use vstd::utf8::{decode_utf8, valid_utf8};
use xdr_codec::{Pack, Unpack};

verus! {

/// Number of bytes an XDR integer occupies on the wire.
pub const XDR_WORD: usize = 4;

/// The unsigned integer whose big-endian bytes are `b0 b1 b2 b3`.
pub open spec fn be_u32(b0: u8, b1: u8, b2: u8, b3: u8) -> u32 {
    (b0 as int * 0x100_0000 + b1 as int * 0x1_0000 + b2 as int * 0x100 + b3 as int) as u32
}

/// The four big-endian bytes of `v`.
pub open spec fn u32_be_bytes(v: u32) -> Seq<u8> {
    seq![
        (v as int / 0x100_0000) as u8,
        (v as int / 0x1_0000 % 0x100) as u8,
        (v as int / 0x100 % 0x100) as u8,
        (v as int % 0x100) as u8,
    ]
}

/// The unsigned integer held in the four bytes of `s` that start at `at`.
pub open spec fn u32_at(s: Seq<u8>, at: int) -> u32
    recommends
        0 <= at,
        at + 4 <= s.len(),
{
    be_u32(s[at], s[at + 1], s[at + 2], s[at + 3])
}

/// The two's-complement bit pattern of `v`.
pub open spec fn i32_bits(v: i32) -> u32 {
    if v >= 0 {
        v as u32
    } else {
        (v as int + 0x1_0000_0000) as u32
    }
}

/// The signed integer with the two's-complement bit pattern `bits`.
pub open spec fn i32_of_bits(bits: u32) -> i32 {
    if bits < 0x8000_0000 {
        bits as i32
    } else {
        (bits as int - 0x1_0000_0000) as i32
    }
}

/// The four big-endian bytes of `v`.
pub open spec fn i32_be_bytes(v: i32) -> Seq<u8> {
    u32_be_bytes(i32_bits(v))
}

/// The signed integer held in the four bytes of `s` that start at `at`.
pub open spec fn i32_at(s: Seq<u8>, at: int) -> i32
    recommends
        0 <= at,
        at + 4 <= s.len(),
{
    i32_of_bits(u32_at(s, at))
}

/// Reading back the bytes of `v` gives `v`.
pub proof fn lemma_u32_round_trip(v: u32)
    ensures
        u32_be_bytes(v).len() == 4,
        u32_at(u32_be_bytes(v), 0) == v,
{
    let s = u32_be_bytes(v);
    assert(s[0] as int * 0x100_0000 + s[1] as int * 0x1_0000 + s[2] as int * 0x100 + s[3] as int
        == v as int);
}

/// Reading back the bytes of `v` gives `v`.
pub proof fn lemma_i32_round_trip(v: i32)
    ensures
        i32_be_bytes(v).len() == 4,
        i32_at(i32_be_bytes(v), 0) == v,
{
    lemma_u32_round_trip(i32_bits(v));
}

/// `xdr_codec::Error`, the error of that crate's calls. It is passed through
/// unopened: what failed is told from the input, not from the error.
#[verifier::external_type_specification]
#[verifier::external_body]
pub struct ExXdrError(xdr_codec::Error);

/// `<u32 as xdr_codec::Pack>::pack` on a `Vec<u8>`: appends the four
/// big-endian bytes of `value` and reports four bytes written. Writing to a
/// vector cannot fail.
#[verifier::external_body]
pub(crate) fn xdr_pack_u32(value: u32, out: &mut Vec<u8>) -> (res: Result<usize, xdr_codec::Error>)
    ensures
        final(out)@ == old(out)@ + u32_be_bytes(value),
        res is Ok,
        res matches Ok(n) ==> n == 4,
{
    value.pack(out)
}

/// `<u32 as xdr_codec::Unpack>::unpack` on a byte slice: reads the first four
/// bytes as a big-endian integer and reports four bytes consumed; fails when
/// fewer than four bytes are there.
#[verifier::external_body]
pub(crate) fn xdr_unpack_u32(input: &[u8]) -> (res: Result<(u32, usize), xdr_codec::Error>)
    ensures
        res is Ok <==> input@.len() >= 4,
        res matches Ok(r) ==> r.0 == u32_at(input@, 0) && r.1 == 4,
{
    let mut reader: &[u8] = input;
    u32::unpack(&mut reader)
}

/// `<i32 as xdr_codec::Pack>::pack` on a `Vec<u8>`: appends the four
/// big-endian bytes of the two's-complement pattern of `value` and reports
/// four bytes written. Writing to a vector cannot fail.
#[verifier::external_body]
pub(crate) fn xdr_pack_i32(value: i32, out: &mut Vec<u8>) -> (res: Result<usize, xdr_codec::Error>)
    ensures
        final(out)@ == old(out)@ + i32_be_bytes(value),
        res is Ok,
        res matches Ok(n) ==> n == 4,
{
    value.pack(out)
}

/// `<i32 as xdr_codec::Unpack>::unpack` on a byte slice: reads the first four
/// bytes as a big-endian two's-complement integer and reports four bytes
/// consumed; fails when fewer than four bytes are there.
#[verifier::external_body]
pub(crate) fn xdr_unpack_i32(input: &[u8]) -> (res: Result<(i32, usize), xdr_codec::Error>)
    ensures
        res is Ok <==> input@.len() >= 4,
        res matches Ok(r) ==> r.0 == i32_at(input@, 0) && r.1 == 4,
{
    let mut reader: &[u8] = input;
    i32::unpack(&mut reader)
}

/// A word read at `at` is the word that starts the four bytes from `at` on.
pub proof fn lemma_u32_at_subrange(s: Seq<u8>, at: int)
    requires
        0 <= at,
        at + 4 <= s.len(),
    ensures
        u32_at(s.subrange(at, at + 4), 0) == u32_at(s, at),
        i32_at(s.subrange(at, at + 4), 0) == i32_at(s, at),
{
}

/// The unsigned word of `input` at offset `at`; `None` when the input ends
/// before the word does.
pub fn read_u32(input: &[u8], at: usize) -> (res: Option<u32>)
    ensures
        res is Some <==> at + 4 <= input@.len(),
        res matches Some(v) ==> v == u32_at(input@, at as int),
{
    if at > input.len() || input.len() - at < XDR_WORD {
        return None;
    }
    let word: &[u8] = &input[at..at + XDR_WORD];
    proof {
        lemma_u32_at_subrange(input@, at as int);
    }
    match xdr_unpack_u32(word) {
        Ok(r) => Some(r.0),
        Err(_) => None,
    }
}

/// The signed word of `input` at offset `at`; `None` when the input ends
/// before the word does.
pub fn read_i32(input: &[u8], at: usize) -> (res: Option<i32>)
    ensures
        res is Some <==> at + 4 <= input@.len(),
        res matches Some(v) ==> v == i32_at(input@, at as int),
{
    if at > input.len() || input.len() - at < XDR_WORD {
        return None;
    }
    let word: &[u8] = &input[at..at + XDR_WORD];
    proof {
        lemma_u32_at_subrange(input@, at as int);
    }
    match xdr_unpack_i32(word) {
        Ok(r) => Some(r.0),
        Err(_) => None,
    }
}

/// The number of bytes that `n` bytes of opaque data take once padded to whole
/// words.
pub open spec fn padded_len(n: nat) -> nat {
    ((n + 3) / 4 * 4) as nat
}

/// Whether `s` holds a whole string: the word that declares its length, its
/// bytes, and the padding behind them.
pub open spec fn string_fits(s: Seq<u8>) -> bool {
    s.len() >= 4 && 4 + padded_len(u32_at(s, 0) as nat) <= s.len()
}

/// The bytes of the string that starts `s`, without length and padding.
pub open spec fn string_data(s: Seq<u8>) -> Seq<u8>
    recommends
        string_fits(s),
{
    s.subrange(4, 4 + u32_at(s, 0))
}

/// The number of bytes that the string that starts `s` takes on the wire.
pub open spec fn string_wire_len(s: Seq<u8>) -> nat
    recommends
        string_fits(s),
{
    4 + padded_len(u32_at(s, 0) as nat)
}

/// `xdr_codec::unpack_string` without a size limit, on a slice that holds the
/// whole string: reads the declared number of bytes, skips the padding
/// unchecked, and succeeds exactly when the bytes are UTF-8; it then gives
/// the text and the number of bytes consumed. On a slice that ends early the
/// call may read short or fail in other ways, so such a slice is not
/// admitted.
#[verifier::external_body]
pub(crate) fn xdr_unpack_string(input: &[u8]) -> (res: Result<(String, usize), xdr_codec::Error>)
    requires
        string_fits(input@),
    ensures
        res is Ok <==> valid_utf8(string_data(input@)),
        res matches Ok(r) ==> r.0@ == decode_utf8(string_data(input@)) && r.1 == string_wire_len(
            input@,
        ),
{
    let mut reader: &[u8] = input;
    xdr_codec::unpack_string(&mut reader, None)
}

/// `xdr_codec::unpack_opaque_array` for sixteen bytes into an array of
/// sixteen: copies the first sixteen bytes and reports sixteen consumed. On
/// a shorter slice the call does not return, so such a slice is not admitted.
#[verifier::external_body]
pub(crate) fn xdr_unpack_opaque16(input: &[u8]) -> (res: Result<([u8; 16], usize), xdr_codec::Error>)
    requires
        input@.len() >= 16,
    ensures
        res is Ok,
        res matches Ok(r) ==> r.0@ == input@.subrange(0, 16) && r.1 == 16,
{
    let mut reader: &[u8] = input;
    let mut bytes = [0u8; 16];
    match xdr_codec::unpack_opaque_array(&mut reader, &mut bytes[..], 16) {
        Ok(n) => Ok((bytes, n)),
        Err(e) => Err(e),
    }
}

} // verus!
