//! The frame layer: a stream of bytes cut into frames, each a four-byte
//! big-endian length followed by that many bytes.

use crate::buf::{as_slice, bytes_of};
use crate::error::EncodeError;
use crate::xdr::{lemma_u32_round_trip, read_u32, u32_at, u32_be_bytes, xdr_pack_u32};
use bytes::BytesMut;
use vstd::prelude::*;

verus! {

/// Number of bytes of the length prefix. The length it declares does not
/// count them.
pub const LENGTH_FIELD_LEN: usize = 4;

/// The number of bytes that the prefix at the start of `buf` says follow it.
pub open spec fn declared_len(buf: Seq<u8>) -> nat
    recommends
        buf.len() >= LENGTH_FIELD_LEN,
{
    u32_at(buf, 0) as nat
}

/// Whether `buf` starts with a whole frame: a prefix and all the bytes it
/// declares.
pub open spec fn frame_ready(buf: Seq<u8>) -> bool {
    buf.len() >= LENGTH_FIELD_LEN && buf.len() >= LENGTH_FIELD_LEN + declared_len(buf)
}

/// The body of the frame that starts `buf`.
pub open spec fn first_frame(buf: Seq<u8>) -> Seq<u8>
    recommends
        frame_ready(buf),
{
    buf.subrange(LENGTH_FIELD_LEN as int, LENGTH_FIELD_LEN + declared_len(buf))
}

/// What is left of `buf` behind its first frame.
pub open spec fn after_first_frame(buf: Seq<u8>) -> Seq<u8>
    recommends
        frame_ready(buf),
{
    buf.subrange(LENGTH_FIELD_LEN + declared_len(buf), buf.len() as int)
}

/// The frame that carries `body`: its length, then the body itself.
pub open spec fn framed(body: Seq<u8>) -> Seq<u8>
    recommends
        body.len() <= u32::MAX,
{
    u32_be_bytes(body.len() as u32) + body
}

/// A frame written in front of any bytes is read back as that frame, and
/// leaves those bytes behind.
pub proof fn lemma_frame_round_trip(body: Seq<u8>, rest: Seq<u8>)
    requires
        body.len() <= u32::MAX,
    ensures
        frame_ready(framed(body) + rest),
        first_frame(framed(body) + rest) == body,
        after_first_frame(framed(body) + rest) == rest,
{
    let buf = framed(body) + rest;
    lemma_u32_round_trip(body.len() as u32);
    assert(buf.subrange(0, 4) =~= u32_be_bytes(body.len() as u32));
    assert(u32_at(buf, 0) == u32_at(buf.subrange(0, 4), 0));
    assert(first_frame(buf) =~= body);
    assert(after_first_frame(buf) =~= rest);
}

/// Whether `src` starts with a whole frame.
pub fn has_frame(src: &BytesMut) -> (res: bool)
    ensures
        res == frame_ready(bytes_of(*src)),
{
    match read_u32(as_slice(src), 0) {
        Some(declared) => src.len() - LENGTH_FIELD_LEN >= declared as usize,
        None => false,
    }
}

/// Takes the first frame off the front of `src` and hands out its body. When
/// the bytes of a whole frame have not accumulated yet, answers `None` and
/// consumes nothing.
pub fn read_frame(src: &mut BytesMut) -> (res: Option<BytesMut>)
    ensures
        res is Some <==> frame_ready(bytes_of(*old(src))),
        res matches Some(body) ==> bytes_of(body) == first_frame(bytes_of(*old(src))) && bytes_of(
            *final(src),
        ) == after_first_frame(bytes_of(*old(src))),
        res is None ==> bytes_of(*final(src)) == bytes_of(*old(src)),
{
    let declared: u32 = match read_u32(as_slice(src), 0) {
        Some(n) => n,
        None => { return None; },
    };
    if src.len() - LENGTH_FIELD_LEN < declared as usize {
        return None;
    }
    let _prefix = src.split_to(LENGTH_FIELD_LEN);
    let body = src.split_to(declared as usize);
    assert(bytes_of(body) =~= first_frame(bytes_of(*old(src))));
    assert(bytes_of(*src) =~= after_first_frame(bytes_of(*old(src))));
    Some(body)
}

/// The length prefix for a body of `len` bytes, if a prefix can declare that
/// many.
pub fn declare_len(len: usize) -> (res: Result<u32, EncodeError>)
    ensures
        res is Ok <==> len <= u32::MAX,
        res matches Ok(n) ==> n == len,
        res matches Err(e) ==> e == EncodeError::FrameTooLarge,
{
    if len > 0xffff_ffff {
        Err(EncodeError::FrameTooLarge)
    } else {
        Ok(len as u32)
    }
}

/// Appends to `dst` the frame that carries `body`. A body longer than a
/// prefix can declare is turned away and `dst` left as it was.
pub fn write_frame(body: &[u8], dst: &mut BytesMut) -> (res: Result<(), EncodeError>)
    ensures
        res is Ok <==> body@.len() <= u32::MAX,
        res is Ok ==> bytes_of(*final(dst)) == bytes_of(*old(dst)) + framed(body@),
        res is Err ==> res == Err::<(), EncodeError>(EncodeError::FrameTooLarge) && bytes_of(
            *final(dst),
        ) == bytes_of(*old(dst)),
{
    let declared: u32 = declare_len(body.len())?;
    let mut prefix: Vec<u8> = Vec::new();
    let _ = xdr_pack_u32(declared, &mut prefix);
    dst.extend_from_slice(prefix.as_slice());
    dst.extend_from_slice(body);
    assert(bytes_of(*dst) =~= bytes_of(*old(dst)) + framed(body@));
    Ok(())
}

} // verus!
