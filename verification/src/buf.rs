//! The byte buffer the transport works on: `bytes::BytesMut`, with the
//! contracts its methods are used under.

use bytes::BytesMut;
use vstd::prelude::*;

verus! {

/// `bytes::BytesMut`, a growable buffer of bytes. What it holds is known
/// through `bytes_of` alone.
#[verifier::external_type_specification]
#[verifier::external_body]
pub struct ExBytesMut(BytesMut);

/// The bytes a buffer holds, first to last.
pub uninterp spec fn bytes_of(b: BytesMut) -> Seq<u8>;

/// `BytesMut::new` returns a buffer of length zero.
pub assume_specification[ BytesMut::new ]() -> (b: BytesMut)
    ensures
        bytes_of(b).len() == 0,
;

/// `BytesMut::len` is the number of bytes held.
pub assume_specification[ BytesMut::len ](b: &BytesMut) -> (n: usize)
    ensures
        n == bytes_of(*b).len(),
;

/// `BytesMut::extend_from_slice` grows the buffer as needed and appends the
/// given bytes behind what it holds.
pub assume_specification[ BytesMut::extend_from_slice ](b: &mut BytesMut, extend: &[u8])
    ensures
        bytes_of(*final(b)) == bytes_of(*old(b)) + extend@,
;

/// `BytesMut::split_to` hands out the first `at` bytes and keeps the rest. It
/// panics when `at` exceeds the length.
pub assume_specification[ BytesMut::split_to ](b: &mut BytesMut, at: usize) -> (head: BytesMut)
    requires
        at <= bytes_of(*old(b)).len(),
    ensures
        bytes_of(head) == bytes_of(*old(b)).subrange(0, at as int),
        bytes_of(*final(b)) == bytes_of(*old(b)).subrange(at as int, bytes_of(*old(b)).len() as int),
;

/// `BytesMut::split_off` keeps the first `at` bytes and hands out the rest.
/// Up to the length it cannot panic.
pub assume_specification[ BytesMut::split_off ](b: &mut BytesMut, at: usize) -> (tail: BytesMut)
    requires
        at <= bytes_of(*old(b)).len(),
    ensures
        bytes_of(*final(b)) == bytes_of(*old(b)).subrange(0, at as int),
        bytes_of(tail) == bytes_of(*old(b)).subrange(at as int, bytes_of(*old(b)).len() as int),
;

/// `<BytesMut as AsRef<[u8]>>::as_ref` borrows the bytes held as a slice.
pub assume_specification[ <BytesMut as AsRef<[u8]>>::as_ref ](b: &BytesMut) -> (s: &[u8])
    ensures
        s@ == bytes_of(*b),
;

/// `<BytesMut as Clone>::clone` copies the bytes held into a buffer of their
/// own.
pub assume_specification[ <BytesMut as Clone>::clone ](b: &BytesMut) -> (copy: BytesMut)
    ensures
        bytes_of(copy) == bytes_of(*b),
;

/// The bytes `b` holds, as a slice.
pub fn as_slice(b: &BytesMut) -> (s: &[u8])
    ensures
        s@ == bytes_of(*b),
{
    <BytesMut as AsRef<[u8]>>::as_ref(b)
}

/// Copies `data` into a buffer of its own.
pub fn buffer_from(data: &[u8]) -> (b: BytesMut)
    ensures
        bytes_of(b) == data@,
{
    let mut b = BytesMut::new();
    b.extend_from_slice(data);
    assert(bytes_of(b) =~= data@);
    b
}

} // verus!
