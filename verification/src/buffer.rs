//! Byte buffers from the `bytes` crate, and the little-endian `u32` encoding
//! that the wire length prefix uses.
use vstd::prelude::*;

use bytes::{Buf, BufMut, Bytes, BytesMut};

verus! {

/// `bytes::Bytes`, an immutable shared byte buffer.
#[verifier::external_type_specification]
#[verifier::external_body]
pub struct ExBytes(Bytes);

/// `bytes::BytesMut`, a growable byte buffer.
#[verifier::external_type_specification]
#[verifier::external_body]
pub struct ExBytesMut(BytesMut);

/// The bytes an immutable `Bytes` buffer holds, in order.
pub uninterp spec fn bytes_contents(b: Bytes) -> Seq<u8>;

/// The bytes a growable `BytesMut` buffer holds, in order.
pub uninterp spec fn bytes_mut_contents(b: BytesMut) -> Seq<u8>;

/// Largest number of bytes a buffer can hold: an allocation is at most
/// `isize::MAX` bytes.
pub open spec fn max_buffer_len() -> int {
    isize::MAX as int
}

/// Byte `i` (0 = least significant) of `n`.
pub open spec fn byte_of(n: u32, i: nat) -> u8 {
    ((n as int / pow256(i)) % 256) as u8
}

/// `256^i`.
pub open spec fn pow256(i: nat) -> int
    decreases i,
{
    if i == 0 {
        1
    } else {
        256 * pow256((i - 1) as nat)
    }
}

/// The four little-endian bytes of `n`.
pub open spec fn le_bytes(n: u32) -> Seq<u8> {
    seq![byte_of(n, 0), byte_of(n, 1), byte_of(n, 2), byte_of(n, 3)]
}

/// The `u32` whose little-endian bytes are the first four of `s`.
pub open spec fn le_value(s: Seq<u8>) -> int
    recommends
        s.len() >= 4,
{
    s[0] as int + 256 * (s[1] as int) + 65536 * (s[2] as int) + 16777216 * (s[3] as int)
}

/// Reading back the little-endian bytes of `n` gives `n`.
pub proof fn lemma_le_roundtrip(n: u32)
    ensures
        le_value(le_bytes(n)) == n as int,
{
    assert(pow256(0) == 1);
    assert(pow256(1) == 256);
    assert(pow256(2) == 65536);
    assert(pow256(3) == 16777216);
    let x = n as int;
    assert(x % 256 + 256 * ((x / 256) % 256) + 65536 * ((x / 65536) % 256) + 16777216 * ((x
        / 16777216) % 256) == x) by (nonlinear_arith)
        requires
            0 <= x < 4294967296,
    {
        assert(x / 65536 == (x / 256) / 256) by (nonlinear_arith)
            requires
                0 <= x,
        ;
        assert(x / 16777216 == (x / 65536) / 256) by (nonlinear_arith)
            requires
                0 <= x,
        ;
    }
}

/// A little-endian value read from four bytes fits in a `u32`.
pub proof fn lemma_le_value_bounds(s: Seq<u8>)
    requires
        s.len() >= 4,
    ensures
        0 <= le_value(s) <= u32::MAX,
{
}

/// `BytesMut::with_capacity`: an empty buffer (the capacity is only a hint).
/// It panics when the capacity exceeds `isize::MAX` bytes, so that is
/// excluded.
#[verifier::external_body]
pub(crate) fn bytes_mut_with_capacity(capacity: usize) -> (b: BytesMut)
    requires
        capacity <= max_buffer_len(),
    ensures
        bytes_mut_contents(b) == Seq::<u8>::empty(),
{
    BytesMut::with_capacity(capacity)
}

/// `BufMut::put_u32_le` on a `BytesMut`: appends the four little-endian bytes
/// of `n`. The buffer grows as needed; growth past `isize::MAX` bytes panics,
/// so that is excluded.
#[verifier::external_body]
pub(crate) fn bytes_mut_put_u32_le(b: &mut BytesMut, n: u32)
    requires
        bytes_mut_contents(*old(b)).len() + 4 <= max_buffer_len(),
    ensures
        bytes_mut_contents(*final(b)) == bytes_mut_contents(*old(b)) + le_bytes(n),
{
    b.put_u32_le(n)
}

/// `BytesMut::extend_from_slice`: appends `s`. Growth past `isize::MAX` bytes
/// panics, so that is excluded.
#[verifier::external_body]
pub(crate) fn bytes_mut_extend_from_slice(b: &mut BytesMut, s: &[u8])
    requires
        bytes_mut_contents(*old(b)).len() + s@.len() <= max_buffer_len(),
    ensures
        bytes_mut_contents(*final(b)) == bytes_mut_contents(*old(b)) + s@,
{
    b.extend_from_slice(s)
}

/// `BytesMut::freeze`: the same bytes as an immutable `Bytes`.
#[verifier::external_body]
pub(crate) fn bytes_mut_freeze(b: BytesMut) -> (r: Bytes)
    ensures
        bytes_contents(r) == bytes_mut_contents(b),
{
    b.freeze()
}

/// `Buf::get_u32_le` on a byte slice: the little-endian `u32` in its first
/// four bytes. It panics on fewer than four bytes, so that is excluded.
#[verifier::external_body]
pub(crate) fn slice_get_u32_le(s: &[u8]) -> (n: u32)
    requires
        s@.len() >= 4,
    ensures
        n as int == le_value(s@),
{
    let mut cursor = s;
    cursor.get_u32_le()
}

} // verus!
