//! The byte containers of the `bytes` crate: the growable buffer that the encoder
//! fills, and the packets that travel between the tasks.

use bytes::{BufMut, Bytes, BytesMut};
use vstd::prelude::*;

use crate::wire::{be_bytes, le_bytes, twos_complement};

verus! {

/// `bytes::BytesMut`, of which nothing is known but what `buffered` says.
#[verifier::external_type_specification]
#[verifier::external_body]
pub struct ExBytesMut(BytesMut);

/// The bytes that a buffer holds, in the order in which they were put.
pub uninterp spec fn buffered(buffer: BytesMut) -> Seq<u8>;

/// Whether `count` more bytes fit into a buffer: a buffer that has to grow may
/// double, and no allocation exceeds `isize::MAX` bytes.
pub open spec fn has_room(buffer: BytesMut, count: nat) -> bool {
    buffered(buffer).len() + count <= isize::MAX / 4
}

/// `BytesMut::with_capacity`: an empty buffer. The capacity is only a hint on how
/// much may be put before the buffer allocates again, so it does not show in the
/// contents.
#[verifier::external_body]
pub(crate) fn buffer_with_capacity(capacity: usize) -> (buffer: BytesMut)
    requires
        capacity <= isize::MAX / 4,
    ensures
        buffered(buffer) == Seq::<u8>::empty(),
{
    BytesMut::with_capacity(capacity)
}

/// `BytesMut::clear`: the buffer is empty afterwards.
#[verifier::external_body]
pub(crate) fn buffer_clear(buffer: &mut BytesMut)
    ensures
        buffered(*final(buffer)) == Seq::<u8>::empty(),
{
    buffer.clear()
}

/// `BufMut::put_u8` on a `BytesMut`: appends one byte.
#[verifier::external_body]
pub(crate) fn buffer_put_u8(buffer: &mut BytesMut, n: u8)
    requires
        has_room(*old(buffer), 1),
    ensures
        buffered(*final(buffer)) == buffered(*old(buffer)).push(n),
{
    buffer.put_u8(n)
}

/// `BufMut::put_u16` on a `BytesMut`: appends two bytes, big endian.
#[verifier::external_body]
pub(crate) fn buffer_put_u16(buffer: &mut BytesMut, n: u16)
    requires
        has_room(*old(buffer), 2),
    ensures
        buffered(*final(buffer)) == buffered(*old(buffer)) + be_bytes(n as nat, 2),
{
    buffer.put_u16(n)
}

/// `BufMut::put_i16` on a `BytesMut`: appends the two's complement pattern, big
/// endian.
#[verifier::external_body]
pub(crate) fn buffer_put_i16(buffer: &mut BytesMut, n: i16)
    requires
        has_room(*old(buffer), 2),
    ensures
        buffered(*final(buffer)) == buffered(*old(buffer)) + be_bytes(twos_complement(n), 2),
{
    buffer.put_i16(n)
}

/// `BufMut::put_u32` on a `BytesMut`: appends four bytes, big endian.
#[verifier::external_body]
pub(crate) fn buffer_put_u32(buffer: &mut BytesMut, n: u32)
    requires
        has_room(*old(buffer), 4),
    ensures
        buffered(*final(buffer)) == buffered(*old(buffer)) + be_bytes(n as nat, 4),
{
    buffer.put_u32(n)
}

/// `BufMut::put_u32_le` on a `BytesMut`: appends four bytes, little endian.
#[verifier::external_body]
pub(crate) fn buffer_put_u32_le(buffer: &mut BytesMut, n: u32)
    requires
        has_room(*old(buffer), 4),
    ensures
        buffered(*final(buffer)) == buffered(*old(buffer)) + le_bytes(n as nat, 4),
{
    buffer.put_u32_le(n)
}

/// `BufMut::put_u64` on a `BytesMut`: appends eight bytes, big endian.
#[verifier::external_body]
pub(crate) fn buffer_put_u64(buffer: &mut BytesMut, n: u64)
    requires
        has_room(*old(buffer), 8),
    ensures
        buffered(*final(buffer)) == buffered(*old(buffer)) + be_bytes(n as nat, 8),
{
    buffer.put_u64(n)
}

/// `to_vec` on the slice that a `BytesMut` dereferences to: a copy of its bytes.
#[verifier::external_body]
pub(crate) fn buffer_to_vec(buffer: &BytesMut) -> (copy: Vec<u8>)
    ensures
        copy@ == buffered(*buffer),
{
    buffer.to_vec()
}

/// `bytes::Bytes`, of which nothing is known but what `content` says.
#[verifier::external_type_specification]
#[verifier::external_body]
pub struct ExBytes(Bytes);

/// The bytes of a packet.
pub uninterp spec fn content(packet: Bytes) -> Seq<u8>;

/// `Bytes::copy_from_slice`: a packet with the same bytes as the slice.
pub assume_specification[ Bytes::copy_from_slice ](data: &[u8]) -> (packet: Bytes)
    ensures
        content(packet) == data@,
;

/// `Bytes::len`: how many bytes the packet has.
pub assume_specification[ Bytes::len ](packet: &Bytes) -> (len: usize)
    ensures
        len == content(*packet).len(),
;

/// `Bytes::is_empty`: whether the packet has no byte at all.
pub assume_specification[ Bytes::is_empty ](packet: &Bytes) -> (empty: bool)
    ensures
        empty == (content(*packet).len() == 0),
;

/// `AsRef::as_ref` of a `Bytes`: the packet as a slice.
#[verifier::external_body]
pub(crate) fn packet_slice(packet: &Bytes) -> (data: &[u8])
    ensures
        data@ == content(*packet),
{
    packet.as_ref()
}

} // verus!
