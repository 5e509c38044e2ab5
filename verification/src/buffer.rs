//! The destination buffer as the encoders see it.
//!
//! A `bytes::BytesMut` is owned by the caller. The encoders only append to it.
//! Where it lacks room for what is to be appended, it is asked to make room
//! first, as far as the machine's address space lets it grow.

use bytes::BytesMut;
use vstd::prelude::*;
use vstd::string::StringSliceAdditionalSpecFns;

verus! {

/// `bytes::BytesMut`, carried through as an opaque value. What the contracts
/// need to know of one is given by [`buffer_bytes`] and [`buffer_room`].
#[verifier::external_type_specification]
#[verifier::external_body]
pub struct ExBytesMut(bytes::BytesMut);

/// The bytes that a buffer holds, in the order in which they were written:
/// the slice that `BytesMut` dereferences to.
pub uninterp spec fn buffer_bytes(buf: BytesMut) -> Seq<u8>;

/// How many more bytes a buffer takes as it stands, without being grown: what
/// `BufMut::remaining_mut` reports for it.
pub uninterp spec fn buffer_room(buf: BytesMut) -> nat;

/// The two facts about a buffer that decide what an encoder does with it.
pub struct BufferView {
    /// The bytes held so far.
    pub bytes: Seq<u8>,
    /// How many more bytes fit as it stands.
    pub room: nat,
}

impl BufferView {
    /// How many bytes the buffer can hold as it stands: those it holds and
    /// those it has room for.
    pub open spec fn capacity(self) -> nat {
        self.bytes.len() + self.room
    }

    /// Whether `data` fits into the room that is left, as it stands.
    pub open spec fn takes(self, data: Seq<u8>) -> bool {
        data.len() <= self.room
    }

    /// Whether the buffer may be asked to make room for `additional` more
    /// bytes: its capacity and the addition together stay within an eighth of
    /// `usize::MAX`. On a 64-bit machine that bound is two exbibytes.
    pub open spec fn can_grow_by(self, additional: nat) -> bool {
        self.capacity() + additional <= usize::MAX / 8
    }

    /// Whether `data` can be appended: it fits as the buffer stands, or the
    /// buffer can be grown to take it.
    pub open spec fn accepts(self, data: Seq<u8>) -> bool {
        self.takes(data) || self.can_grow_by(data.len())
    }
}

/// The view of a buffer: its bytes and its room.
pub open spec fn view_of(buf: BytesMut) -> BufferView {
    BufferView { bytes: buffer_bytes(buf), room: buffer_room(buf) }
}

/// Calls `BytesMut::capacity`.
///
/// Trusted, from the source of `bytes`: the capacity is the number of bytes
/// held plus the number that `remaining_mut` reports, which is computed as
/// the capacity less the length.
#[verifier::external_body]
pub(crate) fn buffer_capacity(dst: &BytesMut) -> (n: usize)
    ensures
        n == buffer_bytes(*dst).len() + buffer_room(*dst),
{
    dst.capacity()
}

/// Calls `BytesMut::reserve`.
///
/// Trusted, from the source of `bytes`: on every path the bytes held stay as
/// they are, and afterwards there is room for at least `additional` more.
/// More may have been reserved; how much is not stated.
///
/// `reserve` panics where an allocation it makes would exceed `isize::MAX`
/// bytes; `requires` leaves those calls out. Write `x` for the capacity plus
/// `additional`. A buffer stored inline allocates the length plus
/// `additional`, at most `x`. A buffer that owns a vector reuses it where the
/// part in front of the buffer is at least `additional` and at least half the
/// capacity; otherwise that vector is shorter than `2 * x`, and growing it
/// allocates at most twice its size, less than `4 * x`. A buffer that shares
/// a vector allocates less than `2 * x`, or the 64 KiB at most that it first
/// had. With `x` within an eighth of `usize::MAX`, each of these is within
/// `isize::MAX`.
#[verifier::external_body]
pub(crate) fn buffer_reserve(dst: &mut BytesMut, additional: usize)
    requires
        buffer_bytes(*old(dst)).len() + buffer_room(*old(dst)) + additional <= usize::MAX / 8,
    ensures
        buffer_bytes(*final(dst)) == buffer_bytes(*old(dst)),
        buffer_room(*final(dst)) >= additional,
{
    dst.reserve(additional)
}

/// Calls `BytesMut`'s implementation of `std::fmt::Write::write_str`.
///
/// Trusted, from the source of `bytes`: the call compares `remaining_mut()`
/// with the byte length of `s`. If `s` fits, its UTF-8 bytes are copied behind
/// the bytes already held, the room shrinks by as many, and the call returns
/// `Ok`. If it does not fit, the buffer is left as it was and the call returns
/// `Err`. The call itself never grows the buffer and does not panic.
#[verifier::external_body]
pub(crate) fn buffer_write_str(dst: &mut BytesMut, s: &str) -> (res: Result<(), std::fmt::Error>)
    ensures
        res is Ok <==> s.spec_bytes().len() <= buffer_room(*old(dst)),
        res is Ok ==> buffer_bytes(*final(dst)) == buffer_bytes(*old(dst)) + s.spec_bytes(),
        res is Ok ==> buffer_room(*final(dst)) == buffer_room(*old(dst)) - s.spec_bytes().len(),
        res is Err ==> buffer_bytes(*final(dst)) == buffer_bytes(*old(dst)),
        res is Err ==> buffer_room(*final(dst)) == buffer_room(*old(dst)),
{
    std::fmt::Write::write_str(dst, s)
}

} // verus!
