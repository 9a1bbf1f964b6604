//! The growable byte buffer of the `bytes` crate, as the proofs see it.
//!
//! A `BytesMut` is opaque to the verifier. Everything here speaks of one
//! thing only: the bytes the buffer holds, first to last. Capacity is never
//! named, since it depends on the allocator.
//!
//! None of the contracts in this file is proved. Each one restates what the
//! source of `bytes` shows for the method it belongs to. A request for memory
//! that the allocator cannot meet is outside the model, as it is for `Vec`.

use bytes::{Buf, BufMut, Bytes, BytesMut};
use std::io::IoSlice;
use vstd::prelude::*;

verus! {

#[verifier::external_type_specification]
#[verifier::external_body]
pub struct ExBytesMut(BytesMut);

#[verifier::external_type_specification]
#[verifier::external_body]
pub struct ExBytes(Bytes);

/// The bytes that a `BytesMut` holds, first to last.
pub uninterp spec fn contents(buf: &BytesMut) -> Seq<u8>;

/// The bytes that a `Bytes` holds, first to last.
pub uninterp spec fn frozen(data: &Bytes) -> Seq<u8>;

/// The largest length a buffer can reach: `bytes` never lets an allocation
/// grow past `isize::MAX` bytes.
pub open spec fn max_len() -> nat {
    isize::MAX as nat
}

/// `BytesMut::with_capacity`: an empty buffer, whatever room was asked for.
pub assume_specification[ BytesMut::with_capacity ](capacity: usize) -> (buf: BytesMut)
    requires
        capacity <= max_len(),
    ensures
        contents(&buf) == Seq::<u8>::empty(),
;

/// `BytesMut::len`: the number of bytes held.
pub assume_specification[ BytesMut::len ](buf: &BytesMut) -> (n: usize)
    ensures
        n == contents(buf).len(),
;

/// `BytesMut::is_empty`: whether no byte is held.
pub assume_specification[ BytesMut::is_empty ](buf: &BytesMut) -> (b: bool)
    ensures
        b == (contents(buf).len() == 0),
;

/// `BytesMut::split_to`: the first `at` bytes leave the buffer and come back
/// as a buffer of their own; the rest stays. It panics when `at` exceeds the
/// length, so that is ruled out.
pub assume_specification[ BytesMut::split_to ](buf: &mut BytesMut, at: usize) -> (head: BytesMut)
    requires
        at <= contents(old(buf)).len(),
    ensures
        contents(&head) == contents(old(buf)).take(at as int),
        contents(final(buf)) == contents(old(buf)).skip(at as int),
;

/// `BytesMut::reserve`: makes room and leaves the bytes alone. It panics when
/// the capacity asked for overflows, so the length asked for is kept within
/// `isize::MAX`, the most that one allocation can hold.
pub assume_specification[ BytesMut::reserve ](buf: &mut BytesMut, additional: usize)
    requires
        contents(old(buf)).len() + additional <= max_len(),
    ensures
        contents(final(buf)) == contents(old(buf)),
;

/// `BytesMut::extend_from_slice`: appends the slice. It reserves first, hence
/// the same bound as `reserve`.
pub assume_specification[ BytesMut::extend_from_slice ](buf: &mut BytesMut, extend: &[u8])
    requires
        contents(old(buf)).len() + extend@.len() <= max_len(),
    ensures
        contents(final(buf)) == contents(old(buf)) + extend@,
;

/// `Bytes::len`: the number of bytes held.
pub assume_specification[ Bytes::len ](data: &Bytes) -> (n: usize)
    ensures
        n == frozen(data).len(),
;

/// `Buf::has_remaining` on a `BytesMut`: whether any byte is left to consume.
#[verifier::external_body]
pub(crate) fn has_remaining(buf: &BytesMut) -> (b: bool)
    ensures
        b == (contents(buf).len() > 0),
{
    buf.has_remaining()
}

/// The pieces in which a `BytesMut` holds its bytes: all of them in one
/// piece, and no piece at all when it is empty.
pub open spec fn pieces(held: Seq<u8>) -> Seq<Seq<u8>> {
    if held.len() > 0 {
        seq![held]
    } else {
        Seq::empty()
    }
}

/// The pieces of a buffer that fit into room for `max` of them: the first
/// `max`, or all if there are no more.
pub open spec fn vectored(pieces: Seq<Seq<u8>>, max: nat) -> Seq<Seq<u8>> {
    if pieces.len() <= max {
        pieces
    } else {
        pieces.take(max as int)
    }
}

/// The lengths of some pieces, piece by piece.
pub open spec fn lengths(pieces: Seq<Seq<u8>>) -> Seq<usize> {
    pieces.map_values(|piece: Seq<u8>| piece.len() as usize)
}

/// `Buf::chunks_vectored` on a `BytesMut`, given room for `max` slices:
/// the lengths of the slices it fills in, in order. `BytesMut` keeps the
/// trait's default, which fills in nothing when there is no room or no
/// byte, and otherwise one slice with all the bytes held. The room is
/// allocated for the call, so it has to be of a size that can be allocated.
#[verifier::external_body]
pub(crate) fn chunks_vectored(buf: &BytesMut, max: usize) -> (lens: Vec<usize>)
    requires
        max * 16 <= max_len(),
    ensures
        lens@ == lengths(vectored(pieces(contents(buf)), max as nat)),
{
    let mut dst = vec![IoSlice::new(&[]); max];
    let cnt = buf.chunks_vectored(&mut dst);
    dst[..cnt].iter().map(|slice| slice.len()).collect()
}

/// `Buf::chunk` on a `BytesMut`: all the bytes held, as one slice.
#[verifier::external_body]
pub(crate) fn chunk(buf: &BytesMut) -> (all: &[u8])
    ensures
        all@ == contents(buf),
{
    buf.chunk()
}

/// `Buf::advance` on a `BytesMut`: drops the first `cnt` bytes. It panics
/// when `cnt` exceeds the length, so that is ruled out.
#[verifier::external_body]
pub(crate) fn advance(buf: &mut BytesMut, cnt: usize)
    requires
        cnt <= contents(old(buf)).len(),
    ensures
        contents(final(buf)) == contents(old(buf)).skip(cnt as int),
{
    buf.advance(cnt)
}

/// `BufMut::has_remaining_mut` on a `BytesMut`: whether the buffer may still
/// grow. The room left is `isize::MAX` less the length, a difference that the
/// source takes without a check: the length never exceeds `isize::MAX`.
#[verifier::external_body]
pub(crate) fn has_remaining_mut(buf: &BytesMut) -> (b: bool)
    ensures
        b ==> contents(buf).len() < max_len(),
        !b ==> contents(buf).len() == max_len(),
{
    buf.has_remaining_mut()
}

/// `BufMut::chunk_mut` on a `BytesMut`, reduced to the length of the spare
/// region it hands out. A full buffer first reserves 64 bytes, so the region
/// is never empty; how long it is depends on the allocator, but it lies in
/// the buffer's allocation, which like any other is no larger than
/// `isize::MAX` bytes. The bytes held stay as they are.
#[verifier::external_body]
pub(crate) fn spare_len(buf: &mut BytesMut) -> (n: usize)
    requires
        contents(old(buf)).len() + 64 <= max_len(),
    ensures
        contents(final(buf)) == contents(old(buf)),
        1 <= n,
        contents(old(buf)).len() + n <= max_len(),
{
    buf.chunk_mut().len()
}

/// `BufMut::put` on a `BytesMut`, with a `Bytes` as the source: appends the
/// source's bytes.
#[verifier::external_body]
pub(crate) fn put_bytes(buf: &mut BytesMut, src: Bytes)
    requires
        contents(old(buf)).len() + frozen(&src).len() <= max_len(),
    ensures
        contents(final(buf)) == contents(old(buf)) + frozen(&src),
{
    buf.put(src)
}

/// `BufMut::put` on a `BytesMut`, with another `BytesMut` as the source:
/// appends the source's bytes.
#[verifier::external_body]
pub(crate) fn put_buf(buf: &mut BytesMut, src: BytesMut)
    requires
        contents(old(buf)).len() + contents(&src).len() <= max_len(),
    ensures
        contents(final(buf)) == contents(old(buf)) + contents(&src),
{
    buf.put(src)
}

} // verus!
