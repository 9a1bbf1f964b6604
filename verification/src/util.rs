//! A typed view over a read region, and the buffer side of single read and
//! write attempts.

use crate::buf::{
    advance, chunk, chunks_vectored, contents, has_remaining_mut, lengths, max_len, pieces,
    spare_len, vectored,
};
use bytes::BytesMut;
use vstd::prelude::*;

verus! {

/// What a [`ReadBuf`] stands for.
///
/// The region has `capacity` bytes. Its first `filled` bytes are logically
/// written. `bytes` holds the initialized prefix, which includes the filled
/// part; of what lies beyond it nothing is known, and nothing can be said.
pub struct ReadBufView {
    pub capacity: nat,
    pub filled: nat,
    pub bytes: Seq<u8>,
}

impl ReadBufView {
    /// How many bytes, from the start, have a defined value.
    pub open spec fn initialized(self) -> nat {
        self.bytes.len()
    }

    /// `filled <= initialized <= capacity`.
    pub open spec fn wf(self) -> bool {
        self.filled <= self.bytes.len() <= self.capacity
    }

    /// How many bytes are still writable.
    pub open spec fn remaining(self) -> nat {
        (self.capacity - self.filled) as nat
    }

    /// The view once the next `n` unfilled bytes are initialized: bytes that
    /// had a value keep it, the others are zero.
    pub open spec fn claim(self, n: nat) -> ReadBufView {
        ReadBufView { bytes: zero_extended(self.bytes, self.filled + n), ..self }
    }

    /// The next `n` unfilled bytes.
    pub open spec fn unfilled(self, n: nat) -> Seq<u8> {
        self.bytes.subrange(self.filled as int, (self.filled + n) as int)
    }

    /// The view once the unfilled bytes that follow `filled` are overwritten
    /// with `w`.
    pub open spec fn with_unfilled(self, w: Seq<u8>) -> ReadBufView {
        ReadBufView {
            bytes: self.bytes.take(self.filled as int) + w + self.bytes.skip(
                (self.filled + w.len()) as int,
            ),
            ..self
        }
    }
}

/// `bytes`, followed by as many zeros as it takes to reach length `end`.
pub open spec fn zero_extended(bytes: Seq<u8>, end: nat) -> Seq<u8> {
    if end <= bytes.len() {
        bytes
    } else {
        bytes + Seq::new((end - bytes.len()) as nat, |i: int| 0u8)
    }
}

/// A byte region that is filled and initialized step by step.
///
/// It tracks three parts of the region: a prefix that has been logically
/// filled with data, a part after it that has been given defined values but
/// is not filled yet, and a tail whose values count as undefined:
///
/// ```not_rust
/// [             capacity              ]
/// [ filled |         unfilled         ]
/// [    initialized    | uninitialized ]
/// ```
///
/// The region is an ordinary byte slice, so reading the tail would be memory
/// safe; it would only be meaningless. The type never does it, and its
/// contracts expose nothing beyond the initialized prefix. Keeping the
/// initialized mark means a region that is reused is zeroed once, not per
/// read.
pub struct ReadBuf<'a> {
    buf: &'a mut [u8],
    filled: usize,
    initialized: usize,
}

impl<'a> View for ReadBuf<'a> {
    type V = ReadBufView;

    closed spec fn view(&self) -> ReadBufView {
        ReadBufView {
            capacity: self.buf@.len(),
            filled: self.filled as nat,
            bytes: Seq::new(self.initialized as nat, |i: int| self.buf@[i]),
        }
    }
}

impl<'a> ReadBuf<'a> {
    /// The invariant of the two marks: `filled <= initialized <= capacity`.
    pub open spec fn wf(&self) -> bool {
        self@.wf()
    }

    /// Creates a `ReadBuf` over a region of which nothing counts as
    /// initialized.
    #[inline]
    pub fn uninit(buf: &'a mut [u8]) -> (r: ReadBuf<'a>)
        ensures
            r.wf(),
            r@ == (ReadBufView { capacity: old(buf)@.len(), filled: 0, bytes: Seq::empty() }),
    {
        let r = ReadBuf { buf, filled: 0, initialized: 0 };
        assert(r@.bytes =~= Seq::<u8>::empty());
        r
    }

    /// Returns the total capacity of the region.
    #[inline]
    pub fn capacity(&self) -> (n: usize)
        ensures
            n == self@.capacity,
    {
        self.buf.len()
    }

    /// Returns the filled part of the region.
    #[inline]
    pub fn filled(&self) -> (r: &[u8])
        requires
            self.wf(),
        ensures
            r@ == self@.bytes.take(self@.filled as int),
    {
        vstd::slice::slice_subrange(&*self.buf, 0, self.filled)
    }

    /// Returns the whole unfilled part of the region, initialized.
    ///
    /// After the first use on a region this costs nothing: what is
    /// initialized stays so.
    #[inline]
    pub fn initialize_unfilled(&mut self) -> (w: &mut [u8])
        requires
            old(self).wf(),
        ensures
            w@ == old(self)@.claim(old(self)@.remaining()).unfilled(old(self)@.remaining()),
            final(w)@.len() == w@.len() ==> final(self).wf(),
            final(w)@.len() == w@.len() ==> final(self)@ == old(self)@.claim(
                old(self)@.remaining(),
            ).with_unfilled(final(w)@),
    {
        let n = self.remaining();
        self.initialize_unfilled_to(n)
    }

    /// Returns the first `n` bytes of the unfilled part of the region,
    /// initialized: those that had no value yet are zero.
    ///
    /// `n` may not exceed `remaining()`.
    ///
    /// The slice is lent out, so the region's state after the call depends
    /// on what the borrower writes. A mutable slice keeps its length; given
    /// that, the region is as claimed, with the borrower's bytes in place of
    /// the `n` that were lent.
    #[inline]
    pub fn initialize_unfilled_to(&mut self, n: usize) -> (w: &mut [u8])
        requires
            old(self).wf(),
            n <= old(self)@.remaining(),
        ensures
            w@ == old(self)@.claim(n as nat).unfilled(n as nat),
            final(w)@.len() == n ==> final(self).wf(),
            final(w)@.len() == n ==> final(self)@ == old(self)@.claim(n as nat).with_unfilled(
                final(w)@,
            ),
    {
        assert(self.buf.len() == self.buf@.len());
        let end = self.filled + n;
        if self.initialized < end {
            let mut i = self.initialized;
            while i < end
                invariant
                    self.initialized <= i <= end <= self.buf@.len(),
                    self.filled == old(self).filled,
                    self.initialized == old(self).initialized,
                    self.filled <= self.initialized,
                    self.buf@.len() == old(self).buf@.len(),
                    self.buf@.take(self.initialized as int) == old(self).buf@.take(
                        self.initialized as int,
                    ),
                    forall|j: int| self.initialized <= j < i ==> self.buf@[j] == 0u8,
                decreases end - i,
            {
                self.buf[i] = 0;
                i = i + 1;
            }
            self.initialized = end;
        }
        let ghost claimed = old(self)@.claim(n as nat);
        let ghost marked = self.initialized as nat;
        assert(claimed.bytes =~= self.buf@.take(marked as int));
        let (head, tail) = self.buf.split_at_mut(self.filled);
        let (mid, rest) = tail.split_at_mut(n);
        assert(final(mid)@.len() == n ==> Seq::new(
            marked,
            |i: int| (head@ + (final(mid)@ + rest@))[i],
        ) =~= claimed.with_unfilled(final(mid)@).bytes);
        mid
    }

    /// Returns the number of bytes at the end of the region that have not
    /// been filled yet.
    #[inline]
    pub fn remaining(&self) -> (n: usize)
        requires
            self.wf(),
        ensures
            n == self@.remaining(),
    {
        self.capacity() - self.filled
    }
}

/// What one attempt on the I/O object reported. An attempt never blocks: an
/// object that is not ready says so, and the task is woken when it is.
#[derive(Debug)]
pub enum Attempt<T> {
    /// The I/O object was not ready. Nothing was transferred.
    Pending,
    /// The attempt went through, with this result.
    Ready(T),
    /// The I/O object failed.
    Failed(std::io::Error),
}

/// What a read attempt does to the bytes of the buffer it reads into: bytes
/// that were delivered are appended, and nothing else changes anything.
pub open spec fn read_into(held: Seq<u8>, attempt: Attempt<Seq<u8>>) -> Seq<u8> {
    match attempt {
        Attempt::Ready(data) => held + data,
        _ => held,
    }
}

/// What a write attempt does to the bytes of the buffer it writes from:
/// bytes that were accepted leave at the front, and nothing else changes
/// anything.
pub open spec fn written_from(held: Seq<u8>, attempt: Attempt<usize>) -> Seq<u8> {
    match attempt {
        Attempt::Ready(n) => held.skip(n as int),
        _ => held,
    }
}

/// A read attempt's report, with the bytes delivered as a sequence.
pub open spec fn delivered(attempt: Attempt<&[u8]>) -> Attempt<Seq<u8>> {
    match attempt {
        Attempt::Pending => Attempt::Pending,
        Attempt::Ready(data) => Attempt::Ready(data@),
        Attempt::Failed(e) => Attempt::Failed(e),
    }
}

/// A read attempt's report, with the bytes delivered reduced to their
/// number.
pub open spec fn counted(attempt: Attempt<Seq<u8>>) -> Attempt<usize> {
    match attempt {
        Attempt::Pending => Attempt::Pending,
        Attempt::Ready(data) => Attempt::Ready(data.len() as usize),
        Attempt::Failed(e) => Attempt::Failed(e),
    }
}

/// Says how many bytes one read attempt into `buf` may deliver.
///
/// Zero means that the buffer cannot grow: the attempt is to be skipped, the
/// I/O object left alone, and zero bytes reported. Otherwise the number is
/// that of the bytes for which the buffer has room, or has made room, so
/// that taking them in will not reallocate; only a buffer within 64 bytes of
/// the largest length makes no room, and says how far it is from that
/// length. However many bytes are delivered, up to this number, the buffer
/// can hold them.
pub fn read_window(buf: &mut BytesMut) -> (n: usize)
    ensures
        contents(final(buf)) == contents(old(buf)),
        n == 0 <==> contents(old(buf)).len() == max_len(),
        contents(old(buf)).len() + n <= max_len(),
{
    if !has_remaining_mut(buf) {
        return 0;
    }
    let len = buf.len();
    let limit: usize = isize::MAX as usize;
    if len > limit - 64 {
        limit - len
    } else {
        spare_len(buf)
    }
}

/// Takes in what one read attempt on the I/O object reported.
///
/// Bytes that were delivered are appended to `buf`, and their number is
/// reported. A pending attempt and a failure leave the buffer as it was and
/// are passed on unchanged; nothing is tried again.
pub fn poll_read_buf(attempt: Attempt<&[u8]>, buf: &mut BytesMut) -> (r: Attempt<usize>)
    requires
        attempt matches Attempt::Ready(data) ==> contents(old(buf)).len() + data@.len()
            <= max_len(),
    ensures
        contents(final(buf)) == read_into(contents(old(buf)), delivered(attempt)),
        r == counted(delivered(attempt)),
{
    match attempt {
        Attempt::Pending => Attempt::Pending,
        Attempt::Ready(data) => {
            buf.extend_from_slice(data);
            Attempt::Ready(data.len())
        },
        Attempt::Failed(e) => Attempt::Failed(e),
    }
}

/// The largest number of pieces of a buffer that one write attempt puts
/// before the I/O object.
pub const MAX_BUFS: usize = 64;

/// The bytes that one write attempt offers from a buffer whose bytes lie in
/// `pieces`: those of the first `MAX_BUFS` pieces.
pub open spec fn offered(pieces: Seq<Seq<u8>>) -> Seq<u8> {
    vectored(pieces, MAX_BUFS as nat).flatten()
}

/// Says which bytes one write attempt from `buf` offers to the I/O object:
/// those of the first pieces of the buffer, `MAX_BUFS` pieces at most. A
/// `BytesMut` keeps its bytes in one piece, so the offer is all it holds.
///
/// An empty offer means that there is nothing to write: the attempt is to be
/// skipped, the I/O object left alone, and zero bytes reported.
pub fn write_window(buf: &BytesMut) -> (offer: &[u8])
    ensures
        offer@ == offered(pieces(contents(buf))),
        offer@ == contents(buf),
{
    let ghost held = contents(buf);
    proof {
        if held.len() > 0 {
            seq![held].lemma_flatten_one_element();
        }
    }
    let all = chunk(buf);
    assert(all.len() == held.len());
    // The offer ends where the last of the pieces ends that go into one
    // vectored write.
    let lens = chunks_vectored(buf, MAX_BUFS);
    let mut total: usize = 0;
    let mut i: usize = 0;
    while i < lens.len()
        invariant
            i <= lens.len(),
            held.len() <= usize::MAX,
            lens@ == lengths(vectored(pieces(held), MAX_BUFS as nat)),
            total == if i == 0 {
                0
            } else {
                held.len()
            },
        decreases lens.len() - i,
    {
        total = total + lens[i];
        i = i + 1;
    }
    vstd::slice::slice_subrange(all, 0, total)
}

/// Takes in what one write attempt on the I/O object reported.
///
/// The bytes that were accepted leave `buf` at the front, and their number
/// is reported. A pending attempt and a failure leave the buffer as it was
/// and are passed on unchanged; nothing is tried again.
pub fn poll_write_buf(attempt: Attempt<usize>, buf: &mut BytesMut) -> (r: Attempt<usize>)
    requires
        attempt matches Attempt::Ready(n) ==> n <= contents(old(buf)).len(),
    ensures
        contents(final(buf)) == written_from(contents(old(buf)), attempt),
        r == attempt,
{
    match attempt {
        Attempt::Pending => Attempt::Pending,
        Attempt::Ready(n) => {
            advance(buf, n);
            Attempt::Ready(n)
        },
        Attempt::Failed(e) => Attempt::Failed(e),
    }
}

} // verus!
