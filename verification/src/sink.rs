//! Whole runs of the write side, and what they put on the wire.
//!
//! Frames are submitted one after the other, which only fills the write
//! buffer. A flush then makes write attempts until the buffer is drained,
//! each of which the I/O object answers by accepting some of the bytes it is
//! offered. The theorems here say which bytes reach the I/O object, and in
//! which order.

use crate::buf::vectored;
use crate::codec::{Decoder, Encoder};
use crate::framed::{flush_spec, initial, start_send_spec, write_done_spec, FramedView};
use crate::stream::{
    decodes_by, frames_in, framing_wf, lemma_chunking_invariance, rest_after, run, Ending, Run,
};
use crate::util::{offered, Attempt, MAX_BUFS};
use vstd::prelude::*;

verus! {

/// The bytes that a codec in the state `codec` appends when it encodes
/// `items` one after the other.
pub open spec fn encoded<I, U: Encoder<I>>(codec: U, items: Seq<I>) -> Seq<u8>
    decreases items.len(),
{
    if items.len() == 0 {
        Seq::empty()
    } else {
        let e = codec.encode_spec(items.first());
        e.appended + encoded(e.codec, items.drop_first())
    }
}

/// Whether a codec in the state `codec` encodes every one of `items`
/// without an error, one after the other.
pub open spec fn encodable<I, U: Encoder<I>>(codec: U, items: Seq<I>) -> bool
    decreases items.len(),
{
    items.len() == 0 || {
        let e = codec.encode_spec(items.first());
        e.result is Ok && encodable(e.codec, items.drop_first())
    }
}

/// The engine after `start_send` has been called with each of `items` in
/// turn.
pub open spec fn sent<I, U: Encoder<I>, E>(v: FramedView<U, E>, items: Seq<I>) -> FramedView<U, E>
    decreases items.len(),
{
    if items.len() == 0 {
        v
    } else {
        sent(start_send_spec(v, items.first()).0, items.drop_first())
    }
}

/// What a flush has written, and the engine it leaves.
pub struct Flushed<U, E> {
    pub written: Seq<u8>,
    pub engine: FramedView<U, E>,
}

/// The number of bytes that a write attempt takes from `held` when the I/O
/// object is willing to accept `n`: it cannot take more than it is offered.
pub open spec fn taken(held: Seq<u8>, n: usize) -> usize {
    if n <= held.len() {
        n
    } else {
        held.len() as usize
    }
}

/// The flush of the engine `v` whose write attempts find the I/O object
/// willing to accept `accepted[0]` bytes, then `accepted[1]`, and so on. The
/// flush stops when nothing is waiting, or when the attempts are used up.
pub open spec fn flush_run<U, E>(v: FramedView<U, E>, accepted: Seq<usize>) -> Flushed<U, E>
    decreases accepted.len(),
{
    if accepted.len() == 0 || !(flush_spec(v) is Write) {
        Flushed { written: Seq::empty(), engine: v }
    } else {
        let n = taken(v.write_buffer, accepted.first());
        let rest = flush_run(write_done_spec(v, Attempt::Ready(n)), accepted.drop_first());
        Flushed { written: v.write_buffer.take(n as int) + rest.written, engine: rest.engine }
    }
}

/// Frames are buffered in the order in which they are submitted.
///
/// After `start_send` has taken `items` one after the other, none of which
/// the codec refused, the write buffer holds what it held before, then the
/// encoding of the first item, then that of the second, and so on. Nothing
/// else about the engine changes but the state of the codec.
pub proof fn lemma_sends_append<I, U: Encoder<I>, E>(v: FramedView<U, E>, items: Seq<I>)
    requires
        !v.write_failed,
        encodable(v.codec, items),
    ensures
        sent(v, items).write_buffer == v.write_buffer + encoded(v.codec, items),
        !sent(v, items).write_failed,
        sent(v, items) == (FramedView {
            codec: sent(v, items).codec,
            write_buffer: sent(v, items).write_buffer,
            ..v
        }),
    decreases items.len(),
{
    if items.len() > 0 {
        lemma_sends_append(start_send_spec(v, items.first()).0, items.drop_first());
    }
}

/// A flush writes the buffered bytes in order, and loses none.
///
/// Whatever the I/O object accepts at each attempt, what the flush has
/// written, followed by what is still waiting, is what was waiting at the
/// start. Nothing else about the engine changes.
pub proof fn lemma_flush_in_order<U, E>(v: FramedView<U, E>, accepted: Seq<usize>)
    requires
        !v.write_failed,
    ensures
        flush_run(v, accepted).written + flush_run(v, accepted).engine.write_buffer
            == v.write_buffer,
        flush_run(v, accepted).engine == (FramedView {
            write_buffer: flush_run(v, accepted).engine.write_buffer,
            ..v
        }),
    decreases accepted.len(),
{
    if accepted.len() > 0 && flush_spec(v) is Write {
        let n = taken(v.write_buffer, accepted.first());
        lemma_flush_in_order(write_done_spec(v, Attempt::Ready(n)), accepted.drop_first());
        assert(v.write_buffer.take(n as int) + v.write_buffer.skip(n as int) =~= v.write_buffer);
    }
}

/// A flush drains the buffer, however little each attempt gets through.
///
/// If the I/O object accepts at least one byte at every attempt, then after
/// as many attempts as bytes were waiting, at the latest, nothing is waiting
/// any more, and all of it has been written, in order. That an attempt may
/// get only a part of the buffer through, because the I/O object takes no
/// more or because only so many pieces are put before it at once, bounds the
/// work of one attempt and not what a flush achieves.
pub proof fn lemma_flush_drains<U, E>(v: FramedView<U, E>, accepted: Seq<usize>)
    requires
        !v.write_failed,
        forall|i: int| 0 <= i < accepted.len() ==> #[trigger] accepted[i] >= 1,
        accepted.len() >= v.write_buffer.len(),
    ensures
        flush_run(v, accepted).written == v.write_buffer,
        flush_run(v, accepted).engine.write_buffer.len() == 0,
        flush_spec(flush_run(v, accepted).engine) is Done,
    decreases accepted.len(),
{
    lemma_flush_in_order(v, accepted);
    if accepted.len() > 0 && flush_spec(v) is Write {
        // The attempt gets at least one byte through, so one attempt fewer
        // is enough for the rest.
        let n = taken(v.write_buffer, accepted.first());
        lemma_flush_drains(write_done_spec(v, Attempt::Ready(n)), accepted.drop_first());
    }
}

/// What is encoded can be framed again. If every frame that the encoder
/// writes is one that a framing finds again, whole and with the same value,
/// then the bytes that encode a sequence of items hold exactly the values of
/// those items, in order, and nothing is left over.
pub proof fn lemma_encoded_frames<I, F, U: Encoder<I>>(
    parse: spec_fn(Seq<u8>) -> Option<(F, nat)>,
    value: spec_fn(I) -> F,
    inv: spec_fn(U) -> bool,
    codec: U,
    items: Seq<I>,
)
    requires
        framing_wf(parse),
        inv(codec),
        forall|c: U, item: I| #[trigger]
            inv(c) ==> {
                let e = #[trigger] c.encode_spec(item);
                &&& e.result is Ok
                &&& inv(e.codec)
                &&& parse(e.appended) == Some((value(item), e.appended.len()))
            },
    ensures
        encodable(codec, items),
        frames_in(parse, encoded(codec, items)) == items.map_values(value),
        rest_after(parse, encoded(codec, items)).len() == 0,
    decreases items.len(),
{
    if items.len() == 0 {
        // A frame takes at least one byte, so no bytes hold no frame.
        assert(parse(Seq::<u8>::empty()) is None);
    } else {
        // The first frame is found whatever follows it, and what follows
        // it is the encoding of the other items.
        let e = codec.encode_spec(items.first());
        let tail = encoded(e.codec, items.drop_first());
        lemma_encoded_frames(parse, value, inv, e.codec, items.drop_first());
        assert((e.appended + tail).skip(e.appended.len() as int) =~= tail);
    }
}

/// Round trip. Let an encoder and a decoder be inverses: the decoder
/// decodes by a framing, and that framing finds every frame that the encoder
/// writes, with the value of the item that was encoded. Then an engine that
/// is fed the encoding of a sequence of items, cut into chunks in any way,
/// yields the values of those items, in order, and ends well.
pub proof fn lemma_round_trip<I, E: Encoder<I>, D: Decoder>(
    parse: spec_fn(Seq<u8>) -> Option<(D::Frame, nat)>,
    value: spec_fn(I) -> D::Frame,
    encoder_inv: spec_fn(E) -> bool,
    decoder_inv: spec_fn(D, Seq<u8>) -> bool,
    encoder: E,
    decoder: D,
    items: Seq<I>,
    chunks: Seq<Seq<u8>>,
    steps: nat,
)
    requires
        decodes_by::<D>(parse, decoder_inv),
        decoder_inv(decoder, Seq::<u8>::empty()),
        encoder_inv(encoder),
        forall|c: E, item: I| #[trigger]
            encoder_inv(c) ==> {
                let e = #[trigger] c.encode_spec(item);
                &&& e.result is Ok
                &&& encoder_inv(e.codec)
                &&& parse(e.appended) == Some((value(item), e.appended.len()))
            },
        chunks.flatten() == encoded(encoder, items),
        forall|i: int| 0 <= i < chunks.len() ==> (#[trigger] chunks[i]).len() > 0,
        steps >= items.len() + chunks.len() + 2,
    ensures
        run(initial::<D, D::Error>(decoder), chunks, steps) == (Run {
            frames: items.map_values(value),
            ending: Ending::<D::Error>::Ended,
        }),
{
    lemma_encoded_frames(parse, value, encoder_inv, encoder, items);
    lemma_chunking_invariance::<D>(parse, decoder_inv, decoder, chunks, steps);
}

/// The pieces of a buffer once its first `n` bytes are gone: whole pieces
/// leave at the front, and the piece that `n` ends in loses its front.
pub open spec fn advanced(pieces: Seq<Seq<u8>>, n: nat) -> Seq<Seq<u8>>
    decreases pieces.len(),
{
    if pieces.len() == 0 {
        pieces
    } else if n >= pieces.first().len() {
        advanced(pieces.drop_first(), (n - pieces.first().len()) as nat)
    } else {
        seq![pieces.first().skip(n as int)] + pieces.drop_first()
    }
}

/// What a flush has written, and the pieces it leaves, for a buffer that
/// holds its bytes in any number of pieces.
pub struct Drained {
    pub written: Seq<u8>,
    pub left: Seq<Seq<u8>>,
}

/// The flush of a buffer whose bytes lie in `pieces`, by write attempts
/// that each offer the first `MAX_BUFS` pieces and find the I/O object
/// willing to accept `accepted[0]` bytes, then `accepted[1]`, and so on.
pub open spec fn vectored_flush(pieces: Seq<Seq<u8>>, accepted: Seq<usize>) -> Drained
    decreases accepted.len(),
{
    if accepted.len() == 0 || pieces.flatten().len() == 0 {
        Drained { written: Seq::empty(), left: pieces }
    } else {
        let n = taken(offered(pieces), accepted.first());
        let rest = vectored_flush(advanced(pieces, n as nat), accepted.drop_first());
        Drained { written: offered(pieces).take(n as int) + rest.written, left: rest.left }
    }
}

/// Whether none of the pieces is empty.
pub open spec fn no_empty_piece(pieces: Seq<Seq<u8>>) -> bool {
    forall|i: int| 0 <= i < pieces.len() ==> (#[trigger] pieces[i]).len() > 0
}

/// Taking bytes from the front of a buffer takes them from the front of
/// its pieces, and leaves no piece empty that was not.
pub proof fn lemma_advanced(pieces: Seq<Seq<u8>>, n: nat)
    requires
        n <= pieces.flatten().len(),
    ensures
        advanced(pieces, n).flatten() == pieces.flatten().skip(n as int),
        no_empty_piece(pieces) ==> no_empty_piece(advanced(pieces, n)),
    decreases pieces.len(),
{
    if pieces.len() > 0 {
        let first = pieces.first();
        let others = pieces.drop_first();
        if n >= first.len() {
            // The first piece goes as a whole.
            lemma_advanced(others, (n - first.len()) as nat);
        } else {
            // The first piece loses its front, and the others stay.
            let cut = seq![first.skip(n as int)] + others;
            assert(cut.drop_first() =~= others);
        }
    }
}

/// What an attempt offers lies at the front of the buffer, and is not
/// empty unless the buffer is.
pub proof fn lemma_offered(pieces: Seq<Seq<u8>>)
    requires
        no_empty_piece(pieces),
    ensures
        offered(pieces).len() <= pieces.flatten().len(),
        offered(pieces) == pieces.flatten().take(offered(pieces).len() as int),
        pieces.flatten().len() > 0 ==> offered(pieces).len() > 0,
{
    let shown = vectored(pieces, MAX_BUFS as nat);
    if pieces.len() > MAX_BUFS {
        // The pieces are those that are shown, then those that are not.
        let hidden = pieces.skip(MAX_BUFS as int);
        assert(shown + hidden =~= pieces);
        vstd::seq_lib::lemma_flatten_concat(shown, hidden);
    }
    if pieces.flatten().len() > 0 {
        // The first piece is shown, and it is not empty.
        shown.lemma_flatten_length_ge_single_element_length(0);
    }
}

/// The cap on the pieces of one attempt does not keep a flush from
/// draining the buffer. Let a buffer hold its bytes in any number of pieces,
/// be it more than `MAX_BUFS`, none of them empty. If the I/O object accepts
/// at least one byte of what it is offered at every attempt, then after as
/// many attempts as the buffer holds bytes, at the latest, all the bytes have
/// been written, in order, and none is left.
pub proof fn lemma_capped_flush_drains(pieces: Seq<Seq<u8>>, accepted: Seq<usize>)
    requires
        no_empty_piece(pieces),
        forall|i: int| 0 <= i < accepted.len() ==> #[trigger] accepted[i] >= 1,
        accepted.len() >= pieces.flatten().len(),
    ensures
        vectored_flush(pieces, accepted).written == pieces.flatten(),
        vectored_flush(pieces, accepted).left.flatten().len() == 0,
    decreases accepted.len(),
{
    if accepted.len() > 0 && pieces.flatten().len() > 0 {
        // The attempt is offered at least one byte and gets at least one
        // through; what it leaves is a buffer of the same kind, with fewer
        // bytes.
        lemma_offered(pieces);
        let n = taken(offered(pieces), accepted.first());
        lemma_advanced(pieces, n as nat);
        lemma_capped_flush_drains(advanced(pieces, n as nat), accepted.drop_first());
    }
}

} // verus!
