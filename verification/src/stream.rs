//! Whole runs of the read side, and what they yield.
//!
//! A run polls the engine for frame after frame. Each read that the engine
//! asks for delivers the next chunk of the input, and zero bytes once the
//! chunks are used up. The theorems here say what comes out of such a run,
//! in terms of the bytes that went in.

use crate::codec::{eof_policy, trailing_bytes, Decoder, FromIo};
use crate::framed::{initial, next_spec, read_done_spec, retry_spec, FramedView, Next};
use crate::util::Attempt;
use vstd::prelude::*;

verus! {

/// How a run ended.
pub enum Ending<E> {
    /// With the end of the sequence.
    Ended,
    /// With the failure of the read direction, the engine holding this
    /// error.
    Failed(Option<E>),
    /// Not at all: the run was cut short.
    Unfinished,
}

/// What a run yielded: the frames, in order, and how it ended.
pub struct Run<F, E> {
    pub frames: Seq<F>,
    pub ending: Ending<E>,
}

/// The run of at most `steps` calls of `poll_next` on the engine `v`, over
/// an input that arrives as `chunks`.
pub open spec fn run<U: Decoder>(v: FramedView<U, U::Error>, chunks: Seq<Seq<u8>>, steps: nat) -> Run<
    U::Frame,
    U::Error,
>
    decreases steps,
{
    if steps == 0 {
        Run { frames: Seq::empty(), ending: Ending::Unfinished }
    } else {
        let (w, next) = next_spec(v);
        match next {
            Next::Frame(frame) => {
                let tail = run(w, chunks, (steps - 1) as nat);
                Run { frames: seq![frame] + tail.frames, ending: tail.ending }
            },
            Next::End => Run { frames: Seq::empty(), ending: Ending::Ended },
            Next::Failed => Run { frames: Seq::empty(), ending: Ending::Failed(w.read_error) },
            Next::Read => if chunks.len() == 0 {
                run(
                    read_done_spec(w, Attempt::Ready(Seq::<u8>::empty())),
                    chunks,
                    (steps - 1) as nat,
                )
            } else {
                run(
                    read_done_spec(w, Attempt::Ready(chunks.first())),
                    chunks.drop_first(),
                    (steps - 1) as nat,
                )
            },
        }
    }
}

/// A framing is sound if a frame takes at least one byte and no more than
/// there are, and if a frame that is whole stays the same frame whatever
/// bytes follow it.
pub open spec fn framing_wf<F>(parse: spec_fn(Seq<u8>) -> Option<(F, nat)>) -> bool {
    &&& forall|b: Seq<u8>| (#[trigger] parse(b)) is Some ==> 1 <= parse(b).unwrap().1 <= b.len()
    &&& forall|b: Seq<u8>, x: Seq<u8>|
        parse(b) is Some ==> #[trigger] parse(b + x) == parse(b)
}

/// The frames that `bytes` holds under a framing, taken from the front one
/// after the other.
pub open spec fn frames_in<F>(parse: spec_fn(Seq<u8>) -> Option<(F, nat)>, bytes: Seq<u8>) -> Seq<F>
    decreases bytes.len(),
{
    match parse(bytes) {
        Some((frame, n)) => if 1 <= n <= bytes.len() {
            seq![frame] + frames_in(parse, bytes.skip(n as int))
        } else {
            Seq::empty()
        },
        None => Seq::empty(),
    }
}

/// The bytes that are left of `bytes` once its frames are taken.
pub open spec fn rest_after<F>(parse: spec_fn(Seq<u8>) -> Option<(F, nat)>, bytes: Seq<u8>) -> Seq<
    u8,
>
    decreases bytes.len(),
{
    match parse(bytes) {
        Some((frame, n)) => if 1 <= n <= bytes.len() {
            rest_after(parse, bytes.skip(n as int))
        } else {
            bytes
        },
        None => bytes,
    }
}

/// A codec decodes by a framing if, in every state that `inv` admits with a
/// buffer, `decode` returns the frame that the framing finds at the front of
/// the buffer and removes its bytes, or asks for more data and leaves the
/// buffer alone where the framing finds none; if `decode_eof` follows the
/// default policy; and if `inv` admits the state that the codec moves to, and
/// still admits a state when bytes are added to the buffer.
pub open spec fn decodes_by<U: Decoder>(
    parse: spec_fn(Seq<u8>) -> Option<(U::Frame, nat)>,
    inv: spec_fn(U, Seq<u8>) -> bool,
) -> bool {
    &&& framing_wf(parse)
    &&& forall|c: U, b: Seq<u8>| #[trigger]
        inv(c, b) ==> {
            let d = c.decode_spec(b);
            &&& inv(d.codec, d.rest)
            &&& c.decode_eof_spec(b) == eof_policy(d)
            &&& match parse(b) {
                Some((frame, n)) => d.result == Ok::<Option<U::Frame>, U::Error>(Some(frame))
                    && d.rest == b.skip(n as int),
                None => d.result == Ok::<Option<U::Frame>, U::Error>(None) && d.rest == b,
            }
        }
    &&& forall|c: U, b: Seq<u8>, x: Seq<u8>| inv(c, b) ==> #[trigger] inv(c, b + x)
}

/// How a run ends when `rest` is what is left of the input: well if nothing
/// is left, and with the error for trailing bytes otherwise.
pub open spec fn ending_with<E: FromIo>(rest: Seq<u8>) -> Ending<E> {
    if rest.len() == 0 {
        Ending::Ended
    } else {
        Ending::Failed(Some(E::from_io_spec(trailing_bytes())))
    }
}

/// The number of steps that certainly suffice for a run to end: one for each
/// frame, one for each chunk, and one or two to find the end.
pub open spec fn enough_steps<U: Decoder>(
    parse: spec_fn(Seq<u8>) -> Option<(U::Frame, nat)>,
    v: FramedView<U, U::Error>,
    chunks: Seq<Seq<u8>>,
) -> nat {
    frames_in(parse, v.read_buffer + chunks.flatten()).len() + chunks.len() + if v.eof {
        1nat
    } else {
        2nat
    }
}

/// A run from any state of an engine whose codec decodes by a framing
/// yields the frames of all the bytes still to come: those in the buffer,
/// then the chunks in their order. How the bytes are cut into chunks makes
/// no difference.
pub proof fn lemma_run_from<U: Decoder>(
    parse: spec_fn(Seq<u8>) -> Option<(U::Frame, nat)>,
    inv: spec_fn(U, Seq<u8>) -> bool,
    v: FramedView<U, U::Error>,
    chunks: Seq<Seq<u8>>,
    steps: nat,
)
    requires
        decodes_by::<U>(parse, inv),
        inv(v.codec, v.read_buffer),
        !v.read_failed,
        v.eof ==> v.is_readable && chunks.len() == 0,
        forall|i: int| 0 <= i < chunks.len() ==> (#[trigger] chunks[i]).len() > 0,
        steps >= enough_steps::<U>(parse, v, chunks),
    ensures
        run(v, chunks, steps).frames == frames_in(parse, v.read_buffer + chunks.flatten()),
        run(v, chunks, steps).ending == ending_with::<U::Error>(
            rest_after(parse, v.read_buffer + chunks.flatten()),
        ),
    decreases steps, 1nat,
{
    let b = v.read_buffer;
    let w = next_spec(v).0;
    if !v.is_readable {
        // Nothing to decode: the engine asks for a read as it is.
        lemma_read_from::<U>(parse, inv, v, chunks, steps);
    } else if let Some((frame, n)) = parse(b) {
        // A frame comes out, and the run goes on with the bytes behind it.
        assert((b + chunks.flatten()).skip(n as int) =~= b.skip(n as int) + chunks.flatten());
        lemma_run_from::<U>(parse, inv, w, chunks, (steps - 1) as nat);
    } else if !v.eof {
        // No frame yet: the engine asks for a read in the same step.
        lemma_read_from::<U>(parse, inv, w, chunks, steps);
    }
    // Otherwise no frame is left at the end of the stream, and the run ends
    // well or with the error for trailing bytes, as the buffer is empty or
    // not.
}

/// The part of a run that begins with a read: the engine asks for one and
/// is given the next chunk, or the news that there is none.
proof fn lemma_read_from<U: Decoder>(
    parse: spec_fn(Seq<u8>) -> Option<(U::Frame, nat)>,
    inv: spec_fn(U, Seq<u8>) -> bool,
    w: FramedView<U, U::Error>,
    chunks: Seq<Seq<u8>>,
    steps: nat,
)
    requires
        decodes_by::<U>(parse, inv),
        inv(w.codec, w.read_buffer),
        !w.read_failed,
        !w.eof,
        !w.is_readable,
        forall|i: int| 0 <= i < chunks.len() ==> (#[trigger] chunks[i]).len() > 0,
        steps >= frames_in(parse, w.read_buffer + chunks.flatten()).len() + chunks.len() + 2,
    ensures
        ({
            let after = if chunks.len() == 0 {
                run(
                    read_done_spec(w, Attempt::Ready(Seq::<u8>::empty())),
                    chunks,
                    (steps - 1) as nat,
                )
            } else {
                run(
                    read_done_spec(w, Attempt::Ready(chunks.first())),
                    chunks.drop_first(),
                    (steps - 1) as nat,
                )
            };
            &&& after.frames == frames_in(parse, w.read_buffer + chunks.flatten())
            &&& after.ending == ending_with::<U::Error>(
                rest_after(parse, w.read_buffer + chunks.flatten()),
            )
        }),
    decreases steps, 0nat,
{
    let b = w.read_buffer;
    let less = (steps - 1) as nat;
    if chunks.len() == 0 {
        // The source has run dry: what is buffered is decoded the
        // end-of-stream way.
        let closing = read_done_spec(w, Attempt::Ready(Seq::<u8>::empty()));
        lemma_run_from::<U>(parse, inv, closing, chunks, less);
    } else {
        // The next chunk joins the buffer, and the run goes on from there.
        let x = chunks.first();
        let fed = read_done_spec(w, Attempt::Ready(x));
        assert((b + x) + chunks.drop_first().flatten() =~= b + chunks.flatten());
        lemma_run_from::<U>(parse, inv, fed, chunks.drop_first(), less);
    }
}

/// Chunking invariance. Polled to the end, an engine whose codec decodes by
/// a framing yields the frames of the input and nothing else, in order, and
/// ends well if the input ends with a frame and with the error for trailing
/// bytes if it does not. The input is the chunks laid end to end: how it is
/// cut into chunks does not show in the result.
pub proof fn lemma_chunking_invariance<U: Decoder>(
    parse: spec_fn(Seq<u8>) -> Option<(U::Frame, nat)>,
    inv: spec_fn(U, Seq<u8>) -> bool,
    codec: U,
    chunks: Seq<Seq<u8>>,
    steps: nat,
)
    requires
        decodes_by::<U>(parse, inv),
        inv(codec, Seq::<u8>::empty()),
        forall|i: int| 0 <= i < chunks.len() ==> (#[trigger] chunks[i]).len() > 0,
        steps >= frames_in(parse, chunks.flatten()).len() + chunks.len() + 2,
    ensures
        run(initial::<U, U::Error>(codec), chunks, steps) == (Run {
            frames: frames_in(parse, chunks.flatten()),
            ending: ending_with::<U::Error>(rest_after(parse, chunks.flatten())),
        }),
{
    lemma_run_from::<U>(parse, inv, initial::<U, U::Error>(codec), chunks, steps);
}

/// Two inputs that are the same bytes, cut into chunks differently, give the
/// same run: the same frames in the same order, and the same ending.
pub proof fn lemma_same_bytes_same_run<U: Decoder>(
    parse: spec_fn(Seq<u8>) -> Option<(U::Frame, nat)>,
    inv: spec_fn(U, Seq<u8>) -> bool,
    codec: U,
    chunks: Seq<Seq<u8>>,
    other_chunks: Seq<Seq<u8>>,
    steps: nat,
    other_steps: nat,
)
    requires
        decodes_by::<U>(parse, inv),
        inv(codec, Seq::<u8>::empty()),
        chunks.flatten() == other_chunks.flatten(),
        forall|i: int| 0 <= i < chunks.len() ==> (#[trigger] chunks[i]).len() > 0,
        forall|i: int| 0 <= i < other_chunks.len() ==> (#[trigger] other_chunks[i]).len() > 0,
        steps >= frames_in(parse, chunks.flatten()).len() + chunks.len() + 2,
        other_steps >= frames_in(parse, chunks.flatten()).len() + other_chunks.len() + 2,
    ensures
        run(initial::<U, U::Error>(codec), chunks, steps) == run(
            initial::<U, U::Error>(codec),
            other_chunks,
            other_steps,
        ),
{
    lemma_chunking_invariance::<U>(parse, inv, codec, chunks, steps);
    lemma_chunking_invariance::<U>(parse, inv, codec, other_chunks, other_steps);
}

/// The end is final. Once `poll_next` has answered with the end of the
/// sequence or with a failure, the next call gives the same answer, changes
/// nothing, and asks for no read.
pub proof fn lemma_terminal_is_stable<U: Decoder>(v: FramedView<U, U::Error>)
    requires
        next_spec(v).1 is End || next_spec(v).1 is Failed,
    ensures
        next_spec(next_spec(v).0) == next_spec(v),
{
}

/// A read of zero bytes opens the decoding at the end of the stream once.
///
/// The first such read makes the next `poll_next` decode the end-of-stream
/// way, on the codec and the buffer as they are. Once that decoding has
/// come to the end of the sequence, another read of zero bytes, which only a
/// retry can bring about, leads straight back to the end: the codec is not
/// called and the buffer is not touched.
pub proof fn lemma_zero_read_decodes_once<U: Decoder>(v: FramedView<U, U::Error>)
    requires
        !v.read_failed,
    ensures
        !v.eof ==> ({
            let w = read_done_spec(v, Attempt::Ready(Seq::<u8>::empty()));
            let d = v.codec.decode_eof_spec(v.read_buffer);
            &&& w == FramedView { eof: true, is_readable: true, retry: false, ..v }
            &&& next_spec(w).0.codec == d.codec
            &&& next_spec(w).0.read_buffer == d.rest
        }),
        next_spec(v).1 is End ==> ({
            let ended = next_spec(v).0;
            let w = read_done_spec(retry_spec(ended), Attempt::Ready(Seq::<u8>::empty()));
            &&& next_spec(retry_spec(ended)) == (retry_spec(ended), Next::<U::Frame>::Read)
            &&& w == ended
            &&& next_spec(w) == (ended, Next::<U::Frame>::End)
        }),
{
}

/// Trailing bytes are an error. When the source has run dry, the codec
/// follows the default policy at the end of a stream and asks for more data
/// although bytes are left in the buffer, `poll_next` fails with the error
/// for trailing bytes. It does not end the sequence as if all were well.
pub proof fn lemma_trailing_bytes_fail<U: Decoder>(v: FramedView<U, U::Error>)
    requires
        !v.read_failed,
        v.is_readable,
        v.eof,
        v.codec.decode_eof_spec(v.read_buffer) == eof_policy(v.codec.decode_spec(v.read_buffer)),
        v.codec.decode_spec(v.read_buffer).result == Ok::<Option<U::Frame>, U::Error>(None),
        v.codec.decode_spec(v.read_buffer).rest.len() > 0,
    ensures
        next_spec(v).1 is Failed,
        next_spec(v).0.read_failed,
        next_spec(v).0.read_error == Some(U::Error::from_io_spec(trailing_bytes())),
{
}

/// A decoder that always asks for more data, run over an input that is not
/// empty, yields no frame and fails with the error for trailing bytes.
pub proof fn lemma_never_decoding_fails<U: Decoder>(codec: U, chunks: Seq<Seq<u8>>, steps: nat)
    requires
        forall|c: U, b: Seq<u8>|
            {
                &&& (#[trigger] c.decode_spec(b)).result == Ok::<Option<U::Frame>, U::Error>(None)
                &&& c.decode_spec(b).rest == b
            },
        forall|c: U, b: Seq<u8>| #[trigger] c.decode_eof_spec(b) == eof_policy(c.decode_spec(b)),
        chunks.len() > 0,
        forall|i: int| 0 <= i < chunks.len() ==> (#[trigger] chunks[i]).len() > 0,
        steps >= chunks.len() + 2,
    ensures
        run(initial::<U, U::Error>(codec), chunks, steps) == (Run {
            frames: Seq::<U::Frame>::empty(),
            ending: Ending::Failed(Some(U::Error::from_io_spec(trailing_bytes()))),
        }),
{
    let parse = |b: Seq<u8>| None::<(U::Frame, nat)>;
    let inv = |c: U, b: Seq<u8>| true;
    // The framing that never finds a frame is one that this codec decodes
    // by. Under it an input has no frames, and all of it is left over.
    assert(decodes_by::<U>(parse, inv));
    chunks.lemma_flatten_length_ge_single_element_length(0);
    lemma_chunking_invariance::<U>(parse, inv, codec, chunks, steps);
}

} // verus!
