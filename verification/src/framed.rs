//! The framing engine: the state machine between a byte stream and a codec.
//!
//! The engine owns a codec, a buffer of bytes that were read and not yet
//! decoded, and a buffer of bytes that were encoded and not yet written. It
//! decides; it does no I/O. On the read side `poll_next` either settles the
//! call (a frame, the end of the sequence, a failure) or asks for one read
//! attempt, whose report goes to `read_done`. On the write side `start_send`
//! only buffers; `poll_flush` and `poll_close` ask for write attempts, whose
//! reports go to `write_done`, until the buffer is drained.
//!
//! Every operation is described by a specification function on the engine's
//! view, and does exactly what that function says.

use crate::buf::{contents, has_remaining, max_len};
use crate::codec::{Decoder, Encoder, FromIo};
use crate::util::{
    delivered, poll_read_buf, poll_write_buf, read_window, write_window, written_from, Attempt,
};
use bytes::BytesMut;
use vstd::prelude::*;

verus! {

/// What the engine is, mathematically.
pub struct FramedView<U, E> {
    /// The codec, in its current state.
    pub codec: U,
    /// The bytes read and not yet decoded.
    pub read_buffer: Seq<u8>,
    /// The bytes encoded and not yet written.
    pub write_buffer: Seq<u8>,
    /// The source has reported that it has no more data.
    pub eof: bool,
    /// The read buffer may hold a frame: decoding comes before reading.
    pub is_readable: bool,
    /// The caller has asked for another read after the end of the sequence.
    pub retry: bool,
    /// The error that ended the read direction, if one did and it has not
    /// been taken out.
    pub read_error: Option<E>,
    /// The read direction has failed.
    pub read_failed: bool,
    /// The write direction has failed.
    pub write_failed: bool,
}

/// How a call of `poll_next` ends.
#[derive(Debug)]
pub enum Next<T> {
    /// The next frame of the sequence.
    Frame(T),
    /// The sequence has ended.
    End,
    /// The read direction has failed; the engine holds the error.
    Failed,
    /// Nothing is settled: one read attempt is to be made and reported to
    /// `read_done`.
    Read,
}

/// How a call of `poll_flush` ends.
#[derive(Clone, Copy, Debug, PartialEq, Eq)]
pub enum Flush {
    /// Bytes are waiting: one write attempt is to be made and reported to
    /// `write_done`.
    Write,
    /// Nothing is waiting: the flush is complete.
    Done,
    /// The write direction has failed.
    Failed,
}

/// How a call of `poll_close` ends.
#[derive(Clone, Copy, Debug, PartialEq, Eq)]
pub enum Close {
    /// Bytes are waiting: one write attempt is to be made and reported to
    /// `write_done`.
    Write,
    /// Nothing is waiting: the I/O object is to be shut down.
    Shutdown,
    /// The write direction has failed.
    Failed,
}

/// Why a frame was not accepted for sending.
#[derive(Debug)]
pub enum SendError<E> {
    /// The codec could not encode the frame.
    Encode(E),
    /// The write direction had failed before.
    Failed,
}

/// A result of `poll_next`, with the frame replaced by what `frame` makes of
/// it.
pub open spec fn next_with_frames<I, F>(next: Next<I>, frame: spec_fn(I) -> F) -> Next<F> {
    match next {
        Next::Frame(item) => Next::Frame(frame(item)),
        Next::End => Next::End,
        Next::Failed => Next::Failed,
        Next::Read => Next::Read,
    }
}

/// The engine as `new` makes it: nothing buffered, nothing read yet.
pub open spec fn initial<U, E>(codec: U) -> FramedView<U, E> {
    FramedView {
        codec,
        read_buffer: Seq::empty(),
        write_buffer: Seq::empty(),
        eof: false,
        is_readable: false,
        retry: false,
        read_error: None,
        read_failed: false,
        write_failed: false,
    }
}

/// What `poll_next` does: the engine afterwards, and how the call ends.
///
/// A failed read direction stays failed. While the buffer may hold a frame,
/// the codec decodes, the end-of-stream way once the source has run dry; a
/// frame settles the call at once, without a read. When the codec needs more
/// data, the buffer stops counting as readable: before the source has run
/// dry that asks for a read, after it that is the end of the sequence, and
/// the end stands until a retry is asked for after it. A decoding error ends
/// the read direction.
pub open spec fn next_spec<U: Decoder>(v: FramedView<U, U::Error>) -> (
    FramedView<U, U::Error>,
    Next<U::Frame>,
) {
    if v.read_failed {
        (v, Next::Failed)
    } else if v.is_readable {
        let d = if v.eof {
            v.codec.decode_eof_spec(v.read_buffer)
        } else {
            v.codec.decode_spec(v.read_buffer)
        };
        let w = FramedView { codec: d.codec, read_buffer: d.rest, ..v };
        match d.result {
            Ok(Some(frame)) => (w, Next::Frame(frame)),
            Ok(None) => (
                FramedView { is_readable: false, retry: false, ..w },
                if v.eof {
                    Next::End
                } else {
                    Next::Read
                },
            ),
            Err(e) => (
                FramedView { is_readable: false, read_failed: true, read_error: Some(e), ..w },
                Next::Failed,
            ),
        }
    } else if v.eof && !v.retry {
        (v, Next::End)
    } else {
        (v, Next::Read)
    }
}

/// What `read_done` does.
///
/// A pending attempt changes nothing. Bytes that were delivered are
/// buffered and make the buffer readable. A read of zero bytes means that
/// the source has run dry: the first one makes the buffer readable once
/// more, for the decoding at the end of the stream; one that comes when the
/// source was dry already changes nothing but to use up the retry. An I/O
/// failure ends the read direction, as the codec's error for it.
pub open spec fn read_done_spec<U: Decoder>(
    v: FramedView<U, U::Error>,
    attempt: Attempt<Seq<u8>>,
) -> FramedView<U, U::Error> {
    if v.read_failed {
        v
    } else {
        match attempt {
            Attempt::Pending => v,
            Attempt::Ready(data) => if data.len() == 0 {
                if v.eof {
                    FramedView { retry: false, ..v }
                } else {
                    FramedView { eof: true, is_readable: true, retry: false, ..v }
                }
            } else {
                FramedView {
                    read_buffer: v.read_buffer + data,
                    eof: false,
                    is_readable: true,
                    retry: false,
                    ..v
                }
            },
            Attempt::Failed(e) => FramedView {
                is_readable: false,
                read_failed: true,
                read_error: Some(U::Error::from_io_spec(e)),
                ..v
            },
        }
    }
}

/// What `retry` does: after the end of the sequence it lets the next
/// `poll_next` ask for a read; at any other time it does nothing.
pub open spec fn retry_spec<U, E>(v: FramedView<U, E>) -> FramedView<U, E> {
    if v.eof && !v.is_readable && !v.read_failed {
        FramedView { retry: true, ..v }
    } else {
        v
    }
}

/// What `start_send` does: the engine afterwards, and what the call
/// returns.
///
/// A failed write direction takes nothing. Otherwise the codec encodes the
/// frame onto the end of the write buffer; if it cannot, the write direction
/// has failed.
pub open spec fn start_send_spec<I, U: Encoder<I>, E>(v: FramedView<U, E>, item: I) -> (
    FramedView<U, E>,
    Result<(), SendError<<U as Encoder<I>>::Error>>,
) {
    if v.write_failed {
        (v, Err(SendError::Failed))
    } else {
        let e = v.codec.encode_spec(item);
        let w = FramedView { codec: e.codec, write_buffer: v.write_buffer + e.appended, ..v };
        match e.result {
            Ok(_) => (w, Ok(())),
            Err(err) => (FramedView { write_failed: true, ..w }, Err(SendError::Encode(err))),
        }
    }
}

/// What `poll_flush` answers: a write attempt is due as long as bytes are
/// waiting.
pub open spec fn flush_spec<U, E>(v: FramedView<U, E>) -> Flush {
    if v.write_failed {
        Flush::Failed
    } else if v.write_buffer.len() > 0 {
        Flush::Write
    } else {
        Flush::Done
    }
}

/// What `poll_close` answers: a close flushes first, and shuts the I/O
/// object down once nothing is waiting.
pub open spec fn close_spec<U, E>(v: FramedView<U, E>) -> Close {
    match flush_spec(v) {
        Flush::Write => Close::Write,
        Flush::Done => Close::Shutdown,
        Flush::Failed => Close::Failed,
    }
}

/// What `write_done` does: the bytes that were accepted leave the write
/// buffer at the front; a pending attempt changes nothing; an I/O failure
/// ends the write direction.
pub open spec fn write_done_spec<U, E>(v: FramedView<U, E>, attempt: Attempt<usize>) -> FramedView<
    U,
    E,
> {
    if v.write_failed {
        v
    } else {
        match attempt {
            Attempt::Failed(_) => FramedView { write_failed: true, ..v },
            _ => FramedView { write_buffer: written_from(v.write_buffer, attempt), ..v },
        }
    }
}

/// The two directions fail apart. What the read side does leaves the write
/// buffer and the state of the write direction alone, and what the write
/// side does leaves the read buffer and the state of the read direction
/// alone. All they share is the codec.
pub proof fn lemma_directions_apart<I, U: Decoder + Encoder<I>>(
    v: FramedView<U, <U as Decoder>::Error>,
    read: Attempt<Seq<u8>>,
    item: I,
    write: Attempt<usize>,
)
    ensures
        next_spec(v).0 == (FramedView {
            write_buffer: v.write_buffer,
            write_failed: v.write_failed,
            ..next_spec(v).0
        }),
        read_done_spec(v, read) == (FramedView {
            write_buffer: v.write_buffer,
            write_failed: v.write_failed,
            codec: v.codec,
            ..read_done_spec(v, read)
        }),
        start_send_spec(v, item).0 == (FramedView {
            codec: start_send_spec(v, item).0.codec,
            write_buffer: start_send_spec(v, item).0.write_buffer,
            write_failed: start_send_spec(v, item).0.write_failed,
            ..v
        }),
        write_done_spec(v, write) == (FramedView {
            write_buffer: write_done_spec(v, write).write_buffer,
            write_failed: write_done_spec(v, write).write_failed,
            ..v
        }),
{
}

/// The room that a new engine makes in each of its buffers.
pub const INITIAL_CAPACITY: usize = 8 * 1024;

/// The framing engine around a codec `U`.
pub struct Framed<U: Decoder> {
    codec: U,
    read_buffer: BytesMut,
    write_buffer: BytesMut,
    eof: bool,
    is_readable: bool,
    retry: bool,
    read_error: Option<U::Error>,
    read_failed: bool,
    write_failed: bool,
}

impl<U: Decoder> View for Framed<U> {
    type V = FramedView<U, U::Error>;

    closed spec fn view(&self) -> FramedView<U, U::Error> {
        FramedView {
            codec: self.codec,
            read_buffer: contents(&self.read_buffer),
            write_buffer: contents(&self.write_buffer),
            eof: self.eof,
            is_readable: self.is_readable,
            retry: self.retry,
            read_error: self.read_error,
            read_failed: self.read_failed,
            write_failed: self.write_failed,
        }
    }
}

impl<U: Decoder> Framed<U> {
    /// Creates an engine around `codec`, with nothing buffered.
    pub fn new(codec: U) -> (framed: Framed<U>)
        ensures
            framed@ == initial::<U, U::Error>(codec),
    {
        Framed {
            codec,
            read_buffer: BytesMut::with_capacity(INITIAL_CAPACITY),
            write_buffer: BytesMut::with_capacity(INITIAL_CAPACITY),
            eof: false,
            is_readable: false,
            retry: false,
            read_error: None,
            read_failed: false,
            write_failed: false,
        }
    }

    /// Takes one step towards the next frame.
    ///
    /// The call is settled by a frame, by the end of the sequence or by a
    /// failure, or it asks for one read attempt. A frame that the buffer
    /// already holds is returned without a read. Once the sequence has ended
    /// or failed, every further call says so again, and asks for no read.
    pub fn poll_next(&mut self) -> (next: Next<U::Item>)
        ensures
            final(self)@ == next_spec(old(self)@).0,
            next_with_frames(next, |item: U::Item| U::frame(item)) == next_spec(old(self)@).1,
    {
        if self.read_failed {
            return Next::Failed;
        }
        if self.is_readable {
            let decoded = if self.eof {
                self.codec.decode_eof(&mut self.read_buffer)
            } else {
                self.codec.decode(&mut self.read_buffer)
            };
            match decoded {
                Ok(Some(frame)) => Next::Frame(frame),
                Ok(None) => {
                    self.is_readable = false;
                    self.retry = false;
                    if self.eof {
                        Next::End
                    } else {
                        Next::Read
                    }
                },
                Err(e) => {
                    self.is_readable = false;
                    self.read_failed = true;
                    self.read_error = Some(e);
                    Next::Failed
                },
            }
        } else if self.eof && !self.retry {
            Next::End
        } else {
            Next::Read
        }
    }

    /// Says how many bytes the read attempt that `poll_next` asked for may
    /// deliver, and makes room for them. Zero means that the read buffer
    /// cannot grow: no attempt is to be made, and zero bytes are to be
    /// reported.
    pub fn read_window(&mut self) -> (n: usize)
        ensures
            final(self)@ == old(self)@,
            n == 0 <==> old(self)@.read_buffer.len() == max_len(),
            old(self)@.read_buffer.len() + n <= max_len(),
    {
        read_window(&mut self.read_buffer)
    }

    /// Takes in what the read attempt reported.
    ///
    /// Nothing changes while the attempt is pending, so a task that is
    /// dropped while it waits loses nothing.
    pub fn read_done(&mut self, attempt: Attempt<&[u8]>)
        requires
            attempt matches Attempt::Ready(data) ==> old(self)@.read_buffer.len() + data@.len()
                <= max_len(),
        ensures
            final(self)@ == read_done_spec(old(self)@, delivered(attempt)),
    {
        if self.read_failed {
            return ;
        }
        match poll_read_buf(attempt, &mut self.read_buffer) {
            Attempt::Pending => {},
            Attempt::Ready(n) => {
                if n == 0 {
                    if !self.eof {
                        self.eof = true;
                        self.is_readable = true;
                    }
                } else {
                    self.eof = false;
                    self.is_readable = true;
                }
                self.retry = false;
            },
            Attempt::Failed(e) => {
                self.is_readable = false;
                self.read_failed = true;
                self.read_error = Some(U::Error::from_io(e));
            },
        }
    }

    /// Asks for another read after the end of the sequence, for a source
    /// that may have more to give later. At any other time this does
    /// nothing.
    pub fn retry(&mut self)
        ensures
            final(self)@ == retry_spec(old(self)@),
    {
        if self.eof && !self.is_readable && !self.read_failed {
            self.retry = true;
        }
    }

    /// Accepts a frame for sending: the codec encodes it onto the end of the
    /// write buffer. Nothing is written. An encoding error is reported at
    /// once and ends the write direction.
    pub fn start_send<I>(&mut self, item: I) -> (r: Result<
        (),
        SendError<<U as Encoder<I>>::Error>,
    >) where U: Encoder<I>
        requires
            !old(self)@.write_failed ==> old(self)@.write_buffer.len() + old(
                self,
            )@.codec.encode_spec(item).appended.len() <= max_len(),
        ensures
            final(self)@ == start_send_spec(old(self)@, item).0,
            r == start_send_spec(old(self)@, item).1,
    {
        if self.write_failed {
            return Err(SendError::Failed);
        }
        match self.codec.encode(item, &mut self.write_buffer) {
            Ok(()) => Ok(()),
            Err(e) => {
                self.write_failed = true;
                Err(SendError::Encode(e))
            },
        }
    }

    /// Takes one step of a flush: asks for a write attempt while bytes are
    /// waiting, and is done when none are.
    pub fn poll_flush(&self) -> (r: Flush)
        ensures
            r == flush_spec(self@),
    {
        if self.write_failed {
            Flush::Failed
        } else if has_remaining(&self.write_buffer) {
            Flush::Write
        } else {
            Flush::Done
        }
    }

    /// Takes one step of a close: flushes as `poll_flush` does, and asks for
    /// the shutdown of the I/O object when nothing is waiting.
    pub fn poll_close(&self) -> (r: Close)
        ensures
            r == close_spec(self@),
    {
        match self.poll_flush() {
            Flush::Write => Close::Write,
            Flush::Done => Close::Shutdown,
            Flush::Failed => Close::Failed,
        }
    }

    /// The bytes that the write attempt offers to the I/O object: all that
    /// is waiting.
    pub fn write_window(&self) -> (offer: &[u8])
        ensures
            offer@ == self@.write_buffer,
    {
        write_window(&self.write_buffer)
    }

    /// Takes in what the write attempt reported, and passes the report on.
    ///
    /// Bytes that were not accepted stay in the buffer, whether the attempt
    /// is pending or went through in part.
    pub fn write_done(&mut self, attempt: Attempt<usize>) -> (r: Attempt<usize>)
        requires
            attempt matches Attempt::Ready(n) ==> n <= old(self)@.write_buffer.len(),
        ensures
            final(self)@ == write_done_spec(old(self)@, attempt),
            r == attempt,
    {
        if self.write_failed {
            return attempt;
        }
        let r = poll_write_buf(attempt, &mut self.write_buffer);
        if let Attempt::Failed(_) = &r {
            self.write_failed = true;
        }
        r
    }

    /// The number of bytes that are encoded and not yet written. A caller
    /// that wants to bound the memory taken by frames in flight throttles on
    /// this.
    pub fn write_buffer_len(&self) -> (n: usize)
        ensures
            n == self@.write_buffer.len(),
    {
        self.write_buffer.len()
    }

    /// The codec.
    pub fn codec(&self) -> (codec: &U)
        ensures
            *codec == self@.codec,
    {
        &self.codec
    }

    /// The bytes read and not yet decoded.
    pub fn read_buffer(&self) -> (buf: &BytesMut)
        ensures
            contents(buf) == self@.read_buffer,
    {
        &self.read_buffer
    }

    /// The error that ended the read direction, if one did and it has not
    /// been taken out.
    pub fn read_error(&self) -> (e: Option<&U::Error>)
        ensures
            e == (match self@.read_error {
                Some(err) => Some(&err),
                None => None,
            }),
    {
        self.read_error.as_ref()
    }

    /// Takes out the error that ended the read direction. The direction
    /// stays failed.
    pub fn take_read_error(&mut self) -> (e: Option<U::Error>)
        ensures
            e == old(self)@.read_error,
            final(self)@ == (FramedView { read_error: None, ..old(self)@ }),
    {
        self.read_error.take()
    }
}

} // verus!
