//! The codec contract: how bytes become frames and frames become bytes.
//!
//! A codec is a state machine. Each of its operations is described by a
//! specification function of the codec's state and of the bytes it is given:
//! that function says which state the codec moves to, what happens to the
//! bytes, and what is returned. The executable methods promise to do just
//! that, so everything built on a codec can be stated exactly, whatever the
//! codec.

use crate::buf::{contents, max_len};
use bytes::BytesMut;
use vstd::prelude::*;

verus! {

#[verifier::external_type_specification]
#[verifier::external_body]
pub struct ExIoError(std::io::Error);

/// The error that `std::io::Error::new` builds from `ErrorKind::Other` and
/// a message.
pub uninterp spec fn other_io_error(msg: Seq<char>) -> std::io::Error;

/// `std::io::Error::new` with the kind `ErrorKind::Other`: an error of that
/// kind whose text is `msg`.
#[verifier::external_body]
pub(crate) fn new_other_io_error(msg: &str) -> (e: std::io::Error)
    ensures
        e == other_io_error(msg@),
{
    std::io::Error::new(std::io::ErrorKind::Other, msg)
}

/// The I/O error that stands for bytes left over at the end of a stream.
pub open spec fn trailing_bytes() -> std::io::Error {
    other_io_error("bytes remaining on stream"@)
}

/// An error type that an I/O failure can be turned into.
///
/// Every codec error is one: an I/O failure on the stream has to reach the
/// caller as the codec's own error.
pub trait FromIo: Sized {
    /// What `from_io` makes of `e`.
    spec fn from_io_spec(e: std::io::Error) -> Self;

    /// Turns an I/O failure into this error type.
    fn from_io(e: std::io::Error) -> (r: Self)
        ensures
            r == Self::from_io_spec(e),
    ;
}

impl FromIo for std::io::Error {
    open spec fn from_io_spec(e: std::io::Error) -> std::io::Error {
        e
    }

    fn from_io(e: std::io::Error) -> (r: std::io::Error) {
        e
    }
}

/// One decode attempt, in full: the state the codec moves to, the bytes it
/// leaves in the buffer, and what it returns.
pub struct Decoded<C, F, E> {
    pub codec: C,
    pub rest: Seq<u8>,
    pub result: Result<Option<F>, E>,
}

/// One encode attempt, in full: the state the codec moves to, the bytes it
/// appends to the buffer, and what it returns.
pub struct Encoded<C, E> {
    pub codec: C,
    pub appended: Seq<u8>,
    pub result: Result<(), E>,
}

/// What a decode at the end of the stream owes by default, given what an
/// ordinary decode did: a frame or an error stands; "need more data" stands
/// only if no byte is left, and is the trailing-bytes error otherwise.
pub open spec fn eof_policy<C, F, E: FromIo>(d: Decoded<C, F, E>) -> Decoded<C, F, E> {
    match d.result {
        Ok(None) => if d.rest.len() == 0 {
            d
        } else {
            Decoded { result: Err(E::from_io_spec(trailing_bytes())), ..d }
        },
        _ => d,
    }
}

/// A decode result, with the frame replaced by what `frame` makes of it.
pub open spec fn with_frames<I, F, E>(r: Result<Option<I>, E>, frame: spec_fn(I) -> F) -> Result<
    Option<F>,
    E,
> {
    match r {
        Ok(Some(item)) => Ok(Some(frame(item))),
        Ok(None) => Ok(None),
        Err(e) => Err(e),
    }
}

/// Decoding of frames via buffers.
///
/// A `Decoder` takes bytes that have been buffered in `src` and decodes them
/// into frames. It may keep state between calls, which makes stateful
/// streaming parsers possible.
///
/// Some sources, files and FIFOs among them, can report no more data for a
/// while and deliver more later. `decode_eof` is called when a source reports
/// no more data, until it returns `Ok(None)`; after that no decoding takes
/// place until a read has delivered bytes again. How to go on after such a
/// restart is the decoder's business.
pub trait Decoder: Sized {
    /// The type of decoded frames.
    type Item;

    /// The type of unrecoverable frame decoding errors.
    ///
    /// A message that is ill-formed but does not get in the way of the
    /// messages after it may be better reported as an `Item`.
    type Error: FromIo;

    /// What a frame is, mathematically.
    type Frame;

    /// The mathematical value of a decoded frame.
    spec fn frame(item: Self::Item) -> Self::Frame;

    /// What `decode` does in this state when the buffer holds `src`.
    spec fn decode_spec(&self, src: Seq<u8>) -> Decoded<Self, Self::Frame, Self::Error>;

    /// What `decode_eof` does in this state when the buffer holds `src`. By
    /// default it is `decode` followed by the check for trailing bytes.
    open spec fn decode_eof_spec(&self, src: Seq<u8>) -> Decoded<Self, Self::Frame, Self::Error> {
        eof_policy(self.decode_spec(src))
    }

    /// Attempts to decode a frame from the provided buffer of bytes.
    ///
    /// If a whole frame is available, it is removed from the buffer and
    /// returned. If the bytes look valid but the frame is not complete,
    /// `Ok(None)` is returned: more bytes have to be read before the next
    /// call. The buffer may be empty. If the bytes are malformed, an error
    /// says why, and the stream is to be given up.
    fn decode(&mut self, src: &mut BytesMut) -> (r: Result<Option<Self::Item>, Self::Error>)
        ensures
            *final(self) == old(self).decode_spec(contents(old(src))).codec,
            contents(final(src)) == old(self).decode_spec(contents(old(src))).rest,
            with_frames(r, |item: Self::Item| Self::frame(item)) == old(self).decode_spec(
                contents(old(src)),
            ).result,
    ;

    /// Attempts to decode a frame when the source has no more bytes to give.
    ///
    /// A decoder that has nothing special to do at the end of a stream calls
    /// `decode` and hands the result to [`decode_eof_default`]. One whose
    /// framing differs near the end, or whose frames may span the boundary of
    /// a source that can be resumed, does its own work and describes it in
    /// `decode_eof_spec`.
    ///
    /// The buffer may be empty: after a call has emptied it, another follows,
    /// until one returns `Ok(None)`. That lets a decoder close a stream with
    /// frames that no input stands for.
    fn decode_eof(&mut self, buf: &mut BytesMut) -> (r: Result<Option<Self::Item>, Self::Error>)
        ensures
            *final(self) == old(self).decode_eof_spec(contents(old(buf))).codec,
            contents(final(buf)) == old(self).decode_eof_spec(contents(old(buf))).rest,
            with_frames(r, |item: Self::Item| Self::frame(item)) == old(self).decode_eof_spec(
                contents(old(buf)),
            ).result,
    ;
}

/// Decodes at the end of a stream the default way, given what `decode` has
/// just returned and the buffer as `decode` left it.
///
/// A frame is passed on, and so is an error. If `decode` asked for more data,
/// none will come: with an empty buffer that is the end (`Ok(None)`); with
/// bytes left it is the error for trailing bytes.
pub fn decode_eof_default<I, E: FromIo>(decoded: Result<Option<I>, E>, buf: &BytesMut) -> (r:
    Result<Option<I>, E>)
    ensures
        r == (match decoded {
            Ok(None) => if contents(buf).len() == 0 {
                Ok(None)
            } else {
                Err(E::from_io_spec(trailing_bytes()))
            },
            _ => decoded,
        }),
{
    match decoded {
        Ok(Some(frame)) => Ok(Some(frame)),
        Ok(None) => {
            if buf.is_empty() {
                Ok(None)
            } else {
                Err(E::from_io(new_other_io_error("bytes remaining on stream")))
            }
        },
        Err(e) => Err(e),
    }
}

/// Writing out messages as bytes.
pub trait Encoder<Item>: Sized {
    /// The type of encoding errors.
    type Error: FromIo;

    /// What `encode` does in this state when given `item`.
    spec fn encode_spec(&self, item: Item) -> Encoded<Self, Self::Error>;

    /// Encodes a frame into the buffer provided.
    ///
    /// The bytes of the frame are appended to `dst`; what `dst` held stays.
    /// The buffer must be able to take them.
    fn encode(&mut self, item: Item, dst: &mut BytesMut) -> (r: Result<(), Self::Error>)
        requires
            contents(old(dst)).len() + old(self).encode_spec(item).appended.len() <= max_len(),
        ensures
            *final(self) == old(self).encode_spec(item).codec,
            contents(final(dst)) == contents(old(dst)) + old(self).encode_spec(item).appended,
            r == old(self).encode_spec(item).result,
    ;
}

} // verus!
