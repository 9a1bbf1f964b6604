//! A codec that ships bytes around as they come.

use crate::buf::{contents, frozen, put_buf, put_bytes};
use crate::codec::{decode_eof_default, Decoded, Decoder, Encoded, Encoder};
use bytes::{Bytes, BytesMut};
use vstd::prelude::*;

verus! {

/// A simple [`Decoder`] and [`Encoder`] that just ships bytes around: every
/// decode hands out all that is buffered, every encode appends the bytes it
/// is given.
#[derive(Copy, Clone, Debug, Eq, PartialEq, Ord, PartialOrd, Hash, Default)]
pub struct BytesCodec(());

impl BytesCodec {
    /// The codec. It has no state: there is one value of the type.
    pub closed spec fn unit() -> BytesCodec {
        BytesCodec(())
    }

    /// Creates a new `BytesCodec` for shipping around raw bytes.
    pub fn new() -> (codec: BytesCodec)
        ensures
            codec == BytesCodec::unit(),
    {
        BytesCodec(())
    }
}

impl Decoder for BytesCodec {
    type Item = BytesMut;

    type Error = std::io::Error;

    type Frame = Seq<u8>;

    open spec fn frame(item: BytesMut) -> Seq<u8> {
        contents(&item)
    }

    open spec fn decode_spec(&self, src: Seq<u8>) -> Decoded<Self, Seq<u8>, std::io::Error> {
        if src.len() > 0 {
            Decoded { codec: *self, rest: Seq::empty(), result: Ok(Some(src)) }
        } else {
            Decoded { codec: *self, rest: src, result: Ok(None) }
        }
    }

    fn decode(&mut self, buf: &mut BytesMut) -> (r: Result<Option<BytesMut>, std::io::Error>) {
        if !buf.is_empty() {
            let len = buf.len();
            let ghost all = contents(buf);
            let head = buf.split_to(len);
            assert(all.take(len as int) =~= all);
            Ok(Some(head))
        } else {
            Ok(None)
        }
    }

    fn decode_eof(&mut self, buf: &mut BytesMut) -> (r: Result<Option<BytesMut>, std::io::Error>) {
        let decoded = self.decode(buf);
        decode_eof_default(decoded, buf)
    }
}

impl Encoder<Bytes> for BytesCodec {
    type Error = std::io::Error;

    open spec fn encode_spec(&self, item: Bytes) -> Encoded<Self, std::io::Error> {
        Encoded { codec: *self, appended: frozen(&item), result: Ok(()) }
    }

    fn encode(&mut self, data: Bytes, buf: &mut BytesMut) -> (r: Result<(), std::io::Error>) {
        buf.reserve(data.len());
        put_bytes(buf, data);
        Ok(())
    }
}

impl Encoder<BytesMut> for BytesCodec {
    type Error = std::io::Error;

    open spec fn encode_spec(&self, item: BytesMut) -> Encoded<Self, std::io::Error> {
        Encoded { codec: *self, appended: contents(&item), result: Ok(()) }
    }

    fn encode(&mut self, data: BytesMut, buf: &mut BytesMut) -> (r: Result<(), std::io::Error>) {
        buf.reserve(data.len());
        put_buf(buf, data);
        Ok(())
    }
}

} // verus!
