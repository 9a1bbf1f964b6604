//! Framing of byte streams: a typed view over a partly initialized read
//! region, the buffer side of single read and write attempts, the codec
//! contract, and the state machine that turns buffered bytes into frames and
//! frames into buffered bytes.
//!
//! The library performs no I/O. Whoever drives it makes the read or write
//! attempt that an operation asks for and hands back what the I/O object
//! reported.

pub mod buf;
pub mod bytes_codec;
pub mod codec;
pub mod framed;
pub mod sink;
pub mod stream;
pub mod util;

pub use buf::contents;
pub use bytes_codec::BytesCodec;
pub use codec::{decode_eof_default, Decoder, Encoder, FromIo};
pub use framed::{Close, Flush, Framed, FramedView, Next, SendError};
pub use util::{Attempt, ReadBuf, ReadBufView};
