use bytes::{Bytes, BytesMut};
use frame_codec::codec::{decode_eof_default, Decoded, Decoder, Encoded, Encoder};
use frame_codec::framed::{Close, Flush, Framed, Next, SendError};
use frame_codec::util::Attempt;
use frame_codec::BytesCodec;
use std::io;
use vstd::seq::Seq;

/// Splits the stream at line feeds; a frame is a line without its line feed.
struct Lines;

impl Decoder for Lines {
    type Item = String;
    type Error = io::Error;
    type Frame = String;

    fn frame(_item: String) -> String {
        unreachable!()
    }

    fn decode_spec(&self, _src: Seq<u8>) -> Decoded<Self, String, io::Error> {
        unreachable!()
    }

    fn decode(&mut self, src: &mut BytesMut) -> Result<Option<String>, io::Error> {
        match src.iter().position(|b| *b == b'\n') {
            Some(at) => {
                let line = src.split_to(at + 1);
                Ok(Some(String::from_utf8_lossy(&line[..at]).into_owned()))
            }
            None => Ok(None),
        }
    }

    fn decode_eof(&mut self, buf: &mut BytesMut) -> Result<Option<String>, io::Error> {
        let decoded = self.decode(buf);
        decode_eof_default(decoded, buf)
    }
}

impl Encoder<String> for Lines {
    type Error = io::Error;

    fn encode_spec(&self, _item: String) -> Encoded<Self, io::Error> {
        unreachable!()
    }

    fn encode(&mut self, item: String, dst: &mut BytesMut) -> Result<(), io::Error> {
        if item.contains('\n') {
            return Err(io::Error::new(io::ErrorKind::InvalidInput, "line feed in a line"));
        }
        dst.reserve(item.len() + 1);
        dst.extend_from_slice(item.as_bytes());
        dst.extend_from_slice(b"\n");
        Ok(())
    }
}

/// Never finds a frame.
struct Never;

impl Decoder for Never {
    type Item = ();
    type Error = io::Error;
    type Frame = ();

    fn frame(_item: ()) {
        unreachable!()
    }

    fn decode_spec(&self, _src: Seq<u8>) -> Decoded<Self, (), io::Error> {
        unreachable!()
    }

    fn decode(&mut self, _src: &mut BytesMut) -> Result<Option<()>, io::Error> {
        Ok(None)
    }

    fn decode_eof(&mut self, buf: &mut BytesMut) -> Result<Option<()>, io::Error> {
        let decoded = self.decode(buf);
        decode_eof_default(decoded, buf)
    }
}

/// Takes one byte per frame, refuses a `!`, and counts its calls.
struct Counting {
    decodes: usize,
    decode_eofs: usize,
}

impl Decoder for Counting {
    type Item = u8;
    type Error = io::Error;
    type Frame = u8;

    fn frame(_item: u8) -> u8 {
        unreachable!()
    }

    fn decode_spec(&self, _src: Seq<u8>) -> Decoded<Self, u8, io::Error> {
        unreachable!()
    }

    fn decode(&mut self, src: &mut BytesMut) -> Result<Option<u8>, io::Error> {
        self.decodes += 1;
        if src.is_empty() {
            Ok(None)
        } else if src[0] == b'!' {
            Err(io::Error::new(io::ErrorKind::InvalidData, "bang"))
        } else {
            Ok(Some(src.split_to(1)[0]))
        }
    }

    fn decode_eof(&mut self, buf: &mut BytesMut) -> Result<Option<u8>, io::Error> {
        self.decode_eofs += 1;
        let decoded = self.decode(buf);
        decode_eof_default(decoded, buf)
    }
}

/// One length byte, then that many bytes of payload.
struct Prefixed;

impl Decoder for Prefixed {
    type Item = Vec<u8>;
    type Error = io::Error;
    type Frame = Vec<u8>;

    fn frame(_item: Vec<u8>) -> Vec<u8> {
        unreachable!()
    }

    fn decode_spec(&self, _src: Seq<u8>) -> Decoded<Self, Vec<u8>, io::Error> {
        unreachable!()
    }

    fn decode(&mut self, src: &mut BytesMut) -> Result<Option<Vec<u8>>, io::Error> {
        if src.is_empty() || src.len() < 1 + src[0] as usize {
            return Ok(None);
        }
        let len = src[0] as usize;
        let frame = src.split_to(1 + len);
        Ok(Some(frame[1..].to_vec()))
    }

    fn decode_eof(&mut self, buf: &mut BytesMut) -> Result<Option<Vec<u8>>, io::Error> {
        let decoded = self.decode(buf);
        decode_eof_default(decoded, buf)
    }
}

impl Encoder<Vec<u8>> for Prefixed {
    type Error = io::Error;

    fn encode_spec(&self, _item: Vec<u8>) -> Encoded<Self, io::Error> {
        unreachable!()
    }

    fn encode(&mut self, item: Vec<u8>, dst: &mut BytesMut) -> Result<(), io::Error> {
        if item.len() > 255 {
            return Err(io::Error::new(io::ErrorKind::InvalidInput, "frame too long"));
        }
        dst.reserve(1 + item.len());
        dst.extend_from_slice(&[item.len() as u8]);
        dst.extend_from_slice(&item);
        Ok(())
    }
}

#[derive(Debug, PartialEq, Eq)]
enum Ending {
    Ended,
    Failed,
}

/// Polls the engine to the end. Each read it asks for delivers the next
/// chunk, and nothing once the chunks are used up. Returns the frames, how
/// the run ended, and the number of reads that were made.
fn pump<U: Decoder>(engine: &mut Framed<U>, chunks: &[&[u8]]) -> (Vec<U::Item>, Ending, usize) {
    let mut frames = Vec::new();
    let mut reads = 0;
    loop {
        match engine.poll_next() {
            Next::Frame(frame) => frames.push(frame),
            Next::End => return (frames, Ending::Ended, reads),
            Next::Failed => return (frames, Ending::Failed, reads),
            Next::Read => {
                let room = engine.read_window();
                let chunk: &[u8] = if reads < chunks.len() { chunks[reads] } else { &[] };
                assert!(chunk.len() <= room);
                reads += 1;
                engine.read_done(Attempt::Ready(chunk));
            }
        }
    }
}

/// Flushes the engine into `wire`, with an I/O object that accepts at most
/// `most` bytes per attempt. Returns the number of write attempts.
fn flush<U: Decoder>(engine: &mut Framed<U>, wire: &mut Vec<u8>, most: usize) -> usize {
    let mut writes = 0;
    loop {
        match engine.poll_flush() {
            Flush::Done => return writes,
            Flush::Failed => panic!("the write direction has failed"),
            Flush::Write => {
                let n = {
                    let offer = engine.write_window();
                    let n = offer.len().min(most);
                    wire.extend_from_slice(&offer[..n]);
                    n
                };
                writes += 1;
                assert!(matches!(engine.write_done(Attempt::Ready(n)), Attempt::Ready(m) if m == n));
            }
        }
    }
}

fn lines(frames: &[&str]) -> Vec<String> {
    frames.iter().map(|s| s.to_string()).collect()
}

#[test]
fn a_new_engine_holds_nothing() {
    let engine = Framed::new(BytesCodec::new());
    assert!(engine.read_buffer().is_empty());
    assert_eq!(engine.write_buffer_len(), 0);
    assert!(engine.read_error().is_none());
    assert_eq!(engine.poll_flush(), Flush::Done);
    assert_eq!(engine.poll_close(), Close::Shutdown);
    assert!(engine.write_window().is_empty());
    assert_eq!(*engine.codec(), BytesCodec::new());
}

#[test]
fn the_first_poll_asks_for_a_read() {
    let mut engine = Framed::new(Lines);
    assert!(matches!(engine.poll_next(), Next::Read));
    assert!(engine.read_window() >= 1);
}

#[test]
fn lines_come_out_chunk_by_line() {
    let mut engine = Framed::new(Lines);
    let (frames, ending, _) = pump(&mut engine, &[b"ab\n", b"cd\n"]);
    assert_eq!(frames, lines(&["ab", "cd"]));
    assert_eq!(ending, Ending::Ended);
}

#[test]
fn lines_come_out_when_a_chunk_cuts_a_line() {
    let mut engine = Framed::new(Lines);
    let (frames, ending, _) = pump(&mut engine, &[b"a", b"b\ncd\n"]);
    assert_eq!(frames, lines(&["ab", "cd"]));
    assert_eq!(ending, Ending::Ended);
}

#[test]
fn lines_come_out_of_one_chunk() {
    let mut engine = Framed::new(Lines);
    let (frames, ending, reads) = pump(&mut engine, &[b"ab\ncd\n"]);
    assert_eq!(frames, lines(&["ab", "cd"]));
    assert_eq!(ending, Ending::Ended);
    assert_eq!(reads, 2);
}

#[test]
fn lines_come_out_byte_by_byte() {
    let input = b"ab\ncd\n";
    let chunks: Vec<&[u8]> = input.chunks(1).collect();
    let mut engine = Framed::new(Lines);
    let (frames, ending, reads) = pump(&mut engine, &chunks);
    assert_eq!(frames, lines(&["ab", "cd"]));
    assert_eq!(ending, Ending::Ended);
    assert_eq!(reads, 7);
}

#[test]
fn every_cut_in_two_gives_the_same_frames() {
    let input = b"one\ntwo\n\nthree\n";
    for cut in 1..input.len() {
        let mut engine = Framed::new(Lines);
        let (frames, ending, _) = pump(&mut engine, &[&input[..cut], &input[cut..]]);
        assert_eq!(frames, lines(&["one", "two", "", "three"]), "cut at {}", cut);
        assert_eq!(ending, Ending::Ended);
    }
}

#[test]
fn every_cut_in_three_gives_the_same_frames() {
    let input = b"a\nbc\nd\n";
    for first in 1..input.len() - 1 {
        for second in first + 1..input.len() {
            let mut engine = Framed::new(Lines);
            let chunks = [&input[..first], &input[first..second], &input[second..]];
            let (frames, ending, _) = pump(&mut engine, &chunks);
            assert_eq!(frames, lines(&["a", "bc", "d"]));
            assert_eq!(ending, Ending::Ended);
        }
    }
}

#[test]
fn an_empty_input_ends_at_once() {
    let mut engine = Framed::new(Lines);
    let (frames, ending, reads) = pump(&mut engine, &[]);
    assert!(frames.is_empty());
    assert_eq!(ending, Ending::Ended);
    assert_eq!(reads, 1);
}

#[test]
fn buffered_frames_come_before_the_next_read() {
    let mut engine = Framed::new(Lines);
    assert!(matches!(engine.poll_next(), Next::Read));
    engine.read_done(Attempt::Ready(b"x\ny\nz"));
    assert!(matches!(engine.poll_next(), Next::Frame(f) if f == "x"));
    assert!(matches!(engine.poll_next(), Next::Frame(f) if f == "y"));
    assert_eq!(&engine.read_buffer()[..], b"z");
    assert!(matches!(engine.poll_next(), Next::Read));
    assert_eq!(&engine.read_buffer()[..], b"z");
}

#[test]
fn a_pending_read_changes_nothing() {
    let mut engine = Framed::new(Lines);
    assert!(matches!(engine.poll_next(), Next::Read));
    engine.read_done(Attempt::Ready(b"ab"));
    assert!(matches!(engine.poll_next(), Next::Read));
    engine.read_done(Attempt::Pending);
    assert_eq!(&engine.read_buffer()[..], b"ab");
    assert!(matches!(engine.poll_next(), Next::Read));
    engine.read_done(Attempt::Ready(b"\n"));
    assert!(matches!(engine.poll_next(), Next::Frame(f) if f == "ab"));
}

#[test]
fn the_end_is_final() {
    let mut engine = Framed::new(Lines);
    let (_, ending, reads) = pump(&mut engine, &[b"ab\n"]);
    assert_eq!(ending, Ending::Ended);
    for _ in 0..3 {
        assert!(matches!(engine.poll_next(), Next::End));
    }
    let (frames, ending, more_reads) = pump(&mut engine, &[b"cd\n"]);
    assert!(frames.is_empty());
    assert_eq!(ending, Ending::Ended);
    assert_eq!(more_reads, 0);
    assert_eq!(reads, 2);
    assert!(engine.read_buffer().is_empty());
}

#[test]
fn a_failure_is_final() {
    let mut engine = Framed::new(Counting { decodes: 0, decode_eofs: 0 });
    let (frames, ending, reads) = pump(&mut engine, &[b"ab!cd"]);
    assert_eq!(frames, vec![b'a', b'b']);
    assert_eq!(ending, Ending::Failed);
    assert_eq!(reads, 1);
    let calls = engine.codec().decodes;
    for _ in 0..3 {
        assert!(matches!(engine.poll_next(), Next::Failed));
        let err = engine.read_error().unwrap();
        assert_eq!(err.kind(), io::ErrorKind::InvalidData);
        assert_eq!(err.to_string(), "bang");
    }
    assert_eq!(engine.codec().decodes, calls);
    assert_eq!(&engine.read_buffer()[..], b"!cd");
}

#[test]
fn a_failed_engine_ignores_reads_and_retries() {
    let mut engine = Framed::new(Counting { decodes: 0, decode_eofs: 0 });
    let (_, ending, _) = pump(&mut engine, &[b"!"]);
    assert_eq!(ending, Ending::Failed);
    engine.retry();
    engine.read_done(Attempt::Ready(b"abc"));
    assert!(matches!(engine.poll_next(), Next::Failed));
    assert_eq!(&engine.read_buffer()[..], b"!");
}

#[test]
fn a_read_of_nothing_decodes_the_end_once() {
    let mut engine = Framed::new(Counting { decodes: 0, decode_eofs: 0 });
    let (frames, ending, _) = pump(&mut engine, &[b"ab"]);
    assert_eq!(frames, vec![b'a', b'b']);
    assert_eq!(ending, Ending::Ended);
    assert_eq!(engine.codec().decode_eofs, 1);
    assert!(matches!(engine.poll_next(), Next::End));
    assert_eq!(engine.codec().decode_eofs, 1);

    engine.retry();
    assert!(matches!(engine.poll_next(), Next::Read));
    engine.read_done(Attempt::Ready(b""));
    assert!(matches!(engine.poll_next(), Next::End));
    assert!(matches!(engine.poll_next(), Next::End));
    assert_eq!(engine.codec().decode_eofs, 1);
}

#[test]
fn the_end_of_stream_decoding_goes_on_while_frames_come() {
    let mut engine = Framed::new(Counting { decodes: 0, decode_eofs: 0 });
    assert!(matches!(engine.poll_next(), Next::Read));
    engine.read_done(Attempt::Ready(b"xy"));
    assert!(matches!(engine.poll_next(), Next::Frame(b'x')));
    engine.read_done(Attempt::Ready(b""));
    assert!(matches!(engine.poll_next(), Next::Frame(b'y')));
    assert!(matches!(engine.poll_next(), Next::End));
    assert_eq!(engine.codec().decode_eofs, 2);
}

#[test]
fn a_retry_reads_again_and_goes_on_when_data_comes() {
    let mut engine = Framed::new(Lines);
    let (frames, ending, _) = pump(&mut engine, &[b"ab\n"]);
    assert_eq!(frames, lines(&["ab"]));
    assert_eq!(ending, Ending::Ended);

    engine.retry();
    assert!(matches!(engine.poll_next(), Next::Read));
    engine.read_done(Attempt::Ready(b"cd\nef"));
    assert!(matches!(engine.poll_next(), Next::Frame(f) if f == "cd"));
    assert!(matches!(engine.poll_next(), Next::Read));
    engine.read_done(Attempt::Ready(b"\n"));
    assert!(matches!(engine.poll_next(), Next::Frame(f) if f == "ef"));
}

#[test]
fn a_retry_before_the_end_does_nothing() {
    let mut engine = Framed::new(Lines);
    engine.retry();
    assert!(matches!(engine.poll_next(), Next::Read));
    engine.read_done(Attempt::Ready(b"ab\n"));
    engine.retry();
    assert!(matches!(engine.poll_next(), Next::Frame(f) if f == "ab"));
}

#[test]
fn trailing_bytes_fail_the_sequence() {
    let mut engine = Framed::new(Never);
    let (frames, ending, _) = pump(&mut engine, &[b"abc"]);
    assert!(frames.is_empty());
    assert_eq!(ending, Ending::Failed);
    let err = engine.read_error().unwrap();
    assert_eq!(err.kind(), io::ErrorKind::Other);
    assert_eq!(err.to_string(), "bytes remaining on stream");
}

#[test]
fn half_a_line_at_the_end_fails_after_the_whole_ones() {
    let mut engine = Framed::new(Lines);
    let (frames, ending, _) = pump(&mut engine, &[b"ab\ncd"]);
    assert_eq!(frames, lines(&["ab"]));
    assert_eq!(ending, Ending::Failed);
    assert_eq!(engine.read_error().unwrap().to_string(), "bytes remaining on stream");
    assert_eq!(&engine.read_buffer()[..], b"cd");
}

#[test]
fn a_decoder_with_nothing_to_decode_ends_well() {
    let mut engine = Framed::new(Never);
    let (frames, ending, _) = pump(&mut engine, &[]);
    assert!(frames.is_empty());
    assert_eq!(ending, Ending::Ended);
    assert!(engine.read_error().is_none());
}

#[test]
fn a_read_failure_ends_the_read_direction() {
    let mut engine = Framed::new(Lines);
    assert!(matches!(engine.poll_next(), Next::Read));
    engine.read_done(Attempt::Ready(b"ab\ncd"));
    assert!(matches!(engine.poll_next(), Next::Frame(f) if f == "ab"));
    assert!(matches!(engine.poll_next(), Next::Read));
    engine.read_done(Attempt::Failed(io::Error::new(io::ErrorKind::ConnectionReset, "reset")));
    assert!(matches!(engine.poll_next(), Next::Failed));
    assert!(matches!(engine.poll_next(), Next::Failed));
    let err = engine.read_error().unwrap();
    assert_eq!(err.kind(), io::ErrorKind::ConnectionReset);
    assert_eq!(err.to_string(), "reset");
    assert_eq!(&engine.read_buffer()[..], b"cd");
}

#[test]
fn the_error_can_be_taken_out_once() {
    let mut engine = Framed::new(Never);
    let (_, ending, _) = pump(&mut engine, &[b"x"]);
    assert_eq!(ending, Ending::Failed);
    let err = engine.take_read_error().unwrap();
    assert_eq!(err.to_string(), "bytes remaining on stream");
    assert!(engine.take_read_error().is_none());
    assert!(engine.read_error().is_none());
    assert!(matches!(engine.poll_next(), Next::Failed));
}

#[test]
fn bytes_codec_frames_follow_the_reads() {
    let mut engine = Framed::new(BytesCodec::new());
    let (frames, ending, _) = pump(&mut engine, &[b"ab", b"cde"]);
    assert_eq!(frames.len(), 2);
    assert_eq!(&frames[0][..], b"ab");
    assert_eq!(&frames[1][..], b"cde");
    assert_eq!(ending, Ending::Ended);
}

#[test]
fn sending_only_buffers() {
    let mut engine = Framed::new(Lines);
    engine.start_send("X".to_string()).unwrap();
    assert_eq!(engine.write_buffer_len(), 2);
    engine.start_send("YY".to_string()).unwrap();
    assert_eq!(engine.write_buffer_len(), 5);
    assert_eq!(engine.write_window(), b"X\nYY\n");
    assert_eq!(engine.poll_flush(), Flush::Write);
    assert_eq!(engine.poll_close(), Close::Write);
}

#[test]
fn a_flush_writes_the_frames_in_order() {
    let mut engine = Framed::new(Lines);
    for frame in ["X", "Y", "Z"] {
        engine.start_send(frame.to_string()).unwrap();
    }
    let mut wire = Vec::new();
    let writes = flush(&mut engine, &mut wire, usize::MAX);
    assert_eq!(wire, b"X\nY\nZ\n");
    assert_eq!(writes, 1);
    assert_eq!(engine.write_buffer_len(), 0);
    assert_eq!(engine.poll_flush(), Flush::Done);
    assert_eq!(engine.poll_close(), Close::Shutdown);
}

#[test]
fn a_flush_in_small_writes_puts_the_same_bytes_on_the_wire() {
    for most in 1..8 {
        let mut engine = Framed::new(Lines);
        for frame in ["X", "Y", "Z"] {
            engine.start_send(frame.to_string()).unwrap();
        }
        let mut wire = Vec::new();
        let writes = flush(&mut engine, &mut wire, most);
        assert_eq!(wire, b"X\nY\nZ\n");
        assert_eq!(writes, (6 + most - 1) / most);
        assert_eq!(engine.write_buffer_len(), 0);
    }
}

#[test]
fn a_long_buffer_drains_in_many_writes() {
    let mut engine = Framed::new(BytesCodec::new());
    let mut expected = Vec::new();
    for i in 0..200u8 {
        let piece = [i; 3];
        expected.extend_from_slice(&piece);
        engine.start_send(Bytes::copy_from_slice(&piece)).unwrap();
    }
    let mut wire = Vec::new();
    let writes = flush(&mut engine, &mut wire, 7);
    assert_eq!(wire, expected);
    assert_eq!(writes, 86);
    assert_eq!(engine.poll_flush(), Flush::Done);
}

#[test]
fn a_pending_write_keeps_the_bytes() {
    let mut engine = Framed::new(Lines);
    engine.start_send("abc".to_string()).unwrap();
    assert!(matches!(engine.write_done(Attempt::Pending), Attempt::Pending));
    assert_eq!(engine.write_window(), b"abc\n");
    assert!(matches!(engine.write_done(Attempt::Ready(1)), Attempt::Ready(1)));
    assert_eq!(engine.write_window(), b"bc\n");
    assert!(matches!(engine.write_done(Attempt::Pending), Attempt::Pending));
    assert_eq!(engine.write_window(), b"bc\n");
    assert_eq!(engine.poll_flush(), Flush::Write);
}

#[test]
fn an_encoding_error_ends_the_write_direction() {
    let mut engine = Framed::new(Lines);
    engine.start_send("ok".to_string()).unwrap();
    match engine.start_send("a\nb".to_string()) {
        Err(SendError::Encode(e)) => {
            assert_eq!(e.kind(), io::ErrorKind::InvalidInput);
            assert_eq!(e.to_string(), "line feed in a line");
        }
        other => panic!("unexpected {:?}", other),
    }
    assert!(matches!(engine.start_send("later".to_string()), Err(SendError::Failed)));
    assert!(matches!(engine.start_send("again".to_string()), Err(SendError::Failed)));
    assert_eq!(engine.poll_flush(), Flush::Failed);
    assert_eq!(engine.poll_close(), Close::Failed);
    assert_eq!(engine.write_buffer_len(), 3);
}

#[test]
fn a_write_failure_ends_the_write_direction() {
    let mut engine = Framed::new(Lines);
    engine.start_send("abc".to_string()).unwrap();
    let failed = Attempt::Failed(io::Error::new(io::ErrorKind::BrokenPipe, "closed"));
    match engine.write_done(failed) {
        Attempt::Failed(e) => {
            assert_eq!(e.kind(), io::ErrorKind::BrokenPipe);
            assert_eq!(e.to_string(), "closed");
        }
        other => panic!("unexpected {:?}", other),
    }
    assert_eq!(engine.poll_flush(), Flush::Failed);
    assert_eq!(engine.poll_close(), Close::Failed);
    assert!(matches!(engine.start_send("more".to_string()), Err(SendError::Failed)));
    assert_eq!(engine.write_buffer_len(), 4);
    assert!(matches!(engine.write_done(Attempt::Ready(0)), Attempt::Ready(0)));
    assert_eq!(engine.write_buffer_len(), 4);
}

#[test]
fn the_directions_fail_apart() {
    let mut engine = Framed::new(Lines);
    assert!(engine.start_send("a\nb".to_string()).is_err());
    let (frames, ending, _) = pump(&mut engine, &[b"in\n"]);
    assert_eq!(frames, lines(&["in"]));
    assert_eq!(ending, Ending::Ended);

    let mut engine = Framed::new(Lines);
    let (_, ending, _) = pump(&mut engine, &[b"half"]);
    assert_eq!(ending, Ending::Failed);
    engine.start_send("out".to_string()).unwrap();
    let mut wire = Vec::new();
    flush(&mut engine, &mut wire, usize::MAX);
    assert_eq!(wire, b"out\n");
}

#[test]
fn what_is_encoded_decodes_again() {
    let items: Vec<Vec<u8>> = vec![b"alpha".to_vec(), Vec::new(), b"b".to_vec(), vec![0, 255, 10]];
    let mut sender = Framed::new(Prefixed);
    for item in &items {
        sender.start_send(item.clone()).unwrap();
    }
    let mut wire = Vec::new();
    flush(&mut sender, &mut wire, 3);
    assert_eq!(wire.len(), 13);
    for size in 1..wire.len() + 1 {
        let chunks: Vec<&[u8]> = wire.chunks(size).collect();
        let mut receiver = Framed::new(Prefixed);
        let (frames, ending, _) = pump(&mut receiver, &chunks);
        assert_eq!(frames, items, "chunks of {}", size);
        assert_eq!(ending, Ending::Ended);
    }
}

#[test]
fn lines_that_are_sent_come_back() {
    let mut sender = Framed::new(Lines);
    for frame in ["first", "", "third"] {
        sender.start_send(frame.to_string()).unwrap();
    }
    let mut wire = Vec::new();
    flush(&mut sender, &mut wire, 4);
    assert_eq!(wire, b"first\n\nthird\n");
    let chunks: Vec<&[u8]> = wire.chunks(5).collect();
    let mut receiver = Framed::new(Lines);
    let (frames, ending, _) = pump(&mut receiver, &chunks);
    assert_eq!(frames, lines(&["first", "", "third"]));
    assert_eq!(ending, Ending::Ended);
}
