use bytes::BytesMut;
use frame_codec::util::{
    poll_read_buf, poll_write_buf, read_window, write_window, Attempt, MAX_BUFS,
};
use std::io;

#[test]
fn read_window_has_room_and_keeps_the_bytes() {
    let mut buf = BytesMut::from(&b"abc"[..]);
    let n = read_window(&mut buf);
    assert!(n >= 1);
    assert_eq!(&buf[..], b"abc");
    assert!(buf.capacity() - buf.len() >= n);
}

#[test]
fn read_window_of_a_fresh_buffer_reserves() {
    let mut buf = BytesMut::new();
    let n = read_window(&mut buf);
    assert!(n >= 64);
    assert!(buf.is_empty());
}

#[test]
fn poll_read_buf_appends_what_was_delivered() {
    let mut buf = BytesMut::from(&b"ab"[..]);
    let r = poll_read_buf(Attempt::Ready(&b"cde"[..]), &mut buf);
    assert!(matches!(r, Attempt::Ready(3)));
    assert_eq!(&buf[..], b"abcde");
}

#[test]
fn poll_read_buf_reports_a_read_of_nothing() {
    let mut buf = BytesMut::from(&b"ab"[..]);
    let r = poll_read_buf(Attempt::Ready(&b""[..]), &mut buf);
    assert!(matches!(r, Attempt::Ready(0)));
    assert_eq!(&buf[..], b"ab");
}

#[test]
fn poll_read_buf_leaves_the_buffer_alone_while_pending() {
    let mut buf = BytesMut::from(&b"ab"[..]);
    let r = poll_read_buf(Attempt::Pending, &mut buf);
    assert!(matches!(r, Attempt::Pending));
    assert_eq!(&buf[..], b"ab");
}

#[test]
fn poll_read_buf_passes_a_failure_on() {
    let mut buf = BytesMut::from(&b"ab"[..]);
    let failed = Attempt::Failed(io::Error::new(io::ErrorKind::ConnectionReset, "reset"));
    match poll_read_buf(failed, &mut buf) {
        Attempt::Failed(e) => {
            assert_eq!(e.kind(), io::ErrorKind::ConnectionReset);
            assert_eq!(e.to_string(), "reset");
        }
        other => panic!("unexpected {:?}", other),
    }
    assert_eq!(&buf[..], b"ab");
}

#[test]
fn write_window_offers_everything() {
    let buf = BytesMut::from(&b"hello"[..]);
    assert_eq!(write_window(&buf), b"hello");
    assert!(write_window(&BytesMut::new()).is_empty());
}

#[test]
fn poll_write_buf_drops_what_was_accepted() {
    let mut buf = BytesMut::from(&b"hello"[..]);
    let r = poll_write_buf(Attempt::Ready(2), &mut buf);
    assert!(matches!(r, Attempt::Ready(2)));
    assert_eq!(&buf[..], b"llo");
    let r = poll_write_buf(Attempt::Ready(0), &mut buf);
    assert!(matches!(r, Attempt::Ready(0)));
    assert_eq!(&buf[..], b"llo");
    let r = poll_write_buf(Attempt::Ready(3), &mut buf);
    assert!(matches!(r, Attempt::Ready(3)));
    assert!(buf.is_empty());
}

#[test]
fn poll_write_buf_leaves_the_buffer_alone_while_pending() {
    let mut buf = BytesMut::from(&b"hello"[..]);
    let r = poll_write_buf(Attempt::Pending, &mut buf);
    assert!(matches!(r, Attempt::Pending));
    assert_eq!(&buf[..], b"hello");
}

#[test]
fn poll_write_buf_passes_a_failure_on() {
    let mut buf = BytesMut::from(&b"hello"[..]);
    let failed = Attempt::Failed(io::Error::new(io::ErrorKind::BrokenPipe, "closed"));
    match poll_write_buf(failed, &mut buf) {
        Attempt::Failed(e) => {
            assert_eq!(e.kind(), io::ErrorKind::BrokenPipe);
            assert_eq!(e.to_string(), "closed");
        }
        other => panic!("unexpected {:?}", other),
    }
    assert_eq!(&buf[..], b"hello");
}

#[test]
fn one_write_takes_sixty_four_pieces_at_most() {
    assert_eq!(MAX_BUFS, 64);
}

#[test]
fn write_window_offers_a_long_buffer_whole() {
    let mut buf = BytesMut::new();
    for i in 0..100u8 {
        buf.extend_from_slice(&[i; 10]);
    }
    let offer = write_window(&buf);
    assert_eq!(offer.len(), 1000);
    assert_eq!(offer, &buf[..]);
}
