use tcp_link::classify::{classify, IoErrorKind, IsConnected};
use tcp_link::codec::{FrameCodec, MessageKind};
use tcp_link::endpoint::{next_message_id, Endpoint, ReadError, SendError, Step, BUF_LEN, DEFAULT_TIMEOUT_MS};

fn fresh(connected: bool) -> Endpoint<u8> {
    Endpoint::new(FrameCodec::new(MessageKind::String), if connected { Some(1) } else { None })
}

fn text_frame(payload: &[u8], id: u32) -> Vec<u8> {
    FrameCodec::new(MessageKind::String).build(payload, id)
}

#[test]
fn new_endpoint_defaults() {
    let ep = fresh(false);
    assert_eq!(ep.msg_id(), 0);
    assert_eq!(ep.timeout_ms(), DEFAULT_TIMEOUT_MS);
    assert_eq!(DEFAULT_TIMEOUT_MS, 10_000);
    assert_eq!(BUF_LEN, 4096);
    assert!(!ep.is_connected());
    assert!(fresh(true).is_connected());
}

#[test]
fn two_sends_assign_one_then_two() {
    let mut ep = fresh(true);
    let (a, frame_a) = ep.frame_for_send(b"x");
    let (b, _) = ep.frame_for_send(b"y");
    assert_eq!((a, b), (1, 2));
    assert_eq!(frame_a, text_frame(b"x", 1));
    assert_eq!(ep.send_written(b, true), Ok(2));
}

#[test]
fn id_wraps_to_one() {
    assert_eq!(next_message_id(u32::MAX), 1);
    assert_eq!(next_message_id(0), 1);
    assert_eq!(next_message_id(41), 42);
    assert_eq!(next_message_id(u32::MAX - 1), u32::MAX);
}

#[test]
fn failed_write_tears_down() {
    let mut ep = fresh(true);
    let (id, _) = ep.frame_for_send(b"x");
    assert_eq!(ep.send_written(id, false), Err(SendError::Write));
    assert!(!ep.is_connected());
}

#[test]
fn send_connect_retries_until_deadline() {
    let mut ep = fresh(false);
    for elapsed in [0, 1, 5_000, 10_000] {
        assert!(matches!(ep.send_connect_failed(elapsed), Step::Retry));
    }
    assert!(matches!(ep.send_connect_failed(10_001), Step::Done(Err(SendError::ConnectTimeout))));
    assert_eq!(ep.msg_id(), 0);
}

#[test]
fn read_connect_retries_until_deadline() {
    let ep = fresh(false);
    assert!(matches!(ep.read_connect_failed(10_000), Step::Retry));
    assert!(matches!(ep.read_connect_failed(10_001), Step::Done(Err(ReadError::ConnectTimeout))));
}

#[test]
fn peer_close_tears_down_and_next_connect_dials() {
    let mut ep = fresh(true);
    assert!(matches!(ep.on_received(&[], 0), Step::Done(Err(ReadError::StreamClosed))));
    assert!(!ep.is_connected());
    assert!(ep.connection().is_none());
    ep.attach(2);
    assert_eq!(ep.connection(), Some(&2));
}

#[test]
fn read_delivers_text_message() {
    let mut ep = fresh(true);
    match ep.on_received(&text_frame(b"hello", 9), 0) {
        Step::Done(Ok((id, payload))) => assert_eq!((id, payload), (9, b"hello".to_vec())),
        _ => panic!("no message"),
    }
}

#[test]
fn read_reassembles_fragments() {
    let mut ep = fresh(true);
    let frame = text_frame(b"fragmented", 4);
    assert!(matches!(ep.on_received(&frame[..6], 0), Step::Retry));
    match ep.on_received(&frame[6..], 1) {
        Step::Done(Ok((id, payload))) => assert_eq!((id, payload), (4, b"fragmented".to_vec())),
        _ => panic!("no message"),
    }
}

#[test]
fn garbage_until_deadline_gives_sentinel() {
    let mut ep = fresh(true);
    assert!(matches!(ep.on_received(&[0xff; 20], 10), Step::Retry));
    assert!(matches!(ep.on_received(&[0xee; 3], 500), Step::Retry));
    match ep.on_received(&[0xdd; 7], 10_001) {
        Step::Done(Ok((id, payload))) => {
            assert_eq!(id, 0);
            assert!(payload.is_empty());
        }
        _ => panic!("no sentinel"),
    }
}

#[test]
fn other_kinds_are_skipped() {
    let mut ep = fresh(true);
    let frame = FrameCodec::new(MessageKind::U32).build(&[0, 0, 0, 1], 3);
    assert!(matches!(ep.on_received(&frame, 0), Step::Retry));
    let frame = FrameCodec::new(MessageKind::Any).build(&[], 4);
    assert!(matches!(ep.on_received(&frame, 10_001), Step::Done(Ok((0, _)))));
}

#[test]
fn buffered_message_is_served_before_reading() {
    let mut ep = fresh(true);
    let mut bytes = text_frame(b"a", 1);
    bytes.extend(text_frame(b"b", 2));
    assert!(matches!(ep.on_received(&bytes, 0), Step::Done(Ok((1, _)))));
    assert_eq!(ep.buffered_text(), Some((2, b"b".to_vec())));
    assert_eq!(ep.buffered_text(), None);
}

#[test]
fn fatal_read_error_tears_down() {
    let mut ep = fresh(true);
    assert!(matches!(
        ep.on_read_failed(IoErrorKind::ConnectionReset, 0),
        Step::Done(Err(ReadError::Io(IoErrorKind::ConnectionReset)))
    ));
    assert!(!ep.is_connected());
}

#[test]
fn transient_read_error_retries() {
    let mut ep = fresh(true);
    assert!(matches!(ep.on_read_failed(IoErrorKind::TimedOut, 0), Step::Retry));
    assert!(matches!(ep.on_read_failed(IoErrorKind::Interrupted, 10_001), Step::Done(Ok((0, _)))));
    assert!(ep.is_connected());
}

#[test]
fn detach_clears_buffer() {
    let mut ep = fresh(true);
    let frame = text_frame(b"abc", 1);
    assert!(matches!(ep.on_received(&frame[..4], 0), Step::Retry));
    assert_eq!(ep.detach(), Some(1));
    ep.attach(3);
    assert!(matches!(ep.on_received(&frame[4..], 0), Step::Retry));
}

#[test]
fn classifier_decisions() {
    let fatal = [
        IoErrorKind::PermissionDenied, IoErrorKind::ConnectionRefused, IoErrorKind::ConnectionReset,
        IoErrorKind::ConnectionAborted, IoErrorKind::NotConnected, IoErrorKind::AddrInUse,
        IoErrorKind::AddrNotAvailable, IoErrorKind::BrokenPipe, IoErrorKind::WouldBlock,
        IoErrorKind::Other, IoErrorKind::UnexpectedEof,
    ];
    for k in fatal {
        assert!(matches!(classify(k), IsConnected::Closed(c) if c == k));
    }
    for k in [IoErrorKind::TimedOut, IoErrorKind::Interrupted] {
        assert!(matches!(classify(k), IsConnected::Active(())));
    }
}

#[test]
fn set_timeout_changes_deadline() {
    let mut ep = fresh(false);
    ep.set_timeout_ms(5);
    assert_eq!(ep.timeout_ms(), 5);
    assert!(matches!(ep.send_connect_failed(6), Step::Done(_)));
}

#[test]
fn close_without_connection_changes_nothing() {
    let mut codec = FrameCodec::new(MessageKind::String);
    let frame = text_frame(b"kept", 8);
    assert!(codec.parse(&frame[..5]).is_err());
    let mut ep: Endpoint<u8> = Endpoint::new(codec, None);
    assert_eq!(ep.detach(), None);
    match ep.on_received(&frame[5..], 0) {
        Step::Done(Ok((id, payload))) => assert_eq!((id, payload), (8, b"kept".to_vec())),
        _ => panic!("buffered bytes lost"),
    }
}

#[test]
fn failed_send_connect_drops_buffer() {
    let mut ep = fresh(true);
    let frame = text_frame(b"abc", 1);
    assert!(matches!(ep.on_received(&frame[..4], 0), Step::Retry));
    assert!(matches!(ep.send_connect_failed(10_001), Step::Done(_)));
    assert!(!ep.is_connected());
    ep.attach(5);
    assert!(matches!(ep.on_received(&frame[4..], 0), Step::Retry));
}
