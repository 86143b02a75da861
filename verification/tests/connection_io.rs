use rumble::connect;
use rumble::connection::Connection;
use rumble::error::{Error, LogicError, ProtocolError, TransportError};
use rumble::message_types::MessageType;

#[test]
fn new_connection_has_nothing_to_read_or_write() {
    let mut c = Connection::new();
    assert_eq!(c.buffered(), 0);
    assert_eq!(c.failure(), None);
    assert_eq!(c.read(), Ok(None));
    assert_eq!(c.take_outbound(), Vec::<u8>::new());
}

#[test]
fn read_returns_one_message_per_call() {
    let mut c = Connection::new();
    c.feed(&[0, 9, 0, 0, 0, 4, 0x08, 0x05, 0x28, 0x00, 0, 3, 0, 0, 0, 0]);
    assert_eq!(c.read(), Ok(Some(MessageType::UserState(vec![0x08, 0x05, 0x28, 0x00]))));
    assert_eq!(c.buffered(), 6);
    assert_eq!(c.read(), Ok(Some(MessageType::Ping(vec![]))));
    assert_eq!(c.buffered(), 0);
    assert_eq!(c.read(), Ok(None));
}

#[test]
fn read_waits_for_the_whole_frame() {
    let mut c = Connection::new();
    c.feed(&[0, 11, 0]);
    assert_eq!(c.read(), Ok(None));
    c.feed(&[0, 0, 6, 0x08, 0x05]);
    assert_eq!(c.read(), Ok(None));
    assert_eq!(c.buffered(), 8);
    c.feed(&[0x2a, 0x02, b'h', b'i']);
    assert_eq!(
        c.read(),
        Ok(Some(MessageType::TextMessage(vec![0x08, 0x05, 0x2a, 0x02, b'h', b'i'])))
    );
    assert_eq!(c.read(), Ok(None));
}

#[test]
fn read_of_udp_tunnel_skips_its_bytes() {
    let mut c = Connection::new();
    c.feed(&[0, 1, 0, 0, 0, 3, 0xff, 0xff, 0xff, 0, 3, 0, 0, 0, 0]);
    assert_eq!(c.read(), Ok(Some(MessageType::UDPTunnel)));
    assert_eq!(c.read(), Ok(Some(MessageType::Ping(vec![]))));
}

#[test]
fn closed_stream_is_reported_once_the_frames_are_read() {
    let mut c = Connection::new();
    c.feed(&[0, 3, 0, 0, 0, 0]);
    c.shutdown(TransportError::Closed);
    assert_eq!(c.failure(), Some(Error::Transport(TransportError::Closed)));
    assert_eq!(c.read(), Ok(Some(MessageType::Ping(vec![]))));
    assert_eq!(c.read(), Err(Error::Transport(TransportError::Closed)));
    assert_eq!(c.read(), Err(Error::Transport(TransportError::Closed)));
}

#[test]
fn io_failure_is_reported_as_such() {
    let mut c = Connection::new();
    c.shutdown(TransportError::IoFailure);
    assert_eq!(c.read(), Err(Error::Transport(TransportError::IoFailure)));
    c.shutdown(TransportError::Closed);
    assert_eq!(c.failure(), Some(Error::Transport(TransportError::IoFailure)));
}

#[test]
fn stream_that_ends_inside_a_frame_is_incomplete() {
    let mut c = Connection::new();
    c.feed(&[0, 11, 0, 0, 0, 6, 0x08]);
    assert_eq!(c.read(), Ok(None));
    c.shutdown(TransportError::Closed);
    assert_eq!(c.read(), Err(Error::Protocol(ProtocolError::IncompleteFrame)));
    assert_eq!(c.read(), Err(Error::Protocol(ProtocolError::IncompleteFrame)));
    assert_eq!(c.failure(), Some(Error::Protocol(ProtocolError::IncompleteFrame)));
}

#[test]
fn unknown_tag_is_fatal_for_the_connection() {
    let mut c = Connection::new();
    c.feed(&[0, 255, 0, 0, 0, 1, 0x00, 0, 3, 0, 0, 0, 0]);
    assert_eq!(c.read(), Err(Error::Protocol(ProtocolError::UnknownTag)));
    assert_eq!(c.read(), Err(Error::Protocol(ProtocolError::UnknownTag)));
    assert_eq!(
        c.send(&MessageType::Ping(vec![])),
        Err(Error::Protocol(ProtocolError::UnknownTag))
    );
    assert_eq!(c.take_outbound(), Vec::<u8>::new());
}

#[test]
fn malformed_payload_is_fatal_for_the_connection() {
    let mut c = Connection::new();
    c.feed(&[0, 9, 0, 0, 0, 1, 0x08, 0, 3, 0, 0, 0, 0]);
    assert_eq!(c.read(), Err(Error::Protocol(ProtocolError::MalformedPayload)));
    assert_eq!(c.read(), Err(Error::Protocol(ProtocolError::MalformedPayload)));
}

#[test]
fn send_appends_whole_frames() {
    let mut c = Connection::new();
    assert_eq!(c.send(&MessageType::Ping(vec![])), Ok(()));
    assert_eq!(c.send(&MessageType::UserState(vec![0x08, 0x05])), Ok(()));
    assert_eq!(c.take_outbound(), vec![0, 3, 0, 0, 0, 0, 0, 9, 0, 0, 0, 2, 0x08, 0x05]);
    assert_eq!(c.take_outbound(), Vec::<u8>::new());
}

#[test]
fn send_of_udp_tunnel_fails_and_changes_nothing() {
    let mut c = Connection::new();
    assert_eq!(c.send(&MessageType::Ping(vec![])), Ok(()));
    assert_eq!(c.send(&MessageType::UDPTunnel), Err(Error::Logic(LogicError::Unsendable)));
    assert_eq!(c.failure(), None);
    assert_eq!(c.send(&MessageType::Ping(vec![])), Ok(()));
    assert_eq!(c.take_outbound(), vec![0, 3, 0, 0, 0, 0, 0, 3, 0, 0, 0, 0]);
}

#[test]
fn send_on_a_dead_connection_fails() {
    let mut c = Connection::new();
    c.shutdown(TransportError::IoFailure);
    assert_eq!(
        c.send(&MessageType::Ping(vec![])),
        Err(Error::Transport(TransportError::IoFailure))
    );
    assert_eq!(c.take_outbound(), Vec::<u8>::new());
}

#[test]
fn what_one_connection_sends_another_receives() {
    let mut a = Connection::new();
    let mut b = Connection::new();
    let messages = vec![
        MessageType::Version(vec![]),
        MessageType::TextMessage(vec![0x08, 0x05, 0x2a, 0x02, b'h', b'i']),
        MessageType::UserState(vec![0x08, 0x05, 0x28, 0x00]),
    ];
    for m in &messages {
        assert_eq!(a.send(m), Ok(()));
    }
    b.feed(&a.take_outbound());
    for m in messages {
        assert_eq!(b.read(), Ok(Some(m)));
    }
    assert_eq!(b.read(), Ok(None));
}

fn version_frame() -> Vec<u8> {
    let mut expected = vec![0, 0, 0, 0, 0, 30, 0x08, 0x87, 0x84, 0x04];
    expected.extend_from_slice(&[0x12, 6]);
    expected.extend_from_slice(b"Rumble");
    expected.extend_from_slice(&[0x1a, 7]);
    expected.extend_from_slice(b"Unknown");
    expected.extend_from_slice(&[0x22, 7]);
    expected.extend_from_slice(b"Unknown");
    expected
}

#[test]
fn send_version_announces_1_2_7() {
    let mut c = Connection::new();
    assert_eq!(c.send_version(), Ok(()));
    assert_eq!(c.take_outbound(), version_frame());
}

#[test]
fn connect_opens_and_sends_the_version() {
    let mut c = connect().unwrap();
    assert_eq!(c.failure(), None);
    assert_eq!(c.buffered(), 0);
    assert_eq!(c.take_outbound(), version_frame());
}

#[test]
fn initialize_sends_version_then_authenticate() {
    let mut c = Connection::new();
    assert_eq!(c.initialize("bot", Some("pw")), Ok(()));
    assert_eq!(
        c.take_outbound(),
        vec![0, 0, 0, 0, 0, 0, 0, 2, 0, 0, 0, 9, 0x0a, 3, b'b', b'o', b't', 0x12, 2, b'p', b'w']
    );
}

#[test]
fn initialize_without_password_sends_an_empty_one() {
    let mut c = Connection::new();
    assert_eq!(c.initialize("bot", None), Ok(()));
    assert_eq!(
        c.take_outbound(),
        vec![0, 0, 0, 0, 0, 0, 0, 2, 0, 0, 0, 7, 0x0a, 3, b'b', b'o', b't', 0x12, 0]
    );
}

#[test]
fn initialize_on_a_dead_connection_sends_nothing() {
    let mut c = Connection::new();
    c.shutdown(TransportError::Closed);
    assert_eq!(c.initialize("bot", None), Err(Error::Transport(TransportError::Closed)));
    assert_eq!(c.take_outbound(), Vec::<u8>::new());
}

#[test]
fn new_connection_accepts_any_length() {
    let c = Connection::new();
    assert_eq!(c.limit(), u32::MAX);
}

#[test]
fn payload_beyond_the_limit_is_refused_with_its_header() {
    let mut c = Connection::new();
    c.set_limit(4);
    assert_eq!(c.limit(), 4);
    c.feed(&[0, 9, 0, 0, 0, 4, 0x08, 0x05, 0x28, 0x00]);
    assert_eq!(c.read(), Ok(Some(MessageType::UserState(vec![0x08, 0x05, 0x28, 0x00]))));
    c.feed(&[0, 11, 0, 0, 0, 5]);
    assert_eq!(c.read(), Err(Error::Protocol(ProtocolError::MalformedLength)));
    assert_eq!(c.failure(), Some(Error::Protocol(ProtocolError::MalformedLength)));
    c.feed(&[0x2a, 0x03, b'a', b'b', b'c']);
    assert_eq!(c.read(), Err(Error::Protocol(ProtocolError::MalformedLength)));
}

#[test]
fn limit_does_not_hold_back_what_is_sent() {
    let mut c = Connection::new();
    c.set_limit(0);
    assert_eq!(c.send(&MessageType::UserState(vec![0x08, 0x05])), Ok(()));
    assert_eq!(c.take_outbound(), vec![0, 9, 0, 0, 0, 2, 0x08, 0x05]);
    c.feed(&[0, 3, 0, 0, 0, 0]);
    assert_eq!(c.read(), Ok(Some(MessageType::Ping(vec![]))));
}
