use rumble::error::{Error, LogicError, ProtocolError};
use rumble::frame::decode_frame;
use rumble::message_types::MessageType;

fn sample(tag: u16, payload: Vec<u8>) -> MessageType {
    match tag {
        0 => MessageType::Version(payload),
        2 => MessageType::Authenticate(payload),
        3 => MessageType::Ping(payload),
        4 => MessageType::Reject(payload),
        5 => MessageType::ServerSync(payload),
        6 => MessageType::ChannelRemove(payload),
        7 => MessageType::ChannelState(payload),
        8 => MessageType::UserRemove(payload),
        9 => MessageType::UserState(payload),
        10 => MessageType::BanList(payload),
        11 => MessageType::TextMessage(payload),
        12 => MessageType::PermissionDenied(payload),
        13 => MessageType::ACL(payload),
        14 => MessageType::QueryUsers(payload),
        15 => MessageType::CryptSetup(payload),
        16 => MessageType::ContextActionModify(payload),
        17 => MessageType::ContextAction(payload),
        18 => MessageType::UserList(payload),
        19 => MessageType::VoiceTarget(payload),
        20 => MessageType::PermissionQuery(payload),
        21 => MessageType::CodecVersion(payload),
        22 => MessageType::UserStats(payload),
        23 => MessageType::RequestBlob(payload),
        24 => MessageType::ServerConfig(payload),
        25 => MessageType::SuggestConfig(payload),
        _ => panic!("no payload kind has tag {}", tag),
    }
}

#[test]
fn unknown_tag_255_is_refused() {
    assert_eq!(
        MessageType::from_raw(255, &[]),
        Err(Error::Protocol(ProtocolError::UnknownTag))
    );
    assert_eq!(
        MessageType::from_raw(255, &[0x08, 0x05]),
        Err(Error::Protocol(ProtocolError::UnknownTag))
    );
    assert_eq!(
        MessageType::from_raw(255, &[0xff, 0xff, 0xff]),
        Err(Error::Protocol(ProtocolError::UnknownTag))
    );
}

#[test]
fn every_tag_above_25_is_refused() {
    for tag in [26u16, 27, 100, 256, 0x7fff, 0xffff] {
        assert_eq!(
            MessageType::from_raw(tag, &[0x08, 0x01]),
            Err(Error::Protocol(ProtocolError::UnknownTag))
        );
    }
}

#[test]
fn every_tag_up_to_25_names_its_kind() {
    for tag in 0u16..=25 {
        let message = MessageType::from_raw(tag, &[0x08, 0x01]).unwrap();
        assert_eq!(message.tag(), tag);
        if tag == 1 {
            assert_eq!(message, MessageType::UDPTunnel);
            assert_eq!(message.payload(), None);
        } else {
            assert_eq!(message, sample(tag, vec![0x08, 0x01]));
            assert_eq!(message.payload(), Some(&vec![0x08, 0x01]));
        }
    }
}

#[test]
fn udp_tunnel_drops_whatever_it_holds() {
    assert_eq!(MessageType::from_raw(1, &[0xff, 0xff]), Ok(MessageType::UDPTunnel));
    assert_eq!(MessageType::from_raw(1, &[]), Ok(MessageType::UDPTunnel));
}

#[test]
fn malformed_payload_is_refused() {
    assert_eq!(
        MessageType::from_raw(9, &[0x08]),
        Err(Error::Protocol(ProtocolError::MalformedPayload))
    );
    assert_eq!(
        MessageType::from_raw(11, &[0x2a, 0x05, b'h', b'i']),
        Err(Error::Protocol(ProtocolError::MalformedPayload))
    );
    assert_eq!(
        MessageType::from_raw(0, &[0x00]),
        Err(Error::Protocol(ProtocolError::MalformedPayload))
    );
}

#[test]
fn empty_payload_is_a_message() {
    assert_eq!(MessageType::from_raw(3, &[]), Ok(MessageType::Ping(vec![])));
}

#[test]
fn udp_tunnel_is_unsendable() {
    assert_eq!(
        MessageType::UDPTunnel.to_raw(),
        Err(Error::Logic(LogicError::Unsendable))
    );
}

#[test]
fn to_raw_frames_the_payload_under_the_tag() {
    let message = MessageType::TextMessage(vec![0x08, 0x05, 0x2a, 0x02, b'h', b'i']);
    assert_eq!(
        message.to_raw(),
        Ok(vec![0, 11, 0, 0, 0, 6, 0x08, 0x05, 0x2a, 0x02, b'h', b'i'])
    );
    assert_eq!(MessageType::Ping(vec![]).to_raw(), Ok(vec![0, 3, 0, 0, 0, 0]));
    assert_eq!(
        MessageType::SuggestConfig(vec![0x08, 0x01]).to_raw(),
        Ok(vec![0, 25, 0, 0, 0, 2, 0x08, 0x01])
    );
}

#[test]
fn round_trip_of_every_sendable_kind() {
    let payloads: Vec<Vec<u8>> = vec![
        vec![],
        vec![0x08, 0x05],
        vec![0x08, 0x05, 0x28, 0x00],
        vec![0x08, 0x05, 0x2a, 0x02, b'h', b'i'],
        vec![0x0d, 1, 2, 3, 4, 0x11, 1, 2, 3, 4, 5, 6, 7, 8],
    ];
    for tag in 0u16..=25 {
        if tag == 1 {
            continue;
        }
        for payload in &payloads {
            let message = sample(tag, payload.clone());
            let bytes = message.to_raw().unwrap();
            let (frame, used) = decode_frame(&bytes).unwrap();
            assert_eq!(used, bytes.len());
            assert_eq!(MessageType::from_raw(frame.tag, &frame.payload), Ok(message));
        }
    }
}
