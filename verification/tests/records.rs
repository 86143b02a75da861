use rumble::convert::le_u32_to_u8;
use rumble::mumble::{Authenticate, Ping, ServerSync, TextMessage, UserState};
use rumble::proto::{Message, ProtoVersion, SemVer, Version};

#[test]
fn le_u32_to_u8_keeps_the_low_byte_last() {
    assert_eq!(le_u32_to_u8(0), [0, 0, 0, 0]);
    assert_eq!(le_u32_to_u8(0x12), [0, 0, 0, 0x12]);
    assert_eq!(le_u32_to_u8(0x1234_5678), [0, 0, 0, 0x78]);
    assert_eq!(le_u32_to_u8(0xffff_ffff), [0, 0, 0, 0xff]);
    assert_eq!(le_u32_to_u8(0xffff_ff00), [0, 0, 0, 0]);
}

#[test]
fn semver_new_keeps_its_parts() {
    let v = SemVer::new(1, 2, 7);
    assert_eq!(v, SemVer { major: 1, minor: 2, patch: 7 });
}

#[test]
fn encode_version_packs_major_minor_patch() {
    assert_eq!(Version::encode_version(SemVer::new(1, 2, 7)), 0x0001_0207);
    assert_eq!(Version::encode_version(SemVer::new(0, 0, 0)), 0);
    assert_eq!(Version::encode_version(SemVer::new(0xffff, 0xff, 0xff)), 0xffff_ffff);
    assert_eq!(Version::encode_version(SemVer::new(0x1234, 0x56, 0x78)), 0x1234_5678);
    assert_eq!(ProtoVersion::encode_version(SemVer::new(1, 3, 0)), 0x0001_0300);
}

#[test]
fn version_new_fills_every_field() {
    let v = Version::new(SemVer::new(1, 2, 7), "Rumble", "Linux", "6.1");
    assert_eq!(
        v,
        Version {
            version: 0x0001_0207,
            release: "Rumble".to_string(),
            os: "Linux".to_string(),
            os_version: "6.1".to_string(),
        }
    );
}

#[test]
fn version_to_buffer_writes_four_fields() {
    let v = Version::new(SemVer::new(1, 2, 7), "Rumble", "Unknown", "Unknown");
    let mut expected = vec![0x08, 0x87, 0x84, 0x04];
    expected.extend_from_slice(&[0x12, 6]);
    expected.extend_from_slice(b"Rumble");
    expected.extend_from_slice(&[0x1a, 7]);
    expected.extend_from_slice(b"Unknown");
    expected.extend_from_slice(&[0x22, 7]);
    expected.extend_from_slice(b"Unknown");
    assert_eq!(v.to_buffer(), expected);
}

#[test]
fn version_to_buffer_writes_text_as_utf8() {
    let v = Version::new(SemVer::new(0, 0, 1), "é", "", "");
    assert_eq!(v.to_buffer(), vec![0x08, 0x01, 0x12, 2, 0xc3, 0xa9, 0x1a, 0, 0x22, 0]);
}

#[test]
fn set_semver_changes_the_version_only() {
    let mut v = ProtoVersion {
        version: 0,
        release: "r".to_string(),
        os: "o".to_string(),
        os_version: "v".to_string(),
    };
    v.set_semver(SemVer::new(1, 2, 7));
    assert_eq!(
        v,
        ProtoVersion {
            version: 0x0001_0207,
            release: "r".to_string(),
            os: "o".to_string(),
            os_version: "v".to_string(),
        }
    );
}

#[test]
fn authenticate_to_buffer_writes_name_then_password() {
    let a = Authenticate { username: "bot".to_string(), password: "pw".to_string() };
    assert_eq!(a.to_buffer(), vec![0x0a, 3, b'b', b'o', b't', 0x12, 2, b'p', b'w']);
    let a = Authenticate { username: "bot".to_string(), password: String::new() };
    assert_eq!(a.to_buffer(), vec![0x0a, 3, b'b', b'o', b't', 0x12, 0]);
}

#[test]
fn ping_to_buffer_is_empty() {
    assert_eq!(Ping {}.to_buffer(), Vec::<u8>::new());
}

#[test]
fn user_state_to_buffer_writes_present_fields_in_order() {
    let u = UserState { session: Some(5), actor: Some(5), channel_id: Some(9) };
    assert_eq!(u.to_buffer(), vec![0x08, 5, 0x10, 5, 0x28, 9]);
    let u = UserState { session: Some(300), actor: None, channel_id: None };
    assert_eq!(u.to_buffer(), vec![0x08, 0xac, 0x02]);
    let u = UserState { session: None, actor: None, channel_id: Some(0) };
    assert_eq!(u.to_buffer(), vec![0x28, 0]);
    let u = UserState { session: None, actor: None, channel_id: None };
    assert_eq!(u.to_buffer(), Vec::<u8>::new());
}

#[test]
fn user_state_decode_reads_session_actor_channel() {
    assert_eq!(
        UserState::decode(&[0x08, 0x07, 0x28, 0x03]),
        Some(UserState { session: Some(7), actor: None, channel_id: Some(3) })
    );
    assert_eq!(
        UserState::decode(&[0x08, 0x07]),
        Some(UserState { session: Some(7), actor: None, channel_id: None })
    );
    assert_eq!(
        UserState::decode(&[0x10, 0x02, 0x1a, 0x01, b'x', 0x08, 0x07, 0x28, 0x00]),
        Some(UserState { session: Some(7), actor: Some(2), channel_id: Some(0) })
    );
    assert_eq!(
        UserState::decode(&[]),
        Some(UserState { session: None, actor: None, channel_id: None })
    );
    assert_eq!(UserState::decode(&[0x08]), None);
}

#[test]
fn user_state_round_trip() {
    let u = UserState { session: Some(0xffff_ffff), actor: Some(1), channel_id: Some(70_000) };
    assert_eq!(UserState::decode(&u.to_buffer()), Some(u));
}

#[test]
fn server_sync_decode_reads_session() {
    assert_eq!(ServerSync::decode(&[0x08, 0x05]), Some(ServerSync { session: Some(5) }));
    assert_eq!(
        ServerSync::decode(&[0x10, 0x64, 0x08, 0x05, 0x1a, 0x02, b'h', b'i']),
        Some(ServerSync { session: Some(5) })
    );
    assert_eq!(ServerSync::decode(&[]), Some(ServerSync { session: None }));
    assert_eq!(ServerSync::decode(&[0x08, 0xff]), None);
}

#[test]
fn text_message_to_buffer_writes_actor_channels_text() {
    let t = TextMessage { actor: Some(5), channel_id: vec![0], message: b"hi".to_vec() };
    assert_eq!(t.to_buffer(), vec![0x08, 5, 0x18, 0, 0x2a, 2, b'h', b'i']);
    let t = TextMessage { actor: None, channel_id: vec![1, 2, 300], message: vec![] };
    assert_eq!(t.to_buffer(), vec![0x18, 1, 0x18, 2, 0x18, 0xac, 0x02, 0x2a, 0]);
}

#[test]
fn text_message_decode_reads_actor_channels_text() {
    assert_eq!(
        TextMessage::decode(&[0x08, 0x05, 0x2a, 0x02, b'h', b'i']),
        Some(TextMessage { actor: Some(5), channel_id: vec![], message: b"hi".to_vec() })
    );
    assert_eq!(
        TextMessage::decode(&[0x18, 1, 0x18, 2, 0x2a, 1, b'x']),
        Some(TextMessage { actor: None, channel_id: vec![1, 2], message: b"x".to_vec() })
    );
    assert_eq!(
        TextMessage::decode(&[]),
        Some(TextMessage { actor: None, channel_id: vec![], message: vec![] })
    );
    assert_eq!(TextMessage::decode(&[0x2a, 0x09]), None);
}

#[test]
fn text_message_round_trip() {
    let t = TextMessage { actor: Some(7), channel_id: vec![3, 0, 9], message: b"hello".to_vec() };
    assert_eq!(TextMessage::decode(&t.to_buffer()), Some(t));
}
