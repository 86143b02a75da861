//! The message registry: which tag stands for which kind of message, and the
//! plumbing between tag, kind and payload bytes.

use crate::error::{Error, LogicError, ProtocolError};
use crate::frame::{
    encode_frame, frame_bytes, frame_complete, frame_payload, header_tag, lemma_frame_round_trip,
};
use crate::wire::{decode_fields, well_formed};
use vstd::prelude::*;

verus! {

/// The largest tag that names a message kind.
pub const MAX_TAG: u16 = 25;

/// The tag of Version messages.
pub const TAG_VERSION: u16 = 0;

/// The tag of the one kind that carries no structured payload.
pub const TAG_UDP_TUNNEL: u16 = 1;

/// The tag of Authenticate messages.
pub const TAG_AUTHENTICATE: u16 = 2;

/// The tag of Ping messages.
pub const TAG_PING: u16 = 3;

/// The tag of ServerSync messages.
pub const TAG_SERVER_SYNC: u16 = 5;

/// The tag of UserState messages.
pub const TAG_USER_STATE: u16 = 9;

/// The tag of TextMessage messages.
pub const TAG_TEXT_MESSAGE: u16 = 11;

/// All kinds of message, each with its payload as it stands on the wire.
///
/// `UDPTunnel` carries nothing: what a frame of that kind holds is opaque to
/// this engine and dropped.
#[derive(Clone, Debug, PartialEq, Eq)]
pub enum MessageType {
    Version(Vec<u8>),
    UDPTunnel,
    Authenticate(Vec<u8>),
    Ping(Vec<u8>),
    Reject(Vec<u8>),
    ServerSync(Vec<u8>),
    ChannelRemove(Vec<u8>),
    ChannelState(Vec<u8>),
    UserRemove(Vec<u8>),
    UserState(Vec<u8>),
    BanList(Vec<u8>),
    TextMessage(Vec<u8>),
    PermissionDenied(Vec<u8>),
    ACL(Vec<u8>),
    QueryUsers(Vec<u8>),
    CryptSetup(Vec<u8>),
    ContextActionModify(Vec<u8>),
    ContextAction(Vec<u8>),
    UserList(Vec<u8>),
    VoiceTarget(Vec<u8>),
    PermissionQuery(Vec<u8>),
    CodecVersion(Vec<u8>),
    UserStats(Vec<u8>),
    RequestBlob(Vec<u8>),
    ServerConfig(Vec<u8>),
    SuggestConfig(Vec<u8>),
}

/// A message as the wire sees it: the tag of its kind and its payload.
pub struct MessageView {
    pub tag: u16,
    pub payload: Seq<u8>,
}

impl View for MessageType {
    type V = MessageView;

    open spec fn view(&self) -> MessageView {
        match *self {
            MessageType::Version(p) => MessageView { tag: 0, payload: p@ },
            MessageType::UDPTunnel => MessageView { tag: 1, payload: Seq::empty() },
            MessageType::Authenticate(p) => MessageView { tag: 2, payload: p@ },
            MessageType::Ping(p) => MessageView { tag: 3, payload: p@ },
            MessageType::Reject(p) => MessageView { tag: 4, payload: p@ },
            MessageType::ServerSync(p) => MessageView { tag: 5, payload: p@ },
            MessageType::ChannelRemove(p) => MessageView { tag: 6, payload: p@ },
            MessageType::ChannelState(p) => MessageView { tag: 7, payload: p@ },
            MessageType::UserRemove(p) => MessageView { tag: 8, payload: p@ },
            MessageType::UserState(p) => MessageView { tag: 9, payload: p@ },
            MessageType::BanList(p) => MessageView { tag: 10, payload: p@ },
            MessageType::TextMessage(p) => MessageView { tag: 11, payload: p@ },
            MessageType::PermissionDenied(p) => MessageView { tag: 12, payload: p@ },
            MessageType::ACL(p) => MessageView { tag: 13, payload: p@ },
            MessageType::QueryUsers(p) => MessageView { tag: 14, payload: p@ },
            MessageType::CryptSetup(p) => MessageView { tag: 15, payload: p@ },
            MessageType::ContextActionModify(p) => MessageView { tag: 16, payload: p@ },
            MessageType::ContextAction(p) => MessageView { tag: 17, payload: p@ },
            MessageType::UserList(p) => MessageView { tag: 18, payload: p@ },
            MessageType::VoiceTarget(p) => MessageView { tag: 19, payload: p@ },
            MessageType::PermissionQuery(p) => MessageView { tag: 20, payload: p@ },
            MessageType::CodecVersion(p) => MessageView { tag: 21, payload: p@ },
            MessageType::UserStats(p) => MessageView { tag: 22, payload: p@ },
            MessageType::RequestBlob(p) => MessageView { tag: 23, payload: p@ },
            MessageType::ServerConfig(p) => MessageView { tag: 24, payload: p@ },
            MessageType::SuggestConfig(p) => MessageView { tag: 25, payload: p@ },
        }
    }
}

/// What [`MessageType::from_raw`] makes of a tag and a payload.
pub open spec fn decoded(id: u16, payload: Seq<u8>) -> Result<MessageView, Error> {
    if id > MAX_TAG {
        Err(Error::Protocol(ProtocolError::UnknownTag))
    } else if id == TAG_UDP_TUNNEL {
        Ok(MessageView { tag: TAG_UDP_TUNNEL, payload: Seq::empty() })
    } else if !well_formed(payload) {
        Err(Error::Protocol(ProtocolError::MalformedPayload))
    } else {
        Ok(MessageView { tag: id, payload })
    }
}

/// What [`MessageType::to_raw`] makes of a message.
pub open spec fn encoded(message: MessageView) -> Result<Seq<u8>, Error> {
    if message.tag == TAG_UDP_TUNNEL {
        Err(Error::Logic(LogicError::Unsendable))
    } else if message.payload.len() > u32::MAX {
        Err(Error::Protocol(ProtocolError::MalformedLength))
    } else {
        Ok(frame_bytes(message.tag, message.payload))
    }
}

/// Decoding gives back what was encoded. For every kind that can be sent and
/// every payload that is a sequence of whole fields and fits a frame, the
/// bytes that encoding makes, whatever follows them, start with a whole frame
/// whose tag and payload decode to the same message.
pub proof fn lemma_round_trip(message: MessageType, rest: Seq<u8>)
    requires
        !(message is UDPTunnel),
        well_formed(message@.payload),
        message@.payload.len() <= u32::MAX,
    ensures
        encoded(message@) == Ok::<Seq<u8>, Error>(
            frame_bytes(message@.tag, message@.payload),
        ),
        frame_complete(frame_bytes(message@.tag, message@.payload) + rest),
        decoded(
            header_tag(frame_bytes(message@.tag, message@.payload) + rest),
            frame_payload(frame_bytes(message@.tag, message@.payload) + rest),
        ) == Ok::<MessageView, Error>(message@),
{
    lemma_frame_round_trip(message@.tag, message@.payload, rest);
    assert(message@.tag != TAG_UDP_TUNNEL && message@.tag <= MAX_TAG);
}

/// A tag that names no kind is refused whatever the payload holds.
pub proof fn lemma_unknown_tag(id: u16, payload: Seq<u8>)
    requires
        id > MAX_TAG,
    ensures
        decoded(id, payload) == Err::<MessageView, Error>(
            Error::Protocol(ProtocolError::UnknownTag),
        ),
{
}

impl MessageType {
    /// The tag of this message's kind.
    pub fn tag(&self) -> (r: u16)
        ensures
            r == self@.tag,
            r <= MAX_TAG,
    {
        match self {
            MessageType::Version(_) => 0,
            MessageType::UDPTunnel => 1,
            MessageType::Authenticate(_) => 2,
            MessageType::Ping(_) => 3,
            MessageType::Reject(_) => 4,
            MessageType::ServerSync(_) => 5,
            MessageType::ChannelRemove(_) => 6,
            MessageType::ChannelState(_) => 7,
            MessageType::UserRemove(_) => 8,
            MessageType::UserState(_) => 9,
            MessageType::BanList(_) => 10,
            MessageType::TextMessage(_) => 11,
            MessageType::PermissionDenied(_) => 12,
            MessageType::ACL(_) => 13,
            MessageType::QueryUsers(_) => 14,
            MessageType::CryptSetup(_) => 15,
            MessageType::ContextActionModify(_) => 16,
            MessageType::ContextAction(_) => 17,
            MessageType::UserList(_) => 18,
            MessageType::VoiceTarget(_) => 19,
            MessageType::PermissionQuery(_) => 20,
            MessageType::CodecVersion(_) => 21,
            MessageType::UserStats(_) => 22,
            MessageType::RequestBlob(_) => 23,
            MessageType::ServerConfig(_) => 24,
            MessageType::SuggestConfig(_) => 25,
        }
    }

    /// The payload of this message; `None` for the kind that carries none.
    pub fn payload(&self) -> (r: Option<&Vec<u8>>)
        ensures
            self is UDPTunnel <==> r is None,
            r matches Some(p) ==> p@ == self@.payload,
    {
        match self {
            MessageType::UDPTunnel => None,
            MessageType::Version(p) => Some(p),
            MessageType::Authenticate(p) => Some(p),
            MessageType::Ping(p) => Some(p),
            MessageType::Reject(p) => Some(p),
            MessageType::ServerSync(p) => Some(p),
            MessageType::ChannelRemove(p) => Some(p),
            MessageType::ChannelState(p) => Some(p),
            MessageType::UserRemove(p) => Some(p),
            MessageType::UserState(p) => Some(p),
            MessageType::BanList(p) => Some(p),
            MessageType::TextMessage(p) => Some(p),
            MessageType::PermissionDenied(p) => Some(p),
            MessageType::ACL(p) => Some(p),
            MessageType::QueryUsers(p) => Some(p),
            MessageType::CryptSetup(p) => Some(p),
            MessageType::ContextActionModify(p) => Some(p),
            MessageType::ContextAction(p) => Some(p),
            MessageType::UserList(p) => Some(p),
            MessageType::VoiceTarget(p) => Some(p),
            MessageType::PermissionQuery(p) => Some(p),
            MessageType::CodecVersion(p) => Some(p),
            MessageType::UserStats(p) => Some(p),
            MessageType::RequestBlob(p) => Some(p),
            MessageType::ServerConfig(p) => Some(p),
            MessageType::SuggestConfig(p) => Some(p),
        }
    }

    /// Checks that `payload` is a sequence of whole fields, and keeps it.
    fn interpret_bytes(payload: &[u8]) -> (r: Result<Vec<u8>, Error>)
        ensures
            well_formed(payload@) ==> r is Ok && r->Ok_0@ == payload@,
            !well_formed(payload@) ==> r == Err::<Vec<u8>, Error>(
                Error::Protocol(ProtocolError::MalformedPayload),
            ),
    {
        match decode_fields(payload) {
            Some(_) => Ok(vstd::slice::slice_to_vec(payload)),
            None => Err(Error::Protocol(ProtocolError::MalformedPayload)),
        }
    }

    /// Makes the message of kind `id` that carries `payload`.
    ///
    /// A tag above 25 fails with `UnknownTag`, whatever the payload. Tag 1 has
    /// no payload: the bytes are dropped. For every other tag the payload must
    /// be a sequence of whole fields, else the call fails with
    /// `MalformedPayload`.
    pub fn from_raw(id: u16, payload: &[u8]) -> (r: Result<MessageType, Error>)
        ensures
            match r {
                Ok(m) => decoded(id, payload@) == Ok::<MessageView, Error>(m@),
                Err(e) => decoded(id, payload@) == Err::<MessageView, Error>(e),
            },
            id > MAX_TAG ==> r is Err && r->Err_0 == Error::Protocol(ProtocolError::UnknownTag),
    {
        Ok(
            match id {
                0 => MessageType::Version(Self::interpret_bytes(payload)?),
                1 => MessageType::UDPTunnel,
                2 => MessageType::Authenticate(Self::interpret_bytes(payload)?),
                3 => MessageType::Ping(Self::interpret_bytes(payload)?),
                4 => MessageType::Reject(Self::interpret_bytes(payload)?),
                5 => MessageType::ServerSync(Self::interpret_bytes(payload)?),
                6 => MessageType::ChannelRemove(Self::interpret_bytes(payload)?),
                7 => MessageType::ChannelState(Self::interpret_bytes(payload)?),
                8 => MessageType::UserRemove(Self::interpret_bytes(payload)?),
                9 => MessageType::UserState(Self::interpret_bytes(payload)?),
                10 => MessageType::BanList(Self::interpret_bytes(payload)?),
                11 => MessageType::TextMessage(Self::interpret_bytes(payload)?),
                12 => MessageType::PermissionDenied(Self::interpret_bytes(payload)?),
                13 => MessageType::ACL(Self::interpret_bytes(payload)?),
                14 => MessageType::QueryUsers(Self::interpret_bytes(payload)?),
                15 => MessageType::CryptSetup(Self::interpret_bytes(payload)?),
                16 => MessageType::ContextActionModify(Self::interpret_bytes(payload)?),
                17 => MessageType::ContextAction(Self::interpret_bytes(payload)?),
                18 => MessageType::UserList(Self::interpret_bytes(payload)?),
                19 => MessageType::VoiceTarget(Self::interpret_bytes(payload)?),
                20 => MessageType::PermissionQuery(Self::interpret_bytes(payload)?),
                21 => MessageType::CodecVersion(Self::interpret_bytes(payload)?),
                22 => MessageType::UserStats(Self::interpret_bytes(payload)?),
                23 => MessageType::RequestBlob(Self::interpret_bytes(payload)?),
                24 => MessageType::ServerConfig(Self::interpret_bytes(payload)?),
                25 => MessageType::SuggestConfig(Self::interpret_bytes(payload)?),
                _ => {
                    return Err(Error::Protocol(ProtocolError::UnknownTag));
                },
            },
        )
    }

    /// Turns the message into the bytes of its frame.
    ///
    /// `UDPTunnel` fails with `Unsendable`; a payload too long for the length
    /// field fails with `MalformedLength`.
    pub fn to_raw(&self) -> (r: Result<Vec<u8>, Error>)
        ensures
            match r {
                Ok(bytes) => encoded(self@) == Ok::<Seq<u8>, Error>(bytes@),
                Err(e) => encoded(self@) == Err::<Seq<u8>, Error>(e),
            },
    {
        match self {
            MessageType::Version(data) => Self::create_bytes(0, data),
            MessageType::Authenticate(data) => Self::create_bytes(2, data),
            MessageType::Ping(data) => Self::create_bytes(3, data),
            MessageType::Reject(data) => Self::create_bytes(4, data),
            MessageType::ServerSync(data) => Self::create_bytes(5, data),
            MessageType::ChannelRemove(data) => Self::create_bytes(6, data),
            MessageType::ChannelState(data) => Self::create_bytes(7, data),
            MessageType::UserRemove(data) => Self::create_bytes(8, data),
            MessageType::UserState(data) => Self::create_bytes(9, data),
            MessageType::BanList(data) => Self::create_bytes(10, data),
            MessageType::TextMessage(data) => Self::create_bytes(11, data),
            MessageType::PermissionDenied(data) => Self::create_bytes(12, data),
            MessageType::ACL(data) => Self::create_bytes(13, data),
            MessageType::QueryUsers(data) => Self::create_bytes(14, data),
            MessageType::CryptSetup(data) => Self::create_bytes(15, data),
            MessageType::ContextActionModify(data) => Self::create_bytes(16, data),
            MessageType::ContextAction(data) => Self::create_bytes(17, data),
            MessageType::UserList(data) => Self::create_bytes(18, data),
            MessageType::VoiceTarget(data) => Self::create_bytes(19, data),
            MessageType::PermissionQuery(data) => Self::create_bytes(20, data),
            MessageType::CodecVersion(data) => Self::create_bytes(21, data),
            MessageType::UserStats(data) => Self::create_bytes(22, data),
            MessageType::RequestBlob(data) => Self::create_bytes(23, data),
            MessageType::ServerConfig(data) => Self::create_bytes(24, data),
            MessageType::SuggestConfig(data) => Self::create_bytes(25, data),
            MessageType::UDPTunnel => Err(Error::Logic(LogicError::Unsendable)),
        }
    }

    /// Frames `data` under the tag `id`.
    fn create_bytes(id: u16, data: &Vec<u8>) -> (r: Result<Vec<u8>, Error>)
        ensures
            data@.len() <= u32::MAX ==> r is Ok && r->Ok_0@ == frame_bytes(id, data@),
            data@.len() > u32::MAX ==> r == Err::<Vec<u8>, Error>(
                Error::Protocol(ProtocolError::MalformedLength),
            ),
    {
        encode_frame(id, data.as_slice())
    }
}

} // verus!
