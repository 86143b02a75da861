//! The connection: typed send and receive over the bytes of a duplex stream.
//!
//! The connection never touches the stream. Whoever drives it hands over the
//! bytes that arrived with [`Connection::feed`], writes out the bytes that
//! [`Connection::take_outbound`] returns, and reports the end of the stream
//! with [`Connection::shutdown`].

use crate::error::{error_of, Error, ProtocolError, TransportError};
use crate::frame::{
    decode_frame, decode_header, frame_bytes, frame_complete, frame_payload, frame_size,
    header_length, header_tag, lemma_frame_round_trip, HEADER_LEN,
};
use crate::message_types::{
    decoded, encoded, MessageType, MessageView, MAX_TAG, TAG_AUTHENTICATE, TAG_UDP_TUNNEL,
    TAG_VERSION,
};
use crate::wire::well_formed;
use crate::mumble::Authenticate;
use crate::proto::{text_bytes, version_payload, Message, SemVer, Version};
use crate::wire::bytes_field;
use vstd::prelude::*;

verus! {

/// Typed send and receive over buffered bytes.
#[derive(Clone, Debug, PartialEq, Eq)]
pub struct Connection {
    /// Bytes that arrived and are not yet decoded.
    inbound: Vec<u8>,
    /// Frames that are encoded and not yet written out.
    outbound: Vec<u8>,
    /// Why the connection is dead, once it is.
    failure: Option<Error>,
    /// The longest payload that is accepted from the server.
    limit: u32,
}

/// Mathematical model of a [`Connection`].
pub struct ConnectionView {
    pub inbound: Seq<u8>,
    pub outbound: Seq<u8>,
    pub failure: Option<Error>,
    pub limit: u32,
}

impl View for Connection {
    type V = ConnectionView;

    closed spec fn view(&self) -> ConnectionView {
        ConnectionView {
            inbound: self.inbound@,
            outbound: self.outbound@,
            failure: self.failure,
            limit: self.limit,
        }
    }
}

/// Whether the inbound bytes start with a header that announces a payload
/// longer than the connection accepts.
pub open spec fn oversized(c: ConnectionView) -> bool {
    c.inbound.len() >= HEADER_LEN && header_length(c.inbound) > c.limit
}

/// What one receive yields.
///
/// A connection that met a protocol error yields that error ever after. Else
/// a header that announces more than the connection accepts yields
/// `MalformedLength`, and a whole frame at the front of the inbound bytes
/// yields its message, or the error of its tag or payload. With no whole
/// frame there, an open connection yields nothing for now; one that was shut
/// down yields `IncompleteFrame` where bytes are left over, and the cause it
/// was shut down with where none are.
pub open spec fn received(c: ConnectionView) -> Result<Option<MessageView>, Error> {
    match c.failure {
        Some(Error::Protocol(e)) => Err(Error::Protocol(e)),
        _ => if oversized(c) {
            Err(Error::Protocol(ProtocolError::MalformedLength))
        } else if frame_complete(c.inbound) {
            match decoded(header_tag(c.inbound), frame_payload(c.inbound)) {
                Ok(m) => Ok(Some(m)),
                Err(e) => Err(e),
            }
        } else {
            match c.failure {
                Some(e) => if c.inbound.len() > 0 {
                    Err(Error::Protocol(ProtocolError::IncompleteFrame))
                } else {
                    Err(e)
                },
                None => Ok(None),
            }
        },
    }
}

/// The connection after one receive: a whole frame at the front is gone from
/// the inbound bytes, and a protocol error is remembered.
pub open spec fn after_read(c: ConnectionView) -> ConnectionView {
    match c.failure {
        Some(Error::Protocol(_)) => c,
        _ => if oversized(c) {
            ConnectionView { failure: Some(Error::Protocol(ProtocolError::MalformedLength)), ..c }
        } else if frame_complete(c.inbound) {
            ConnectionView {
                inbound: c.inbound.skip(frame_size(c.inbound)),
                failure: match decoded(header_tag(c.inbound), frame_payload(c.inbound)) {
                    Ok(_) => c.failure,
                    Err(e) => Some(e),
                },
                ..c
            }
        } else {
            match c.failure {
                Some(_) => if c.inbound.len() > 0 {
                    ConnectionView {
                        failure: Some(Error::Protocol(ProtocolError::IncompleteFrame)),
                        ..c
                    }
                } else {
                    c
                },
                None => c,
            }
        },
    }
}

/// A connection on which nothing has happened yet.
pub open spec fn fresh() -> ConnectionView {
    ConnectionView {
        inbound: Seq::empty(),
        outbound: Seq::empty(),
        failure: None,
        limit: u32::MAX,
    }
}

/// The outbound bytes after sending `message`, or why it cannot be sent: a
/// dead connection sends nothing, and a message that cannot be framed is
/// refused.
pub open spec fn sent(c: ConnectionView, message: MessageView) -> Result<Seq<u8>, Error> {
    match c.failure {
        Some(e) => Err(e),
        None => match encoded(message) {
            Ok(bytes) => Ok(c.outbound + bytes),
            Err(e) => Err(e),
        },
    }
}

/// What one side sends, the other receives. A live connection whose inbound
/// bytes start with the frame of a message that can be sent, with a payload
/// of whole fields that is no longer than the connection accepts, yields that
/// very message and keeps what follows.
pub proof fn lemma_receive_what_was_sent(c: ConnectionView, message: MessageView, rest: Seq<u8>)
    requires
        c.failure is None,
        message.tag <= MAX_TAG,
        message.tag != TAG_UDP_TUNNEL,
        well_formed(message.payload),
        message.payload.len() <= c.limit,
        c.inbound == frame_bytes(message.tag, message.payload) + rest,
    ensures
        received(c) == Ok::<Option<MessageView>, Error>(Some(message)),
        after_read(c) == (ConnectionView { inbound: rest, ..c }),
{
    lemma_frame_round_trip(message.tag, message.payload, rest);
}

/// The payload that announces who is connecting: field 1 holds the name,
/// field 2 the password.
pub open spec fn authenticate_payload(username: Seq<char>, password: Seq<char>) -> Seq<u8> {
    bytes_field(1, text_bytes(username)) + bytes_field(2, text_bytes(password))
}

/// The text of a password that may be missing: a missing one is empty.
pub open spec fn password_text(password: Option<&str>) -> Seq<char> {
    match password {
        Some(p) => p@,
        None => Seq::empty(),
    }
}

/// The outbound bytes after the opening messages: a Version message without
/// any field, then an Authenticate message with name and password, and the
/// error where one of them could not be sent. Where the latter cannot be
/// framed, the Version message is all that was added.
pub open spec fn initialized(c: ConnectionView, username: Seq<char>, password: Seq<char>) -> (
    Seq<u8>,
    Option<Error>,
) {
    match sent(c, MessageView { tag: TAG_VERSION, payload: Seq::empty() }) {
        Err(e) => (c.outbound, Some(e)),
        Ok(first) => match sent(
            ConnectionView { outbound: first, ..c },
            MessageView { tag: TAG_AUTHENTICATE, payload: authenticate_payload(username, password) },
        ) {
            Err(e) => (first, Some(e)),
            Ok(second) => (second, None),
        },
    }
}

/// The version information that this client announces.
pub open spec fn client_version_payload() -> Seq<u8> {
    version_payload(0x0001_0207, "Rumble"@, "Unknown"@, "Unknown"@)
}

impl Connection {
    /// Opens a connection with nothing received and nothing to send, which
    /// accepts payloads of any length that a frame can announce.
    pub fn new() -> (r: Connection)
        ensures
            r@ == fresh(),
    {
        Connection { inbound: Vec::new(), outbound: Vec::new(), failure: None, limit: u32::MAX }
    }

    /// Sets the longest payload that is accepted from the server. A frame
    /// that announces more is refused as soon as its header has arrived.
    pub fn set_limit(&mut self, limit: u32)
        ensures
            final(self)@ == (ConnectionView { limit, ..old(self)@ }),
    {
        self.limit = limit;
    }

    /// The longest payload that is accepted from the server.
    pub fn limit(&self) -> (r: u32)
        ensures
            r == self@.limit,
    {
        self.limit
    }

    /// Takes in bytes that arrived on the stream.
    pub fn feed(&mut self, bytes: &[u8])
        ensures
            final(self)@ == (ConnectionView {
                inbound: old(self)@.inbound + bytes@,
                ..old(self)@
            }),
    {
        self.inbound.extend_from_slice(bytes);
        assert(self.inbound@ =~= old(self)@.inbound + bytes@);
    }

    /// Records that the stream is gone. The first cause stays.
    pub fn shutdown(&mut self, cause: TransportError)
        ensures
            final(self)@ == (ConnectionView {
                failure: match old(self)@.failure {
                    Some(e) => Some(e),
                    None => Some(Error::Transport(cause)),
                },
                ..old(self)@
            }),
    {
        if self.failure.is_none() {
            self.failure = Some(Error::Transport(cause));
        }
    }

    /// Why the connection is dead, if it is.
    pub fn failure(&self) -> (r: Option<Error>)
        ensures
            r == self@.failure,
    {
        self.failure
    }

    /// How many bytes wait to be decoded.
    pub fn buffered(&self) -> (r: usize)
        ensures
            r == self@.inbound.len(),
    {
        self.inbound.len()
    }

    /// Hands out the bytes to write to the stream, and forgets them.
    pub fn take_outbound(&mut self) -> (r: Vec<u8>)
        ensures
            r@ == old(self)@.outbound,
            final(self)@ == (ConnectionView { outbound: Seq::empty(), ..old(self)@ }),
    {
        let rest = self.outbound.split_off(0);
        assert(rest@ =~= old(self)@.outbound);
        assert(self.outbound@ =~= Seq::<u8>::empty());
        rest
    }

    /// Returns a message received from the server if there is one.
    ///
    /// `Ok(None)` says that no whole frame has arrived yet.
    pub fn read(&mut self) -> (r: Result<Option<MessageType>, Error>)
        ensures
            final(self)@ == after_read(old(self)@),
            match r {
                Ok(Some(m)) => received(old(self)@) == Ok::<Option<MessageView>, Error>(Some(m@)),
                Ok(None) => received(old(self)@) == Ok::<Option<MessageView>, Error>(None),
                Err(e) => received(old(self)@) == Err::<Option<MessageView>, Error>(e),
            },
    {
        if let Some(Error::Protocol(e)) = self.failure {
            return Err(Error::Protocol(e));
        }
        if let Some((_, length)) = decode_header(self.inbound.as_slice()) {
            if length > self.limit {
                let refused = Error::Protocol(ProtocolError::MalformedLength);
                self.failure = Some(refused);
                return Err(refused);
            }
        }
        match decode_frame(self.inbound.as_slice()) {
            Ok((frame, used)) => {
                let rest = self.inbound.split_off(used);
                self.inbound = rest;
                assert(self.inbound@ =~= old(self)@.inbound.skip(used as int));
                match MessageType::from_raw(frame.tag, frame.payload.as_slice()) {
                    Ok(m) => Ok(Some(m)),
                    Err(e) => {
                        self.failure = Some(e);
                        Err(e)
                    },
                }
            },
            Err(_) => match self.failure {
                Some(e) => {
                    if self.inbound.len() > 0 {
                        let incomplete = Error::Protocol(ProtocolError::IncompleteFrame);
                        self.failure = Some(incomplete);
                        Err(incomplete)
                    } else {
                        Err(e)
                    }
                },
                None => Ok(None),
            },
        }
    }

    /// Sends a message to the server: its frame joins the outbound bytes in
    /// one piece. Where the call fails nothing changes.
    pub fn send(&mut self, message: &MessageType) -> (r: Result<(), Error>)
        ensures
            final(self)@.inbound == old(self)@.inbound,
            final(self)@.failure == old(self)@.failure,
            final(self)@.limit == old(self)@.limit,
            match r {
                Ok(_) => sent(old(self)@, message@) == Ok::<Seq<u8>, Error>(final(self)@.outbound),
                Err(e) => sent(old(self)@, message@) == Err::<Seq<u8>, Error>(e) && final(self)@
                    == old(self)@,
            },
    {
        if let Some(e) = self.failure {
            return Err(e);
        }
        match message.to_raw() {
            Ok(mut bytes) => {
                self.outbound.append(&mut bytes);
                Ok(())
            },
            Err(e) => Err(e),
        }
    }

    /// Opens the conversation: sends a Version message, then an Authenticate
    /// message, without waiting for any answer between the two.
    pub fn initialize(&mut self, username: &str, password: Option<&str>) -> (r: Result<(), Error>)
        ensures
            final(self)@.inbound == old(self)@.inbound,
            final(self)@.failure == old(self)@.failure,
            final(self)@.limit == old(self)@.limit,
            (final(self)@.outbound, error_of(r)) == initialized(
                old(self)@,
                username@,
                password_text(password),
            ),
    {
        let version_message = MessageType::Version(Vec::new());
        assert(version_message@.payload =~= Seq::<u8>::empty());
        assert(version_message@ == MessageView { tag: TAG_VERSION, payload: Seq::empty() });
        match self.send(&version_message) {
            Ok(_) => {},
            Err(e) => {
                return Err(e);
            },
        }
        let ghost first = self@;
        assert(first == (ConnectionView { outbound: first.outbound, ..old(self)@ }));
        let secret: &str = match password {
            Some(p) => p,
            None => {
                proof {
                    reveal_strlit("");
                }
                ""
            },
        };
        assert(secret@ =~= password_text(password));
        let authenticate = Authenticate {
            username: username.to_owned(),
            password: secret.to_owned(),
        };
        let message = MessageType::Authenticate(authenticate.to_buffer());
        assert(message@ == MessageView {
            tag: TAG_AUTHENTICATE,
            payload: authenticate_payload(username@, password_text(password)),
        });
        self.send(&message)
    }

    /// Sends this client's version information: protocol version 1.2.7 and
    /// the names of the client and its system.
    pub fn send_version(&mut self) -> (r: Result<(), Error>)
        ensures
            final(self)@.inbound == old(self)@.inbound,
            final(self)@.failure == old(self)@.failure,
            final(self)@.limit == old(self)@.limit,
            match r {
                Ok(_) => sent(
                    old(self)@,
                    MessageView { tag: TAG_VERSION, payload: client_version_payload() },
                ) == Ok::<Seq<u8>, Error>(final(self)@.outbound),
                Err(e) => sent(old(self)@, MessageView { tag: TAG_VERSION, payload: client_version_payload() })
                    == Err::<Seq<u8>, Error>(e) && final(self)@ == old(self)@,
            },
    {
        let version = Version::new(SemVer::new(1, 2, 7), "Rumble", "Unknown", "Unknown");
        let message = MessageType::Version(version.to_buffer());
        self.send(&message)
    }
}

} // verus!
