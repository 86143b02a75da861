//! The session: the state machine that turns the stream of messages into a
//! consistent local view of identity and roster, gates what may be sent, and
//! says when a keep-alive is due.
//!
//! The session runs no timer and waits for nothing. Whoever drives it moves
//! bytes between the stream and the session with [`Session::feed`] and
//! [`Session::take_outbound`], and calls [`Session::keep_alive`] with the
//! current time on every round.

use crate::connection::{
    after_read, authenticate_payload, fresh, initialized, lemma_receive_what_was_sent,
    password_text, received, sent, Connection, ConnectionView,
};
use crate::error::{error_of, Error, LogicError, TransportError};
use crate::frame::frame_bytes;
use crate::message_types::{
    MessageType, MessageView, MAX_TAG, TAG_AUTHENTICATE, TAG_PING, TAG_SERVER_SYNC,
    TAG_TEXT_MESSAGE, TAG_UDP_TUNNEL, TAG_USER_STATE, TAG_VERSION,
};
use crate::mumble::{Ping, ServerSync, TextMessage, UserState};
use crate::proto::{text_bytes, Message};
use crate::roster::{unique, updated, Peer, Roster};
use crate::wire::{bytes_field, fields_of, uint32_field, well_formed};
use vstd::prelude::*;

verus! {

/// Milliseconds that pass between two keep-alives.
pub const KEEP_ALIVE_INTERVAL: u64 = 20_000;

/// Where a session stands.
#[derive(Clone, Copy, Debug, PartialEq, Eq, Structural)]
pub enum Phase {
    /// The opening messages are out, the server has not yet said who we are.
    Handshaking,
    /// The server has given this client its session.
    Synchronized,
    /// The connection is dead.
    Closed,
}

/// A client's side of one conversation with a server.
#[derive(Clone, Debug, PartialEq, Eq)]
pub struct Session {
    connection: Connection,
    /// The session the server gave this client; 0 until it did.
    session_id: u32,
    /// The channel this client means to be in.
    channel_id: u32,
    users: Roster,
    phase: Phase,
    last_ping: u64,
}

/// Mathematical model of a [`Session`].
pub struct SessionView {
    pub connection: ConnectionView,
    pub session_id: u32,
    pub channel_id: u32,
    pub users: Seq<Peer>,
    pub phase: Phase,
    pub last_ping: u64,
}

impl View for Session {
    type V = SessionView;

    closed spec fn view(&self) -> SessionView {
        SessionView {
            connection: self.connection@,
            session_id: self.session_id,
            channel_id: self.channel_id,
            users: self.users@,
            phase: self.phase,
            last_ping: self.last_ping,
        }
    }
}

/// The session or channel that an optional field names: 0 where it is absent.
pub open spec fn or_zero(v: Option<u32>) -> u32 {
    match v {
        Some(v) => v,
        None => 0,
    }
}

/// The session after it took note of one inbound message. A UserState goes
/// through the roster update rule, under the session it names, or under 0
/// where it names none. A ServerSync gives the session its identity and makes
/// it synchronized. Every other kind changes nothing: a UserRemove, too, is
/// only handed on, and the peer stays in the roster.
pub open spec fn absorbed(s: SessionView, m: MessageView) -> SessionView {
    if m.tag == TAG_USER_STATE {
        match fields_of(m.payload) {
            Some(fields) => SessionView {
                users: updated(
                    s.users,
                    or_zero(UserState::of(fields).session),
                    UserState::of(fields).channel_id,
                ),
                ..s
            },
            None => s,
        }
    } else if m.tag == TAG_SERVER_SYNC {
        match fields_of(m.payload) {
            Some(fields) => SessionView {
                session_id: or_zero(ServerSync::of(fields).session),
                phase: Phase::Synchronized,
                ..s
            },
            None => s,
        }
    } else {
        s
    }
}

/// The session once its connection is known to be dead or alive: a dead
/// connection closes the session.
pub open spec fn settled(s: SessionView) -> SessionView {
    if s.connection.failure is Some {
        SessionView { phase: Phase::Closed, ..s }
    } else {
        s
    }
}

/// The session with other outbound bytes.
pub open spec fn with_outbound(s: SessionView, outbound: Seq<u8>) -> SessionView {
    SessionView { connection: ConnectionView { outbound, ..s.connection }, ..s }
}

/// What [`Session::read`] does: the session after the call, and what the
/// call returns.
pub open spec fn read_step(s: SessionView) -> (SessionView, Result<Option<MessageView>, Error>) {
    if s.phase != Phase::Synchronized {
        (s, Err(Error::Logic(LogicError::NotSynchronized)))
    } else {
        let after = SessionView { connection: after_read(s.connection), ..s };
        match received(s.connection) {
            Ok(Some(m)) => (absorbed(after, m), Ok(Some(m))),
            Ok(None) => (after, Ok(None)),
            Err(e) => (SessionView { phase: Phase::Closed, ..after }, Err(e)),
        }
    }
}

/// What [`Session::synchronize`] does: the session after the call, and what
/// the call returns. While the session is handshaking it takes one message
/// after the other from the connection, until a ServerSync arrives, no whole
/// frame is left, or the connection fails.
pub open spec fn synchronized(s: SessionView) -> (SessionView, Result<bool, Error>)
    decreases s.connection.inbound.len(),
{
    match s.phase {
        Phase::Synchronized => (s, Ok(true)),
        Phase::Closed => (s, Err(Error::Logic(LogicError::NotSynchronized))),
        Phase::Handshaking => {
            let after = SessionView { connection: after_read(s.connection), ..s };
            match received(s.connection) {
                Ok(Some(m)) => synchronized(absorbed(after, m)),
                Ok(None) => (after, Ok(false)),
                Err(e) => (SessionView { phase: Phase::Closed, ..after }, Err(e)),
            }
        },
    }
}

/// Whether a keep-alive is due at `now`, the last one having left at
/// `last_ping`.
pub open spec fn ping_due(last_ping: u64, now: u64) -> bool {
    now >= last_ping && now - last_ping >= KEEP_ALIVE_INTERVAL
}

/// The keep-alive as the wire sees it.
pub open spec fn ping_message() -> MessageView {
    MessageView { tag: TAG_PING, payload: Seq::empty() }
}

/// What [`Session::keep_alive`] does at the time `now`: the session after
/// the call, whether a keep-alive left, and the error where it could not.
pub open spec fn kept_alive(s: SessionView, now: u64) -> (SessionView, Result<bool, Error>) {
    if !ping_due(s.last_ping, now) {
        (s, Ok(false))
    } else {
        match sent(s.connection, ping_message()) {
            Ok(outbound) => (SessionView { last_ping: now, ..with_outbound(s, outbound) }, Ok(true)),
            Err(e) => (settled(s), Err(e)),
        }
    }
}

/// The payload of a line of chat from `actor` to `channel`.
pub open spec fn text_message_payload(actor: u32, channel: u32, text: Seq<u8>) -> Seq<u8> {
    uint32_field(1, actor) + uint32_field(3, channel) + bytes_field(5, text)
}

/// What [`Session::send_text_message_to`] does: the session after the call,
/// and the error where the line could not be sent.
pub open spec fn text_sent(s: SessionView, text: Seq<u8>, channel: u32) -> (
    SessionView,
    Option<Error>,
) {
    if s.phase != Phase::Synchronized {
        (s, Some(Error::Logic(LogicError::NotSynchronized)))
    } else {
        match sent(
            s.connection,
            MessageView { tag: TAG_TEXT_MESSAGE, payload: text_message_payload(s.session_id, channel, text) },
        ) {
            Ok(outbound) => (with_outbound(s, outbound), None),
            Err(e) => (settled(s), Some(e)),
        }
    }
}

/// The payload with which the client `session` asks to be moved to
/// `channel`: it names itself as the subject and as the actor.
pub open spec fn change_channel_payload(session: u32, channel: u32) -> Seq<u8> {
    uint32_field(1, session) + uint32_field(2, session) + uint32_field(5, channel)
}

/// What [`Session::change_channel`] does: the session after the call, and
/// the error where the request could not be sent.
pub open spec fn channel_changed(s: SessionView, channel: u32) -> (SessionView, Option<Error>) {
    if s.phase != Phase::Synchronized {
        (s, Some(Error::Logic(LogicError::NotSynchronized)))
    } else {
        match sent(
            s.connection,
            MessageView { tag: TAG_USER_STATE, payload: change_channel_payload(s.session_id, channel) },
        ) {
            Ok(outbound) => (SessionView { channel_id: channel, ..with_outbound(s, outbound) }, None),
            Err(e) => (settled(s), Some(e)),
        }
    }
}

/// What [`Session::connect`] makes: a handshaking session without identity
/// and with an empty roster, whose connection holds the opening messages; or
/// the error where they could not be sent.
pub open spec fn connected(username: Seq<char>, password: Seq<char>, now: u64) -> Result<
    SessionView,
    Error,
> {
    match initialized(fresh(), username, password).1 {
        Some(e) => Err(e),
        None => Ok(
            SessionView {
                connection: ConnectionView {
                    outbound: initialized(fresh(), username, password).0,
                    ..fresh()
                },
                session_id: 0,
                channel_id: 0,
                users: Seq::empty(),
                phase: Phase::Handshaking,
                last_ping: now,
            },
        ),
    }
}

/// The opening messages leave in order: where a session can be started at
/// all, its connection holds the frame of a Version message without fields,
/// then the frame of the Authenticate message, and nothing was received.
pub proof fn lemma_connect_sends_version_then_authenticate(
    username: Seq<char>,
    password: Seq<char>,
    now: u64,
)
    ensures
        connected(username, password, now) is Ok <==> authenticate_payload(
            username,
            password,
        ).len() <= u32::MAX,
        connected(username, password, now) matches Ok(s) ==> s.phase == Phase::Handshaking
            && s.connection.inbound == Seq::<u8>::empty() && s.connection.outbound == frame_bytes(
            TAG_VERSION,
            Seq::empty(),
        ) + frame_bytes(TAG_AUTHENTICATE, authenticate_payload(username, password)),
{
    let empty: Seq<u8> = Seq::empty();
    assert(empty + frame_bytes(TAG_VERSION, Seq::empty()) =~= frame_bytes(
        TAG_VERSION,
        Seq::empty(),
    ));
}

/// The handshake ends with the ServerSync. A handshaking session on a live
/// connection that has received a UserState and then a ServerSync comes out
/// synchronized, with the identity that the ServerSync names and with the
/// UserState applied to its roster; what follows the two frames stays for
/// later.
pub proof fn lemma_handshake(
    s: SessionView,
    user_state: Seq<u8>,
    server_sync: Seq<u8>,
    rest: Seq<u8>,
)
    requires
        s.phase == Phase::Handshaking,
        s.connection.failure is None,
        well_formed(user_state),
        user_state.len() <= s.connection.limit,
        well_formed(server_sync),
        server_sync.len() <= s.connection.limit,
        s.connection.inbound == frame_bytes(TAG_USER_STATE, user_state) + frame_bytes(
            TAG_SERVER_SYNC,
            server_sync,
        ) + rest,
    ensures
        synchronized(s) == (
            SessionView {
                connection: ConnectionView { inbound: rest, ..s.connection },
                session_id: or_zero(ServerSync::of(fields_of(server_sync)->Some_0).session),
                users: updated(
                    s.users,
                    or_zero(UserState::of(fields_of(user_state)->Some_0).session),
                    UserState::of(fields_of(user_state)->Some_0).channel_id,
                ),
                phase: Phase::Synchronized,
                ..s
            },
            Ok::<bool, Error>(true),
        ),
{
    let first = MessageView { tag: TAG_USER_STATE, payload: user_state };
    let second = MessageView { tag: TAG_SERVER_SYNC, payload: server_sync };
    let tail = frame_bytes(TAG_SERVER_SYNC, server_sync) + rest;
    assert(s.connection.inbound =~= frame_bytes(TAG_USER_STATE, user_state) + tail);
    lemma_receive_what_was_sent(s.connection, first, tail);
    let s1 = absorbed(SessionView { connection: after_read(s.connection), ..s }, first);
    lemma_receive_what_was_sent(s1.connection, second, rest);
    let s2 = absorbed(SessionView { connection: after_read(s1.connection), ..s1 }, second);
    assert(synchronized(s2) == (s2, Ok::<bool, Error>(true)));
    assert(synchronized(s1) == synchronized(s2));
    assert(synchronized(s) == synchronized(s1));
}

/// A synchronized session hands every message on. One of a kind that the
/// session does not read itself comes out as it came in, and neither
/// identity nor roster change.
pub proof fn lemma_read_passes_through(s: SessionView, message: MessageView, rest: Seq<u8>)
    requires
        s.phase == Phase::Synchronized,
        s.connection.failure is None,
        message.tag <= MAX_TAG,
        message.tag != TAG_UDP_TUNNEL,
        message.tag != TAG_SERVER_SYNC,
        message.tag != TAG_USER_STATE,
        well_formed(message.payload),
        message.payload.len() <= s.connection.limit,
        s.connection.inbound == frame_bytes(message.tag, message.payload) + rest,
    ensures
        read_step(s) == (
            SessionView { connection: ConnectionView { inbound: rest, ..s.connection }, ..s },
            Ok::<Option<MessageView>, Error>(Some(message)),
        ),
{
    lemma_receive_what_was_sent(s.connection, message, rest);
}

/// Keep-alives are gated by the clock. Of two calls less than an interval
/// apart, the first one being due on a live connection, exactly the first
/// sends a ping: the second changes nothing.
pub proof fn lemma_keep_alive_gating(s: SessionView, first: u64, second: u64)
    requires
        s.connection.failure is None,
        ping_due(s.last_ping, first),
        first <= second,
        second - first < KEEP_ALIVE_INTERVAL,
    ensures
        kept_alive(s, first).1 == Ok::<bool, Error>(true),
        kept_alive(s, first).0.connection.outbound == s.connection.outbound + frame_bytes(
            TAG_PING,
            Seq::empty(),
        ),
        kept_alive(kept_alive(s, first).0, second) == (
            kept_alive(s, first).0,
            Ok::<bool, Error>(false),
        ),
{
}

/// A closed session stays closed, and sends and receives nothing more.
pub proof fn lemma_closed_is_final(s: SessionView, now: u64, text: Seq<u8>, channel: u32)
    requires
        s.phase == Phase::Closed,
    ensures
        read_step(s).0 == s,
        synchronized(s).0 == s,
        text_sent(s, text, channel).0 == s,
        channel_changed(s, channel).0 == s,
        kept_alive(s, now).0.phase == Phase::Closed,
        kept_alive(s, now).0.connection.inbound == s.connection.inbound,
{
}

/// Nothing is sent before the session has its identity: a session that is
/// not synchronized refuses to send text or to change the channel, and stays
/// as it is.
pub proof fn lemma_pre_sync_guard(s: SessionView, text: Seq<u8>, channel: u32)
    requires
        s.phase != Phase::Synchronized,
    ensures
        text_sent(s, text, channel) == (s, Some(Error::Logic(LogicError::NotSynchronized))),
        channel_changed(s, channel) == (s, Some(Error::Logic(LogicError::NotSynchronized))),
{
}

impl Session {
    /// The session's invariant: no peer is in the roster twice.
    pub open spec fn wf(&self) -> bool {
        unique(self@.users)
    }

    /// Starts a session at the time `now`: opens a connection and sends a
    /// Version message, then an Authenticate message, before anything is
    /// received. The session is handshaking until [`Session::synchronize`]
    /// has seen the server's ServerSync.
    pub fn connect(username: &str, password: Option<&str>, now: u64) -> (r: Result<Session, Error>)
        ensures
            match r {
                Ok(s) => s.wf() && connected(username@, password_text(password), now) == Ok::<
                    SessionView,
                    Error,
                >(s@),
                Err(e) => connected(username@, password_text(password), now) == Err::<
                    SessionView,
                    Error,
                >(e),
            },
    {
        let mut connection = Connection::new();
        match connection.initialize(username, password) {
            Ok(_) => {},
            Err(e) => {
                return Err(e);
            },
        }
        Ok(
            Session {
                connection,
                session_id: 0,
                channel_id: 0,
                users: Roster::new(),
                phase: Phase::Handshaking,
                last_ping: now,
            },
        )
    }

    /// Whether the invariant holds. It does of every session that
    /// [`Session::connect`] made.
    pub fn is_wf(&self) -> (r: bool)
        ensures
            r == self.wf(),
    {
        self.users.is_wf()
    }

    /// Takes in bytes that arrived on the stream.
    pub fn feed(&mut self, bytes: &[u8])
        ensures
            final(self).wf() == old(self).wf(),
            final(self)@ == (SessionView {
                connection: ConnectionView {
                    inbound: old(self)@.connection.inbound + bytes@,
                    ..old(self)@.connection
                },
                ..old(self)@
            }),
    {
        self.connection.feed(bytes);
    }

    /// Hands out the bytes to write to the stream, and forgets them.
    pub fn take_outbound(&mut self) -> (r: Vec<u8>)
        ensures
            final(self).wf() == old(self).wf(),
            r@ == old(self)@.connection.outbound,
            final(self)@ == with_outbound(old(self)@, Seq::empty()),
    {
        self.connection.take_outbound()
    }

    /// Records that the stream is gone. The session notices with its next
    /// receive or send.
    pub fn shutdown(&mut self, cause: TransportError)
        ensures
            final(self).wf() == old(self).wf(),
            final(self)@ == (SessionView {
                connection: ConnectionView {
                    failure: match old(self)@.connection.failure {
                        Some(e) => Some(e),
                        None => Some(Error::Transport(cause)),
                    },
                    ..old(self)@.connection
                },
                ..old(self)@
            }),
    {
        self.connection.shutdown(cause);
    }

    /// Sets the longest payload that is accepted from the server. A frame
    /// that announces more closes the session with `MalformedLength`.
    pub fn set_frame_limit(&mut self, limit: u32)
        ensures
            final(self).wf() == old(self).wf(),
            final(self)@ == (SessionView {
                connection: ConnectionView { limit, ..old(self)@.connection },
                ..old(self)@
            }),
    {
        self.connection.set_limit(limit);
    }

    /// The session the server gave this client; 0 until it did.
    pub fn session_id(&self) -> (r: u32)
        ensures
            r == self@.session_id,
    {
        self.session_id
    }

    /// The channel this client means to be in.
    pub fn channel_id(&self) -> (r: u32)
        ensures
            r == self@.channel_id,
    {
        self.channel_id
    }

    /// Where the session stands.
    pub fn phase(&self) -> (r: Phase)
        ensures
            r == self@.phase,
    {
        self.phase
    }

    /// When the last keep-alive left.
    pub fn last_ping(&self) -> (r: u64)
        ensures
            r == self@.last_ping,
    {
        self.last_ping
    }

    /// Returns all other users that are connected to the server, in the order
    /// in which they first appeared.
    pub fn get_users(&self) -> (r: &Vec<Peer>)
        ensures
            r@ == self@.users,
    {
        self.users.peers()
    }

    /// Takes note of one inbound message.
    fn absorb(&mut self, message: &MessageType)
        requires
            old(self).wf(),
        ensures
            final(self).wf(),
            final(self)@ == absorbed(old(self)@, message@),
    {
        match message {
            MessageType::UserState(payload) => {
                if let Some(data) = UserState::decode(payload.as_slice()) {
                    let session: u32 = match data.session {
                        Some(v) => v,
                        None => 0,
                    };
                    self.users.apply(session, data.channel_id);
                }
            },
            MessageType::ServerSync(payload) => {
                if let Some(data) = ServerSync::decode(payload.as_slice()) {
                    self.session_id =
                    match data.session {
                        Some(v) => v,
                        None => 0,
                    };
                    self.phase = Phase::Synchronized;
                }
            },
            _ => {},
        }
    }

    /// Runs the synchronization with what has arrived so far. Every UserState
    /// goes into the roster, so that peers announced before the handshake
    /// ends are not lost; other messages are dropped; the ServerSync ends the
    /// run and gives the session its identity.
    ///
    /// Returns `true` once the session is synchronized and `false` while more
    /// bytes are needed. A connection that fails before the ServerSync
    /// arrives closes the session for good.
    pub fn synchronize(&mut self) -> (r: Result<bool, Error>)
        requires
            old(self).wf(),
        ensures
            final(self).wf(),
            match r {
                Ok(b) => synchronized(old(self)@) == (final(self)@, Ok::<bool, Error>(b)),
                Err(e) => synchronized(old(self)@) == (final(self)@, Err::<bool, Error>(e)),
            },
    {
        loop
            invariant
                self.wf(),
                synchronized(self@) == synchronized(old(self)@),
            decreases self@.connection.inbound.len(),
        {
            match self.phase {
                Phase::Synchronized => {
                    return Ok(true);
                },
                Phase::Closed => {
                    return Err(Error::Logic(LogicError::NotSynchronized));
                },
                Phase::Handshaking => {},
            }
            match self.connection.read() {
                Ok(Some(message)) => {
                    self.absorb(&message);
                },
                Ok(None) => {
                    return Ok(false);
                },
                Err(e) => {
                    self.phase = Phase::Closed;
                    return Err(e);
                },
            }
        }
    }

    /// Handles one message received from the server and returns it, whatever
    /// its kind. A UserState updates the roster, a ServerSync the identity.
    ///
    /// `Ok(None)` says that no whole frame has arrived yet. Before the
    /// session is synchronized the call fails with `NotSynchronized` and
    /// takes nothing from the connection.
    pub fn read(&mut self) -> (r: Result<Option<MessageType>, Error>)
        requires
            old(self).wf(),
        ensures
            final(self).wf(),
            final(self)@ == read_step(old(self)@).0,
            match r {
                Ok(Some(m)) => read_step(old(self)@).1 == Ok::<Option<MessageView>, Error>(
                    Some(m@),
                ),
                Ok(None) => read_step(old(self)@).1 == Ok::<Option<MessageView>, Error>(None),
                Err(e) => read_step(old(self)@).1 == Err::<Option<MessageView>, Error>(e),
            },
    {
        match self.phase {
            Phase::Synchronized => {},
            _ => {
                return Err(Error::Logic(LogicError::NotSynchronized));
            },
        }
        match self.connection.read() {
            Ok(Some(message)) => {
                self.absorb(&message);
                Ok(Some(message))
            },
            Ok(None) => Ok(None),
            Err(e) => {
                self.phase = Phase::Closed;
                Err(e)
            },
        }
    }

    /// Closes the session where its connection is dead.
    fn settle(&mut self)
        ensures
            final(self)@ == settled(old(self)@),
    {
        if self.connection.failure().is_some() {
            self.phase = Phase::Closed;
        }
    }

    /// Sends a text message into the chat of the current channel.
    pub fn send_text_message(&mut self, text: &str) -> (r: Result<(), Error>)
        ensures
            (final(self)@, error_of(r)) == text_sent(
                old(self)@,
                text_bytes(text@),
                old(self)@.channel_id,
            ),
    {
        let channel: u32 = self.channel_id;
        self.send_text_message_to(text, channel)
    }

    /// Sends a text message, written by this client, into the chat of
    /// `channel`. Before the session is synchronized the call fails with
    /// `NotSynchronized` and sends nothing.
    pub fn send_text_message_to(&mut self, text: &str, channel: u32) -> (r: Result<(), Error>)
        ensures
            (final(self)@, error_of(r)) == text_sent(old(self)@, text_bytes(text@), channel),
            old(self)@.phase != Phase::Synchronized ==> final(self)@ == old(self)@ && error_of(r)
                == Some(Error::Logic(LogicError::NotSynchronized)),
    {
        match self.phase {
            Phase::Synchronized => {},
            _ => {
                return Err(Error::Logic(LogicError::NotSynchronized));
            },
        }
        let mut channels: Vec<u32> = Vec::new();
        channels.push(channel);
        let message = TextMessage {
            actor: Some(self.session_id),
            channel_id: channels,
            message: vstd::slice::slice_to_vec(text.as_bytes()),
        };
        proof {
            let one = message.channel_id@;
            assert(one.drop_last() =~= Seq::<u32>::empty());
            assert(crate::mumble::repeated_uint32_field(3, one) =~= uint32_field(3, channel)) by {
                reveal_with_fuel(crate::mumble::repeated_uint32_field, 2);
            }
            assert(message.buffer() =~= text_message_payload(
                self.session_id,
                channel,
                text_bytes(text@),
            ));
        }
        let r = self.connection.send(&MessageType::TextMessage(message.to_buffer()));
        if r.is_err() {
            self.settle();
        }
        r
    }

    /// Asks the server to move this client to another channel, and takes the
    /// move for granted: the server's word on it comes, if at all, as a later
    /// UserState. Before the session is synchronized the call fails with
    /// `NotSynchronized` and sends nothing.
    pub fn change_channel(&mut self, channel_id: u32) -> (r: Result<(), Error>)
        ensures
            (final(self)@, error_of(r)) == channel_changed(old(self)@, channel_id),
            old(self)@.phase != Phase::Synchronized ==> final(self)@ == old(self)@ && error_of(r)
                == Some(Error::Logic(LogicError::NotSynchronized)),
    {
        match self.phase {
            Phase::Synchronized => {},
            _ => {
                return Err(Error::Logic(LogicError::NotSynchronized));
            },
        }
        let message = UserState {
            session: Some(self.session_id),
            actor: Some(self.session_id),
            channel_id: Some(channel_id),
        };
        assert(message.buffer() =~= change_channel_payload(self.session_id, channel_id));
        let r = self.connection.send(&MessageType::UserState(message.to_buffer()));
        if r.is_err() {
            self.settle();
        } else {
            self.channel_id = channel_id;
        }
        r
    }

    /// Pings the server if a keep-alive is due at the time `now`, and says
    /// whether it did. The clock moves only when a ping leaves. Call this on
    /// every round, with a time in milliseconds that never runs backwards.
    pub fn keep_alive(&mut self, now: u64) -> (r: Result<bool, Error>)
        ensures
            match r {
                Ok(b) => kept_alive(old(self)@, now) == (final(self)@, Ok::<bool, Error>(b)),
                Err(e) => kept_alive(old(self)@, now) == (final(self)@, Err::<bool, Error>(e)),
            },
    {
        if now < self.last_ping || now - self.last_ping < KEEP_ALIVE_INTERVAL {
            return Ok(false);
        }
        let ping = Ping {  };
        match self.connection.send(&MessageType::Ping(ping.to_buffer())) {
            Ok(_) => {
                self.last_ping = now;
                Ok(true)
            },
            Err(e) => {
                self.settle();
                Err(e)
            },
        }
    }
}

} // verus!
