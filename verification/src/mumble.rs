//! The records that the engine itself reads and writes, with the numbers of
//! their fields. All other fields of a payload pass through untouched.

use crate::proto::{text_bytes, Message};
use crate::wire::{
    bytes_field, decode_fields, fields_of, last_bytes, last_bytes_of, last_varint,
    last_varint_of, low32, put_bytes, put_uint32, to_u32, uint32_field, varints, varints_of,
    views, Field, FieldView,
};
use vstd::prelude::*;

verus! {

/// The 32-bit value of an optional variable-length integer.
pub open spec fn low32_opt(v: Option<u64>) -> Option<u32> {
    match v {
        Some(v) => Some(low32(v)),
        None => None,
    }
}

/// The bytes of field `number` where it is present, none where it is not.
pub open spec fn optional_uint32_field(number: u32, value: Option<u32>) -> Seq<u8> {
    match value {
        Some(v) => uint32_field(number, v),
        None => Seq::empty(),
    }
}

/// The bytes of field `number`, once for each value, in order.
pub open spec fn repeated_uint32_field(number: u32, values: Seq<u32>) -> Seq<u8>
    decreases values.len(),
{
    if values.len() == 0 {
        Seq::empty()
    } else {
        repeated_uint32_field(number, values.drop_last()) + uint32_field(number, values.last())
    }
}

fn put_optional_uint32(out: &mut Vec<u8>, number: u32, value: Option<u32>)
    requires
        1 <= number <= crate::wire::FIELD_NUMBER_MAX,
    ensures
        final(out)@ == old(out)@ + optional_uint32_field(number, value),
{
    if let Some(v) = value {
        put_uint32(out, number, v);
    }
    assert(out@ =~= old(out)@ + optional_uint32_field(number, value));
}

fn put_repeated_uint32(out: &mut Vec<u8>, number: u32, values: &Vec<u32>)
    requires
        1 <= number <= crate::wire::FIELD_NUMBER_MAX,
    ensures
        final(out)@ == old(out)@ + repeated_uint32_field(number, values@),
{
    let mut i: usize = 0;
    assert(out@ =~= old(out)@ + repeated_uint32_field(number, values@.take(0)));
    while i < values.len()
        invariant
            i <= values.len(),
            1 <= number <= crate::wire::FIELD_NUMBER_MAX,
            out@ == old(out)@ + repeated_uint32_field(number, values@.take(i as int)),
        decreases values.len() - i,
    {
        proof {
            assert(values@.take(i + 1).drop_last() =~= values@.take(i as int));
        }
        put_uint32(out, number, values[i]);
        assert(out@ =~= old(out)@ + repeated_uint32_field(number, values@.take(i + 1)));
        i = i + 1;
    }
    assert(values@.take(i as int) =~= values@);
}

/// The 32-bit values of a run of variable-length integers.
pub open spec fn low32_all(values: Seq<u64>) -> Seq<u32> {
    values.map_values(|v: u64| low32(v))
}

/// The name and password that open a session.
#[derive(Clone, Debug, PartialEq, Eq)]
pub struct Authenticate {
    pub username: String,
    pub password: String,
}

impl Message for Authenticate {
    /// Field 1 holds the name, field 2 the password.
    open spec fn buffer(&self) -> Seq<u8> {
        bytes_field(1, text_bytes(self.username@)) + bytes_field(2, text_bytes(self.password@))
    }

    fn to_buffer(&self) -> (r: Vec<u8>) {
        let mut out: Vec<u8> = Vec::new();
        put_bytes(&mut out, 1, self.username.as_str().as_bytes());
        put_bytes(&mut out, 2, self.password.as_str().as_bytes());
        assert(out@ =~= self.buffer());
        out
    }
}

/// The keep-alive. It is sent without any field.
#[derive(Clone, Copy, Debug, PartialEq, Eq, Structural)]
pub struct Ping {}

impl Message for Ping {
    open spec fn buffer(&self) -> Seq<u8> {
        Seq::empty()
    }

    fn to_buffer(&self) -> (r: Vec<u8>) {
        Vec::new()
    }
}

/// What the engine reads of the message that ends synchronization.
#[derive(Clone, Copy, Debug, PartialEq, Eq, Structural)]
pub struct ServerSync {
    /// The session that the server gave this client.
    pub session: Option<u32>,
}

impl ServerSync {
    /// The record that a run of fields holds: field 1 is the session.
    pub open spec fn of(fields: Seq<FieldView>) -> ServerSync {
        ServerSync { session: low32_opt(last_varint_of(fields, 1)) }
    }

    pub fn from_fields(fields: &Vec<Field>) -> (r: ServerSync)
        ensures
            r == Self::of(views(fields@)),
    {
        let session = match last_varint(fields, 1) {
            Some(v) => Some(to_u32(v)),
            None => None,
        };
        ServerSync { session }
    }

    /// Reads the record from a payload: `None` exactly when the payload is no
    /// sequence of whole fields.
    pub fn decode(payload: &[u8]) -> (r: Option<ServerSync>)
        ensures
            match fields_of(payload@) {
                Some(fields) => r == Some(Self::of(fields)),
                None => r is None,
            },
    {
        match decode_fields(payload) {
            Some(fields) => Some(Self::from_fields(&fields)),
            None => None,
        }
    }
}

/// What the engine reads and writes of a user's state.
#[derive(Clone, Copy, Debug, PartialEq, Eq, Structural)]
pub struct UserState {
    /// The session the message is about.
    pub session: Option<u32>,
    /// The session that caused the change.
    pub actor: Option<u32>,
    /// The channel the user is in, where the message says so.
    pub channel_id: Option<u32>,
}

impl UserState {
    /// The record that a run of fields holds: field 1 is the session,
    /// field 2 the actor, field 5 the channel.
    pub open spec fn of(fields: Seq<FieldView>) -> UserState {
        UserState {
            session: low32_opt(last_varint_of(fields, 1)),
            actor: low32_opt(last_varint_of(fields, 2)),
            channel_id: low32_opt(last_varint_of(fields, 5)),
        }
    }

    pub fn from_fields(fields: &Vec<Field>) -> (r: UserState)
        ensures
            r == Self::of(views(fields@)),
    {
        let session = match last_varint(fields, 1) {
            Some(v) => Some(to_u32(v)),
            None => None,
        };
        let actor = match last_varint(fields, 2) {
            Some(v) => Some(to_u32(v)),
            None => None,
        };
        let channel_id = match last_varint(fields, 5) {
            Some(v) => Some(to_u32(v)),
            None => None,
        };
        UserState { session, actor, channel_id }
    }

    /// Reads the record from a payload: `None` exactly when the payload is no
    /// sequence of whole fields.
    pub fn decode(payload: &[u8]) -> (r: Option<UserState>)
        ensures
            match fields_of(payload@) {
                Some(fields) => r == Some(Self::of(fields)),
                None => r is None,
            },
    {
        match decode_fields(payload) {
            Some(fields) => Some(Self::from_fields(&fields)),
            None => None,
        }
    }
}

impl Message for UserState {
    /// Each field that is present, in the order of the field numbers.
    open spec fn buffer(&self) -> Seq<u8> {
        optional_uint32_field(1, self.session) + optional_uint32_field(2, self.actor)
            + optional_uint32_field(5, self.channel_id)
    }

    fn to_buffer(&self) -> (r: Vec<u8>) {
        let mut out: Vec<u8> = Vec::new();
        put_optional_uint32(&mut out, 1, self.session);
        put_optional_uint32(&mut out, 2, self.actor);
        put_optional_uint32(&mut out, 5, self.channel_id);
        assert(out@ =~= self.buffer());
        out
    }
}

/// A line of chat.
#[derive(Clone, Debug, PartialEq, Eq)]
pub struct TextMessage {
    /// The session that wrote the line.
    pub actor: Option<u32>,
    /// The channels the line goes to.
    pub channel_id: Vec<u32>,
    /// The text, as the bytes of its UTF-8 form.
    pub message: Vec<u8>,
}

/// Mathematical model of a [`TextMessage`].
pub struct TextMessageView {
    pub actor: Option<u32>,
    pub channel_id: Seq<u32>,
    pub message: Seq<u8>,
}

impl View for TextMessage {
    type V = TextMessageView;

    open spec fn view(&self) -> TextMessageView {
        TextMessageView {
            actor: self.actor,
            channel_id: self.channel_id@,
            message: self.message@,
        }
    }
}

impl TextMessage {
    /// The record that a run of fields holds: field 1 is the actor, each
    /// field 3 a channel, field 5 the text; a payload without text holds the
    /// empty text.
    pub open spec fn of(fields: Seq<FieldView>) -> TextMessageView {
        TextMessageView {
            actor: low32_opt(last_varint_of(fields, 1)),
            channel_id: low32_all(varints_of(fields, 3)),
            message: match last_bytes_of(fields, 5) {
                Some(b) => b,
                None => Seq::empty(),
            },
        }
    }

    pub fn from_fields(fields: &Vec<Field>) -> (r: TextMessage)
        ensures
            r@ == Self::of(views(fields@)),
    {
        let actor = match last_varint(fields, 1) {
            Some(v) => Some(to_u32(v)),
            None => None,
        };
        let wide = varints(fields, 3);
        let mut channel_id: Vec<u32> = Vec::new();
        let mut i: usize = 0;
        while i < wide.len()
            invariant
                i <= wide.len(),
                channel_id@ == low32_all(wide@.take(i as int)),
            decreases wide.len() - i,
        {
            channel_id.push(to_u32(wide[i]));
            assert(channel_id@ =~= low32_all(wide@.take(i + 1)));
            i = i + 1;
        }
        assert(wide@.take(i as int) =~= wide@);
        let message = match last_bytes(fields, 5) {
            Some(b) => b,
            None => Vec::new(),
        };
        TextMessage { actor, channel_id, message }
    }

    /// Reads the record from a payload: `None` exactly when the payload is no
    /// sequence of whole fields.
    pub fn decode(payload: &[u8]) -> (r: Option<TextMessage>)
        ensures
            match fields_of(payload@) {
                Some(fields) => r is Some && r->Some_0@ == Self::of(fields),
                None => r is None,
            },
    {
        match decode_fields(payload) {
            Some(fields) => Some(Self::from_fields(&fields)),
            None => None,
        }
    }
}

impl Message for TextMessage {
    /// The actor where there is one, then the channels, then the text.
    open spec fn buffer(&self) -> Seq<u8> {
        optional_uint32_field(1, self.actor) + repeated_uint32_field(3, self.channel_id@)
            + bytes_field(5, self.message@)
    }

    fn to_buffer(&self) -> (r: Vec<u8>) {
        let mut out: Vec<u8> = Vec::new();
        put_optional_uint32(&mut out, 1, self.actor);
        put_repeated_uint32(&mut out, 3, &self.channel_id);
        put_bytes(&mut out, 5, self.message.as_slice());
        assert(out@ =~= self.buffer());
        out
    }
}

} // verus!
