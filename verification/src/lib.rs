//! A client-side engine for a tag-length-value presence and chat protocol,
//! run over a duplex byte stream that somebody else has secured.
//!
//! The engine is made of the frame codec ([`frame`]), the registry of message
//! kinds ([`message_types`]), the connection ([`connection`]) and the session
//! state machine ([`session`]). It performs no input or output: its driver
//! moves the bytes.

pub mod connection;
pub mod convert;
pub mod error;
pub mod frame;
pub mod message_types;
pub mod mumble;
pub mod proto;
pub mod roster;
pub mod session;
pub mod wire;

use crate::connection::{client_version_payload, fresh, sent, Connection, ConnectionView};
use crate::error::Error;
use crate::message_types::{MessageView, TAG_VERSION};
use vstd::prelude::*;

verus! {

/// Opens a connection and sends this client's version information.
pub fn connect() -> (r: Result<Connection, Error>)
    ensures
        match r {
            Ok(c) => sent(fresh(), MessageView { tag: TAG_VERSION, payload: client_version_payload() })
                == Ok::<Seq<u8>, Error>(c@.outbound) && c@ == (ConnectionView {
                outbound: c@.outbound,
                ..fresh()
            }),
            Err(e) => sent(fresh(), MessageView { tag: TAG_VERSION, payload: client_version_payload() })
                == Err::<Seq<u8>, Error>(e),
        },
{
    let mut connection = Connection::new();
    match connection.send_version() {
        Ok(_) => Ok(connection),
        Err(e) => Err(e),
    }
}

} // verus!
