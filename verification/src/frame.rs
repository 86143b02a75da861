//! The frame codec: a fixed header of tag and length in network byte order,
//! then exactly `length` bytes of payload.

use crate::error::{Error, ProtocolError};
use byteorder::{BigEndian, WriteBytesExt};
use vstd::prelude::*;

verus! {

/// Bytes in a frame header: two of tag, four of length.
pub const HEADER_LEN: usize = 6;

/// One unit of wire data.
#[derive(Clone, Debug, PartialEq, Eq)]
pub struct Frame {
    pub tag: u16,
    pub length: u32,
    pub payload: Vec<u8>,
}

impl Frame {
    /// The length field says exactly how long the payload is.
    pub open spec fn wf(&self) -> bool {
        self.length as int == self.payload@.len()
    }
}

/// A 16-bit value in network byte order.
pub open spec fn be16(v: u16) -> Seq<u8> {
    seq![(v / 256) as u8, (v % 256) as u8]
}

/// A 32-bit value in network byte order.
pub open spec fn be32(v: u32) -> Seq<u8> {
    seq![
        (v / 0x100_0000) as u8,
        (v / 0x1_0000 % 256) as u8,
        (v / 0x100 % 256) as u8,
        (v % 256) as u8,
    ]
}

/// The bytes of a frame with this tag and payload. Meant for payloads whose
/// length fits the header's 32 bits.
pub open spec fn frame_bytes(tag: u16, payload: Seq<u8>) -> Seq<u8> {
    be16(tag) + be32(payload.len() as u32) + payload
}

/// The tag that a header holds. Meant for at least [`HEADER_LEN`] bytes.
pub open spec fn header_tag(bytes: Seq<u8>) -> u16 {
    (bytes[0] * 256 + bytes[1]) as u16
}

/// The payload length that a header holds. Meant for at least
/// [`HEADER_LEN`] bytes.
pub open spec fn header_length(bytes: Seq<u8>) -> u32 {
    (bytes[2] * 0x100_0000 + bytes[3] * 0x1_0000 + bytes[4] * 0x100 + bytes[5]) as u32
}

/// Whether `bytes` starts with a whole frame: a header and all of the payload
/// that the header announces.
pub open spec fn frame_complete(bytes: Seq<u8>) -> bool {
    bytes.len() >= HEADER_LEN && bytes.len() >= HEADER_LEN + header_length(bytes)
}

/// How many bytes the frame at the front of `bytes` takes. Meant for
/// `frame_complete(bytes)`.
pub open spec fn frame_size(bytes: Seq<u8>) -> int {
    HEADER_LEN + header_length(bytes)
}

/// The payload of the frame at the front of `bytes`. Meant for
/// `frame_complete(bytes)`.
pub open spec fn frame_payload(bytes: Seq<u8>) -> Seq<u8> {
    bytes.subrange(HEADER_LEN as int, frame_size(bytes))
}

/// Calls `byteorder::WriteBytesExt::write_u16` with `byteorder::BigEndian` on
/// `out`. Trusted: what was in `out` stays, and the two bytes of `v` follow,
/// the high one first.
#[verifier::external_body]
fn put_u16(out: &mut Vec<u8>, v: u16)
    ensures
        final(out)@ == old(out)@ + be16(v),
{
    out.write_u16::<BigEndian>(v).unwrap();
}

/// Calls `byteorder::WriteBytesExt::write_u32` with `byteorder::BigEndian` on
/// `out`. Trusted: what was in `out` stays, and the four bytes of `v` follow,
/// the highest one first.
#[verifier::external_body]
fn put_u32(out: &mut Vec<u8>, v: u32)
    ensures
        final(out)@ == old(out)@ + be32(v),
{
    out.write_u32::<BigEndian>(v).unwrap();
}

/// Emits tag, length and payload as one run of bytes.
///
/// Fails with `MalformedLength` exactly when the payload is longer than the
/// length field can say.
pub fn encode_frame(tag: u16, payload: &[u8]) -> (r: Result<Vec<u8>, Error>)
    ensures
        payload@.len() <= u32::MAX ==> r is Ok && r->Ok_0@ == frame_bytes(tag, payload@),
        payload@.len() > u32::MAX ==> r == Err::<Vec<u8>, Error>(
            Error::Protocol(ProtocolError::MalformedLength),
        ),
{
    if payload.len() > 0xffff_ffff {
        return Err(Error::Protocol(ProtocolError::MalformedLength));
    }
    let mut out: Vec<u8> = Vec::new();
    put_u16(&mut out, tag);
    put_u32(&mut out, payload.len() as u32);
    out.extend_from_slice(payload);
    assert(out@ =~= frame_bytes(tag, payload@));
    Ok(out)
}

/// Reads tag and length from the front of `bytes`: `None` exactly when there
/// are fewer than [`HEADER_LEN`] bytes.
pub fn decode_header(bytes: &[u8]) -> (r: Option<(u16, u32)>)
    ensures
        bytes@.len() < HEADER_LEN ==> r is None,
        bytes@.len() >= HEADER_LEN ==> r == Some((header_tag(bytes@), header_length(bytes@))),
{
    if bytes.len() < HEADER_LEN {
        return None;
    }
    let tag: u16 = bytes[0] as u16 * 256 + bytes[1] as u16;
    let length: u32 = bytes[2] as u32 * 0x100_0000 + bytes[3] as u32 * 0x1_0000 + bytes[4] as u32
        * 0x100 + bytes[5] as u32;
    Some((tag, length))
}

/// Takes one frame from the front of `bytes`, and says how many bytes it
/// took. A payload of no bytes is a frame like any other.
///
/// Fails with `IncompleteFrame` exactly when `bytes` ends before the header
/// and the payload it announces are complete.
pub fn decode_frame(bytes: &[u8]) -> (r: Result<(Frame, usize), Error>)
    ensures
        frame_complete(bytes@) ==> r is Ok && r->Ok_0.0.wf() && r->Ok_0.0.tag == header_tag(
            bytes@,
        ) && r->Ok_0.0.payload@ == frame_payload(bytes@) && r->Ok_0.1 == frame_size(bytes@),
        !frame_complete(bytes@) ==> r == Err::<(Frame, usize), Error>(
            Error::Protocol(ProtocolError::IncompleteFrame),
        ),
{
    let (tag, length) = match decode_header(bytes) {
        Some(h) => h,
        None => {
            return Err(Error::Protocol(ProtocolError::IncompleteFrame));
        },
    };
    if ((bytes.len() - HEADER_LEN) as u64) < (length as u64) {
        return Err(Error::Protocol(ProtocolError::IncompleteFrame));
    }
    let end: usize = HEADER_LEN + length as usize;
    let payload = vstd::slice::slice_to_vec(vstd::slice::slice_subrange(bytes, HEADER_LEN, end));
    Ok((Frame { tag, length, payload }, end))
}

/// What was framed comes back: a frame's bytes, whatever follows them, start
/// with a whole frame that holds the tag and the payload it was made of.
pub proof fn lemma_frame_round_trip(tag: u16, payload: Seq<u8>, rest: Seq<u8>)
    requires
        payload.len() <= u32::MAX,
    ensures
        frame_complete(frame_bytes(tag, payload) + rest),
        header_tag(frame_bytes(tag, payload) + rest) == tag,
        header_length(frame_bytes(tag, payload) + rest) == payload.len(),
        frame_payload(frame_bytes(tag, payload) + rest) == payload,
        frame_size(frame_bytes(tag, payload) + rest) == HEADER_LEN + payload.len(),
        (frame_bytes(tag, payload) + rest).skip(HEADER_LEN + payload.len()) == rest,
{
    let bytes = frame_bytes(tag, payload) + rest;
    let n = payload.len() as u32;
    assert(bytes.len() == HEADER_LEN + payload.len() + rest.len());
    assert(bytes[0] == (tag / 256) as u8);
    assert(bytes[1] == (tag % 256) as u8);
    assert(bytes[2] == (n / 0x100_0000) as u8);
    assert(bytes[3] == (n / 0x1_0000 % 256) as u8);
    assert(bytes[4] == (n / 0x100 % 256) as u8);
    assert(bytes[5] == (n % 256) as u8);
    assert(header_length(bytes) == n);
    assert(frame_payload(bytes) =~= payload);
    assert(bytes.skip(HEADER_LEN + payload.len()) =~= rest);
}

} // verus!
