//! The wire frame and its encoder.
//!
//! | offset | size   | field   |
//! |--------|--------|---------|
//! | 0      | 2      | magic   |
//! | 2      | 4      | length  |
//! | 6      | 4      | type    |
//! | 10     | length | payload |
//!
//! `length` counts the payload only. Both integers are little-endian.

use crate::endian::{le_bytes_u32, put_u32_le};
use vstd::prelude::*;

verus! {

/// Each of the two bytes that open a frame.
pub const MAGIC: u8 = 0x69;

/// Bytes before the payload: magic, length, type.
pub const HEADER_LEN: usize = 10;

/// What a frame says: its type code and its payload.
pub struct FrameView {
    pub msg_type: u32,
    pub payload: Seq<u8>,
}

/// The bytes of the frame that carries `payload` under `msg_type`.
pub open spec fn frame_bytes(msg_type: u32, payload: Seq<u8>) -> Seq<u8>
    recommends
        payload.len() <= u32::MAX,
{
    seq![MAGIC, MAGIC] + le_bytes_u32(payload.len() as u32) + le_bytes_u32(msg_type) + payload
}

/// One message as it travels between the serial side and the router: a type
/// code, the raw payload, and the payload's length as the header declares it.
/// The declared length always equals the number of payload bytes.
#[derive(Debug, PartialEq, Eq)]
pub struct SerialMessage {
    data: Vec<u8>,
    msg_len: u32,
    msg_type: u32,
}

impl View for SerialMessage {
    type V = FrameView;

    closed spec fn view(&self) -> FrameView {
        FrameView { msg_type: self.msg_type, payload: self.data@ }
    }
}

impl SerialMessage {
    #[verifier::type_invariant]
    spec fn length_matches(self) -> bool {
        self.msg_len == self.data@.len()
    }

    /// Wraps a payload. Refuses one whose length no header can declare.
    pub fn new(msg_type: u32, data: Vec<u8>) -> (r: Option<SerialMessage>)
        ensures
            data@.len() <= u32::MAX ==> r.is_some() && r.unwrap()@ == (FrameView {
                msg_type,
                payload: data@,
            }),
            data@.len() > u32::MAX ==> r.is_none(),
    {
        if data.len() > u32::MAX as usize {
            None
        } else {
            let msg_len: u32 = data.len() as u32;
            Some(SerialMessage { data, msg_len, msg_type })
        }
    }

    /// The type code.
    pub fn msg_type(&self) -> (code: u32)
        ensures
            code == self@.msg_type,
    {
        self.msg_type
    }

    /// The payload length, as a header declares it.
    pub fn msg_len(&self) -> (len: u32)
        ensures
            len == self@.payload.len(),
    {
        proof {
            use_type_invariant(self);
        }
        self.msg_len
    }

    /// The payload.
    pub fn data(&self) -> (bytes: &Vec<u8>)
        ensures
            bytes@ == self@.payload,
    {
        &self.data
    }

    /// The frame that carries this message.
    pub fn encode(&self) -> (out: Vec<u8>)
        ensures
            out@ == frame_bytes(self@.msg_type, self@.payload),
    {
        proof {
            use_type_invariant(self);
        }
        encode(self.msg_type, self.data.as_slice())
    }
}

/// Serializes one frame: magic, payload length, type code, payload.
///
/// The length written is the length of `payload`, which must be one that
/// four bytes can declare.
pub fn encode(msg_type: u32, payload: &[u8]) -> (out: Vec<u8>)
    requires
        payload@.len() <= u32::MAX,
    ensures
        out@ == frame_bytes(msg_type, payload@),
{
    let mut out: Vec<u8> = Vec::new();
    out.push(MAGIC);
    out.push(MAGIC);
    put_u32_le(&mut out, payload.len() as u32);
    put_u32_le(&mut out, msg_type);
    out.extend_from_slice(payload);
    assert(out@ =~= frame_bytes(msg_type, payload@));
    out
}

} // verus!
