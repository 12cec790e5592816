//! The routing rules of the bridge.
//!
//! Three flows meet in the bridge: frames decoded from the serial line,
//! messages received from the network, and requests to write to the serial
//! line. For each arrival the rules here say what is to be done; doing it
//! is up to the caller, and so is the order in which arrivals are taken.
//! Within one flow the caller must keep the order of arrival.
//!
//! Nothing here fails the bridge: a message that cannot be carried over
//! is dropped, with the reason.

use crate::decoder::{scan, Scan};
use crate::envelope::{DataFields, Envelope};
use crate::frame::{frame_bytes, FrameView, SerialMessage};
use crate::json::{envelope_in, read_envelope};
use crate::protocol::{Direction, MsgType, Payload};
use crate::registry::{
    decode_binary, decode_json, encode_binary, lookup, spec_decode_binary, spec_decode_json,
    spec_lookup, theorem_binary_round_trip, theorem_json_round_trip, RegistryError,
};
use crate::render::{envelope_text, render_envelope};
use crate::stream::theorem_frame_round_trip;
use vstd::prelude::*;

verus! {

/// Why a message was dropped.
#[derive(Debug, Clone, Copy, PartialEq, Eq)]
pub enum DropReason {
    /// The network text is not JSON, or has no usable `type`.
    MalformedEnvelope,
    /// The registry turned the message down.
    Registry(RegistryError),
}

/// The message that a frame from the device carries, if it is one that the
/// device may send.
pub open spec fn spec_telemetry(frame: FrameView) -> Result<Payload, RegistryError> {
    match spec_lookup(frame.msg_type, Direction::Telemetry) {
        Err(e) => Err(e),
        Ok(_) => spec_decode_binary(frame.msg_type, frame.payload),
    }
}

/// The message that an envelope from the network carries, if it is one
/// that the network may send. A code beyond 32 bits names no type.
pub open spec fn spec_command(envelope: Envelope) -> Result<Payload, RegistryError> {
    if envelope.msg_type > u32::MAX {
        Err(RegistryError::UnknownType)
    } else {
        match spec_lookup(envelope.msg_type as u32, Direction::Command) {
            Err(e) => Err(e),
            Ok(_) => spec_decode_json(envelope.msg_type as u32, envelope.data),
        }
    }
}

/// What travels to the device for a message: its code and its payload.
pub open spec fn frame_of(payload: Payload) -> FrameView {
    FrameView { msg_type: payload.spec_msg_type().spec_code(), payload: payload.wire_bytes() }
}

/// Turns a frame from the device into the text for the network.
///
/// The frame is dropped when its code is unknown, when it names a command,
/// and when its payload is not one of its type. Otherwise the text is the
/// envelope of the message that the payload spells.
pub fn route_serial_frame(frame: &SerialMessage) -> (routed: Result<Vec<u8>, DropReason>)
    ensures
        match spec_telemetry(frame@) {
            Ok(payload) => routed.is_ok() && routed.unwrap()@ == envelope_text(payload),
            Err(e) => routed == Err::<Vec<u8>, DropReason>(DropReason::Registry(e)),
        },
{
    match lookup(frame.msg_type(), Direction::Telemetry) {
        Err(e) => Err(DropReason::Registry(e)),
        Ok(_) => match decode_binary(frame.msg_type(), frame.data().as_slice()) {
            Err(e) => Err(DropReason::Registry(e)),
            Ok(payload) => Ok(render_envelope(&payload)),
        },
    }
}

/// Turns an envelope from the network into the message for the device.
///
/// The envelope is dropped when its code is unknown, when it names
/// telemetry, and when `data` lacks a field of its type. Otherwise the
/// message carries the code and the payload written for the fields.
pub fn command_from_envelope(envelope: &Envelope) -> (routed: Result<SerialMessage, DropReason>)
    ensures
        match spec_command(*envelope) {
            Ok(payload) => routed.is_ok() && routed.unwrap()@ == frame_of(payload),
            Err(e) => routed == Err::<SerialMessage, DropReason>(DropReason::Registry(e)),
        },
{
    if envelope.msg_type > u32::MAX as u64 {
        return Err(DropReason::Registry(RegistryError::UnknownType));
    }
    let code: u32 = envelope.msg_type as u32;
    match lookup(code, Direction::Command) {
        Err(e) => Err(DropReason::Registry(e)),
        Ok(_) => match decode_json(code, &envelope.data) {
            Err(e) => Err(DropReason::Registry(e)),
            Ok(payload) => {
                let bytes = encode_binary(&payload);
                Ok(SerialMessage::new(code, bytes).unwrap())
            },
        },
    }
}

/// Turns a text from the network into the message for the device.
///
/// A text that is no envelope is dropped as malformed. For an envelope the
/// result is that of [`command_from_envelope`].
pub fn route_network_message(text: &[u8]) -> (routed: Result<SerialMessage, DropReason>)
    ensures
        match envelope_in(text@) {
            None => routed == Err::<SerialMessage, DropReason>(DropReason::MalformedEnvelope),
            Some(envelope) => match spec_command(envelope) {
                Ok(payload) => routed.is_ok() && routed.unwrap()@ == frame_of(payload),
                Err(e) => routed == Err::<SerialMessage, DropReason>(DropReason::Registry(e)),
            },
        },
{
    match read_envelope(text) {
        None => Err(DropReason::MalformedEnvelope),
        Some(envelope) => command_from_envelope(&envelope),
    }
}

/// A code that names no type is dropped on either side, whatever comes
/// with it.
pub proof fn theorem_unknown_type_is_dropped(frame: FrameView, envelope: Envelope)
    ensures
        MsgType::spec_from_code(frame.msg_type).is_none() ==> spec_telemetry(frame) == Err::<
            Payload,
            RegistryError,
        >(RegistryError::UnknownType),
        envelope.msg_type > u32::MAX || MsgType::spec_from_code(envelope.msg_type as u32).is_none()
            ==> spec_command(envelope) == Err::<Payload, RegistryError>(
            RegistryError::UnknownType,
        ),
{
}

/// Neither side takes what only the other may send: a command in a frame
/// from the device, or telemetry in an envelope from the network, is
/// refused for its direction, whatever comes with it.
pub proof fn theorem_wrong_direction_is_dropped(t: MsgType, payload: Seq<u8>, data: DataFields)
    ensures
        t.spec_direction() == Direction::Command ==> spec_telemetry(
            FrameView { msg_type: t.spec_code(), payload },
        ) == Err::<Payload, RegistryError>(RegistryError::WrongDirection),
        t.spec_direction() == Direction::Telemetry ==> spec_command(
            Envelope { msg_type: t.spec_code() as u64, data },
        ) == Err::<Payload, RegistryError>(RegistryError::WrongDirection),
{
}

/// A message of the device, framed and decoded, goes out to the network
/// as itself.
pub proof fn theorem_telemetry_passes(payload: Payload, max: u32)
    requires
        payload.spec_msg_type().spec_direction() == Direction::Telemetry,
        max >= 16,
    ensures
        scan(frame_bytes(frame_of(payload).msg_type, frame_of(payload).payload), max) == (Scan {
            frames: seq![frame_of(payload)],
            rest: Seq::empty(),
            error: None,
        }),
        spec_telemetry(frame_of(payload)) == Ok::<Payload, RegistryError>(payload),
{
    theorem_frame_round_trip(frame_of(payload).msg_type, frame_of(payload).payload, max);
    theorem_binary_round_trip(payload);
}

/// A command in an envelope goes out to the device as itself: the
/// frame written for it decodes to one message, whose payload reads back
/// as the command.
pub proof fn theorem_command_passes(payload: Payload, max: u32)
    requires
        payload.spec_msg_type().spec_direction() == Direction::Command,
        max >= 16,
    ensures
        spec_command(
            Envelope {
                msg_type: payload.spec_msg_type().spec_code() as u64,
                data: DataFields::spec_of(payload),
            },
        ) == Ok::<Payload, RegistryError>(payload),
        scan(frame_bytes(frame_of(payload).msg_type, frame_of(payload).payload), max) == (Scan {
            frames: seq![frame_of(payload)],
            rest: Seq::empty(),
            error: None,
        }),
        spec_decode_binary(frame_of(payload).msg_type, frame_of(payload).payload) == Ok::<
            Payload,
            RegistryError,
        >(payload),
{
    theorem_json_round_trip(payload);
    theorem_frame_round_trip(frame_of(payload).msg_type, frame_of(payload).payload, max);
    theorem_binary_round_trip(payload);
}

/// Something that arrived at the bridge.
#[derive(Debug, PartialEq, Eq)]
pub enum BridgeEvent {
    /// A frame decoded from the serial line.
    SerialFrame(SerialMessage),
    /// A text received from the network.
    NetworkMessage(Vec<u8>),
    /// A message taken from the queue of writes to the serial line.
    WriteRequest(SerialMessage),
}

/// What the bridge is to do about an arrival.
#[derive(Debug, PartialEq, Eq)]
pub enum BridgeAction {
    /// Send this text to the network.
    SendToNetwork(Vec<u8>),
    /// Put this message on the queue of writes to the serial line.
    QueueWrite(SerialMessage),
    /// Write these bytes to the serial line, in order.
    WriteToSerial(Vec<u8>),
    /// Nothing is forwarded; note the reason and go on.
    Discard(DropReason),
}

/// The one action for each arrival.
///
/// A frame from the device becomes a text for the network. A text from the
/// network becomes a message queued for the device. A queued message
/// becomes the bytes of its frame. What cannot be carried over is discarded,
/// and nothing else happens for it.
pub fn route(event: BridgeEvent) -> (action: BridgeAction)
    ensures
        match event {
            BridgeEvent::SerialFrame(frame) => match spec_telemetry(frame@) {
                Ok(payload) => action matches BridgeAction::SendToNetwork(text) && text@
                    == envelope_text(payload),
                Err(e) => action matches BridgeAction::Discard(reason) && reason
                    == DropReason::Registry(e),
            },
            BridgeEvent::NetworkMessage(text) => match envelope_in(text@) {
                None => action matches BridgeAction::Discard(reason) && reason
                    == DropReason::MalformedEnvelope,
                Some(envelope) => match spec_command(envelope) {
                    Ok(payload) => action matches BridgeAction::QueueWrite(message) && message@
                        == frame_of(payload),
                    Err(e) => action matches BridgeAction::Discard(reason) && reason
                        == DropReason::Registry(e),
                },
            },
            BridgeEvent::WriteRequest(message) => action matches BridgeAction::WriteToSerial(bytes)
                && bytes@ == frame_bytes(message@.msg_type, message@.payload),
        },
{
    match event {
        BridgeEvent::SerialFrame(frame) => match route_serial_frame(&frame) {
            Ok(text) => BridgeAction::SendToNetwork(text),
            Err(reason) => BridgeAction::Discard(reason),
        },
        BridgeEvent::NetworkMessage(text) => match route_network_message(text.as_slice()) {
            Ok(message) => BridgeAction::QueueWrite(message),
            Err(reason) => BridgeAction::Discard(reason),
        },
        BridgeEvent::WriteRequest(message) => BridgeAction::WriteToSerial(message.encode()),
    }
}

} // verus!
