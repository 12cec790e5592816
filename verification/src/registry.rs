//! The table of message types: which codes are known, which way each type
//! travels, and how its payload is read and written.

use crate::envelope::{DataFields, StateField};
use crate::protocol::{
    lemma_sensor_round_trip, lemma_set_switch_round_trip,
    lemma_set_train_speed_round_trip, lemma_switch_round_trip, Direction, MsgType, Payload,
    SensorMsg, SetSwitchMsg, SetTrainSpeedMsg, SwitchMsg,
};
use vstd::prelude::*;

verus! {

/// Why the registry turned a message down.
#[derive(Debug, Clone, Copy, PartialEq, Eq)]
pub enum RegistryError {
    /// No type has this code.
    UnknownType,
    /// The type is known but travels the other way.
    WrongDirection,
    /// The payload is not one of this type.
    MalformedPayload,
}

/// The type under `code`, provided it travels in `direction`.
pub open spec fn spec_lookup(code: u32, direction: Direction) -> Result<MsgType, RegistryError> {
    match MsgType::spec_from_code(code) {
        None => Err(RegistryError::UnknownType),
        Some(t) => if t.spec_direction() == direction {
            Ok(t)
        } else {
            Err(RegistryError::WrongDirection)
        },
    }
}

/// Finds the type under `code` among those that travel in `direction`.
///
/// A code that names no type is unknown. A code that names a type of the
/// other direction is refused as such: a command never comes from the
/// device, nor telemetry from the network.
pub fn lookup(code: u32, direction: Direction) -> (found: Result<MsgType, RegistryError>)
    ensures
        found == spec_lookup(code, direction),
{
    match MsgType::from_code(code) {
        None => Err(RegistryError::UnknownType),
        Some(t) => {
            if t.direction() == direction {
                Ok(t)
            } else {
                Err(RegistryError::WrongDirection)
            }
        },
    }
}

/// The message that `bytes` spell as a payload of the type under `code`.
pub open spec fn spec_decode_binary(code: u32, bytes: Seq<u8>) -> Result<Payload, RegistryError> {
    match MsgType::spec_from_code(code) {
        None => Err(RegistryError::UnknownType),
        Some(MsgType::Sensor) => match SensorMsg::spec_from_wire(bytes) {
            Some(m) => Ok(Payload::Sensor(m)),
            None => Err(RegistryError::MalformedPayload),
        },
        Some(MsgType::Switch) => match SwitchMsg::spec_from_wire(bytes) {
            Some(m) => Ok(Payload::Switch(m)),
            None => Err(RegistryError::MalformedPayload),
        },
        Some(MsgType::SetTrainSpeed) => match SetTrainSpeedMsg::spec_from_wire(bytes) {
            Some(m) => Ok(Payload::SetTrainSpeed(m)),
            None => Err(RegistryError::MalformedPayload),
        },
        Some(MsgType::SetSwitch) => match SetSwitchMsg::spec_from_wire(bytes) {
            Some(m) => Ok(Payload::SetSwitch(m)),
            None => Err(RegistryError::MalformedPayload),
        },
    }
}

/// Reads a payload of the type under `code`.
///
/// Fails with `UnknownType` when no type has this code, and with
/// `MalformedPayload` when `bytes` does not have the width of the type, or
/// holds a byte that is neither 0 nor 1 where a boolean stands.
pub fn decode_binary(code: u32, bytes: &[u8]) -> (decoded: Result<Payload, RegistryError>)
    ensures
        decoded == spec_decode_binary(code, bytes@),
{
    match MsgType::from_code(code) {
        None => Err(RegistryError::UnknownType),
        Some(MsgType::Sensor) => match SensorMsg::from_wire(bytes) {
            Some(m) => Ok(Payload::Sensor(m)),
            None => Err(RegistryError::MalformedPayload),
        },
        Some(MsgType::Switch) => match SwitchMsg::from_wire(bytes) {
            Some(m) => Ok(Payload::Switch(m)),
            None => Err(RegistryError::MalformedPayload),
        },
        Some(MsgType::SetTrainSpeed) => match SetTrainSpeedMsg::from_wire(bytes) {
            Some(m) => Ok(Payload::SetTrainSpeed(m)),
            None => Err(RegistryError::MalformedPayload),
        },
        Some(MsgType::SetSwitch) => match SetSwitchMsg::from_wire(bytes) {
            Some(m) => Ok(Payload::SetSwitch(m)),
            None => Err(RegistryError::MalformedPayload),
        },
    }
}

/// Writes the payload of a message.
pub fn encode_binary(payload: &Payload) -> (out: Vec<u8>)
    ensures
        out@ == payload.wire_bytes(),
        out@.len() == payload.spec_msg_type().spec_width(),
{
    let mut out: Vec<u8> = Vec::new();
    match payload {
        Payload::Sensor(m) => m.put_wire(&mut out),
        Payload::Switch(m) => m.put_wire(&mut out),
        Payload::SetTrainSpeed(m) => m.put_wire(&mut out),
        Payload::SetSwitch(m) => m.put_wire(&mut out),
    }
    assert(out@ =~= payload.wire_bytes());
    out
}

/// The message of the type under `code` that the members of `data` make up.
pub open spec fn spec_decode_json(code: u32, data: DataFields) -> Result<Payload, RegistryError> {
    match MsgType::spec_from_code(code) {
        None => Err(RegistryError::UnknownType),
        Some(MsgType::Sensor) => match (data.train, data.sensor_id) {
            (Some(train), Some(sensor_id)) => Ok(Payload::Sensor(SensorMsg { train, sensor_id })),
            _ => Err(RegistryError::MalformedPayload),
        },
        Some(MsgType::Switch) => match data.state {
            StateField::Levels(state) => Ok(Payload::Switch(SwitchMsg { state })),
            _ => Err(RegistryError::MalformedPayload),
        },
        Some(MsgType::SetTrainSpeed) => match (data.train, data.speed) {
            (Some(train), Some(speed)) => Ok(
                Payload::SetTrainSpeed(SetTrainSpeedMsg { train, speed }),
            ),
            _ => Err(RegistryError::MalformedPayload),
        },
        Some(MsgType::SetSwitch) => match (data.switch_id, data.state) {
            (Some(switch_id), StateField::Flag(state)) => Ok(
                Payload::SetSwitch(SetSwitchMsg { switch_id, state }),
            ),
            _ => Err(RegistryError::MalformedPayload),
        },
    }
}

/// Builds the message of the type under `code` from the members of a `data`
/// object.
///
/// Fails with `UnknownType` when no type has this code, and with
/// `MalformedPayload` when a field of the type has no member of its shape.
/// Members that the type has no field for are ignored.
pub fn decode_json(code: u32, data: &DataFields) -> (decoded: Result<Payload, RegistryError>)
    ensures
        decoded == spec_decode_json(code, *data),
{
    match MsgType::from_code(code) {
        None => Err(RegistryError::UnknownType),
        Some(MsgType::Sensor) => match (data.train, data.sensor_id) {
            (Some(train), Some(sensor_id)) => Ok(Payload::Sensor(SensorMsg { train, sensor_id })),
            _ => Err(RegistryError::MalformedPayload),
        },
        Some(MsgType::Switch) => match data.state {
            StateField::Levels(state) => Ok(Payload::Switch(SwitchMsg { state })),
            _ => Err(RegistryError::MalformedPayload),
        },
        Some(MsgType::SetTrainSpeed) => match (data.train, data.speed) {
            (Some(train), Some(speed)) => Ok(
                Payload::SetTrainSpeed(SetTrainSpeedMsg { train, speed }),
            ),
            _ => Err(RegistryError::MalformedPayload),
        },
        Some(MsgType::SetSwitch) => match (data.switch_id, data.state) {
            (Some(switch_id), StateField::Flag(state)) => Ok(
                Payload::SetSwitch(SetSwitchMsg { switch_id, state }),
            ),
            _ => Err(RegistryError::MalformedPayload),
        },
    }
}

/// The `data` object written for a message reads back as that message.
pub proof fn theorem_json_round_trip(payload: Payload)
    ensures
        spec_decode_json(payload.spec_msg_type().spec_code(), DataFields::spec_of(payload)) == Ok::<
            Payload,
            RegistryError,
        >(payload),
{
}

/// A payload is refused as malformed exactly when its length is not the
/// width of its type or a boolean byte is out of range; a payload of the
/// right width without such a byte is always read.
pub proof fn theorem_decode_binary_failures(code: u32, bytes: Seq<u8>)
    ensures
        spec_decode_binary(code, bytes) == Err::<Payload, RegistryError>(
            RegistryError::UnknownType,
        ) <==> MsgType::spec_from_code(code).is_none(),
        spec_decode_binary(code, bytes) == Err::<Payload, RegistryError>(
            RegistryError::MalformedPayload,
        ) <==> MsgType::spec_from_code(code).is_some() && (bytes.len()
            != MsgType::spec_from_code(code).unwrap().spec_width() || (MsgType::spec_from_code(code)
            == Some(MsgType::SetSwitch) && bytes[8] > 1)),
        spec_decode_binary(code, bytes).is_ok() ==> spec_decode_binary(
            code,
            bytes,
        ).unwrap().spec_msg_type().spec_code() == code,
{
}

/// Reading the payload that was written for a message gives that message
/// back, whatever its type and fields.
pub proof fn theorem_binary_round_trip(payload: Payload)
    ensures
        spec_decode_binary(payload.spec_msg_type().spec_code(), payload.wire_bytes()) == Ok::<
            Payload,
            RegistryError,
        >(payload),
{
    match payload {
        Payload::Sensor(m) => lemma_sensor_round_trip(m),
        Payload::Switch(m) => lemma_switch_round_trip(m),
        Payload::SetTrainSpeed(m) => lemma_set_train_speed_round_trip(m),
        Payload::SetSwitch(m) => lemma_set_switch_round_trip(m),
    }
}

} // verus!
