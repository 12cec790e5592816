//! The messages of the railway protocol and their payload layouts.
//!
//! A payload is the message's fixed-layout record, field after field in
//! declaration order, each integer little-endian, padded to the width the
//! record has in memory.

use crate::endian::{
    get_u16_le, get_u64_le, le_bytes_u16, le_bytes_u64, le_value_u16, le_value_u64,
    lemma_le_u16_value_of_bytes, lemma_le_u64_value_of_bytes, put_u16_le, put_u64_le,
};
use vstd::prelude::*;

verus! {

/// The kinds of message, each with its own type code and payload layout.
#[derive(Debug, Clone, Copy, PartialEq, Eq, Structural)]
pub enum MsgType {
    /// A train passed a sensor. Code 1.
    Sensor,
    /// The positions of the switches. Code 2.
    Switch,
    /// Set the speed of a train. Code 256.
    SetTrainSpeed,
    /// Throw a switch. Code 512.
    SetSwitch,
}

/// Which way a message travels.
#[derive(Debug, Clone, Copy, PartialEq, Eq, Structural)]
pub enum Direction {
    /// From the device to the network.
    Telemetry,
    /// From the network to the device.
    Command,
}

impl MsgType {
    /// The code that stands for this type on the wire and in envelopes.
    pub open spec fn spec_code(self) -> u32 {
        match self {
            MsgType::Sensor => 1,
            MsgType::Switch => 2,
            MsgType::SetTrainSpeed => 256,
            MsgType::SetSwitch => 512,
        }
    }

    /// The type that `code` stands for, if it stands for one.
    pub open spec fn spec_from_code(code: u32) -> Option<MsgType> {
        if code == 1 {
            Some(MsgType::Sensor)
        } else if code == 2 {
            Some(MsgType::Switch)
        } else if code == 256 {
            Some(MsgType::SetTrainSpeed)
        } else if code == 512 {
            Some(MsgType::SetSwitch)
        } else {
            None
        }
    }

    /// The way messages of this type travel.
    pub open spec fn spec_direction(self) -> Direction {
        match self {
            MsgType::Sensor | MsgType::Switch => Direction::Telemetry,
            MsgType::SetTrainSpeed | MsgType::SetSwitch => Direction::Command,
        }
    }

    /// The number of payload bytes of this type.
    pub open spec fn spec_width(self) -> usize {
        match self {
            MsgType::Sensor => 16,
            MsgType::Switch => 10,
            MsgType::SetTrainSpeed => 16,
            MsgType::SetSwitch => 16,
        }
    }

    /// The code that stands for this type on the wire and in envelopes.
    #[verifier::when_used_as_spec(spec_code)]
    pub fn code(self) -> (code: u32)
        ensures
            code == self.spec_code(),
    {
        match self {
            MsgType::Sensor => 1,
            MsgType::Switch => 2,
            MsgType::SetTrainSpeed => 256,
            MsgType::SetSwitch => 512,
        }
    }

    /// The type that `code` stands for. `None` for every other code.
    pub fn from_code(code: u32) -> (found: Option<MsgType>)
        ensures
            found == MsgType::spec_from_code(code),
    {
        if code == 1 {
            Some(MsgType::Sensor)
        } else if code == 2 {
            Some(MsgType::Switch)
        } else if code == 256 {
            Some(MsgType::SetTrainSpeed)
        } else if code == 512 {
            Some(MsgType::SetSwitch)
        } else {
            None
        }
    }

    /// The way messages of this type travel.
    #[verifier::when_used_as_spec(spec_direction)]
    pub fn direction(self) -> (direction: Direction)
        ensures
            direction == self.spec_direction(),
    {
        match self {
            MsgType::Sensor | MsgType::Switch => Direction::Telemetry,
            MsgType::SetTrainSpeed | MsgType::SetSwitch => Direction::Command,
        }
    }

    /// The number of payload bytes of this type.
    #[verifier::when_used_as_spec(spec_width)]
    pub fn width(self) -> (width: usize)
        ensures
            width == self.spec_width(),
    {
        match self {
            MsgType::Sensor => 16,
            MsgType::Switch => 10,
            MsgType::SetTrainSpeed => 16,
            MsgType::SetSwitch => 16,
        }
    }
}

/// A train passed a sensor.
#[derive(Debug, Clone, Copy, PartialEq, Eq)]
pub struct SensorMsg {
    pub train: u64,
    pub sensor_id: u64,
}

/// The positions of the five switches.
#[derive(Debug, Clone, Copy, PartialEq, Eq)]
pub struct SwitchMsg {
    pub state: [u16; 5],
}

/// Set the speed of a train.
#[derive(Debug, Clone, Copy, PartialEq, Eq)]
pub struct SetTrainSpeedMsg {
    pub train: u64,
    pub speed: u64,
}

/// Throw a switch.
#[derive(Debug, Clone, Copy, PartialEq, Eq)]
pub struct SetSwitchMsg {
    pub switch_id: u64,
    pub state: bool,
}

impl SensorMsg {
    /// The payload: `train`, then `sensor_id`.
    pub open spec fn wire_bytes(self) -> Seq<u8> {
        le_bytes_u64(self.train) + le_bytes_u64(self.sensor_id)
    }

    /// The message that sixteen payload bytes spell.
    pub open spec fn spec_from_wire(bytes: Seq<u8>) -> Option<SensorMsg> {
        if bytes.len() == 16 {
            Some(
                SensorMsg {
                    train: le_value_u64(bytes.subrange(0, 8)),
                    sensor_id: le_value_u64(bytes.subrange(8, 16)),
                },
            )
        } else {
            None
        }
    }

    /// Appends the payload.
    pub fn put_wire(&self, out: &mut Vec<u8>)
        ensures
            final(out)@ == old(out)@ + self.wire_bytes(),
    {
        put_u64_le(out, self.train);
        put_u64_le(out, self.sensor_id);
        assert(out@ =~= old(out)@ + self.wire_bytes());
    }

    /// Reads a payload. `None` unless `bytes` has exactly the payload's width.
    pub fn from_wire(bytes: &[u8]) -> (msg: Option<SensorMsg>)
        ensures
            msg == SensorMsg::spec_from_wire(bytes@),
    {
        if bytes.len() != 16 {
            None
        } else {
            Some(SensorMsg { train: get_u64_le(bytes, 0), sensor_id: get_u64_le(bytes, 8) })
        }
    }
}

impl SetTrainSpeedMsg {
    /// The payload: `train`, then `speed`.
    pub open spec fn wire_bytes(self) -> Seq<u8> {
        le_bytes_u64(self.train) + le_bytes_u64(self.speed)
    }

    /// The message that sixteen payload bytes spell.
    pub open spec fn spec_from_wire(bytes: Seq<u8>) -> Option<SetTrainSpeedMsg> {
        if bytes.len() == 16 {
            Some(
                SetTrainSpeedMsg {
                    train: le_value_u64(bytes.subrange(0, 8)),
                    speed: le_value_u64(bytes.subrange(8, 16)),
                },
            )
        } else {
            None
        }
    }

    /// Appends the payload.
    pub fn put_wire(&self, out: &mut Vec<u8>)
        ensures
            final(out)@ == old(out)@ + self.wire_bytes(),
    {
        put_u64_le(out, self.train);
        put_u64_le(out, self.speed);
        assert(out@ =~= old(out)@ + self.wire_bytes());
    }

    /// Reads a payload. `None` unless `bytes` has exactly the payload's width.
    pub fn from_wire(bytes: &[u8]) -> (msg: Option<SetTrainSpeedMsg>)
        ensures
            msg == SetTrainSpeedMsg::spec_from_wire(bytes@),
    {
        if bytes.len() != 16 {
            None
        } else {
            Some(SetTrainSpeedMsg { train: get_u64_le(bytes, 0), speed: get_u64_le(bytes, 8) })
        }
    }
}

impl SwitchMsg {
    /// The payload: the five positions in order.
    pub open spec fn wire_bytes(self) -> Seq<u8> {
        le_bytes_u16(self.state[0]) + le_bytes_u16(self.state[1]) + le_bytes_u16(self.state[2])
            + le_bytes_u16(self.state[3]) + le_bytes_u16(self.state[4])
    }

    /// The message that ten payload bytes spell.
    pub open spec fn spec_from_wire(bytes: Seq<u8>) -> Option<SwitchMsg> {
        if bytes.len() == 10 {
            Some(
                SwitchMsg {
                    state: [
                        le_value_u16(bytes.subrange(0, 2)),
                        le_value_u16(bytes.subrange(2, 4)),
                        le_value_u16(bytes.subrange(4, 6)),
                        le_value_u16(bytes.subrange(6, 8)),
                        le_value_u16(bytes.subrange(8, 10)),
                    ],
                },
            )
        } else {
            None
        }
    }

    /// Appends the payload.
    pub fn put_wire(&self, out: &mut Vec<u8>)
        ensures
            final(out)@ == old(out)@ + self.wire_bytes(),
    {
        put_u16_le(out, self.state[0]);
        put_u16_le(out, self.state[1]);
        put_u16_le(out, self.state[2]);
        put_u16_le(out, self.state[3]);
        put_u16_le(out, self.state[4]);
        assert(out@ =~= old(out)@ + self.wire_bytes());
    }

    /// Reads a payload. `None` unless `bytes` has exactly the payload's width.
    pub fn from_wire(bytes: &[u8]) -> (msg: Option<SwitchMsg>)
        ensures
            msg == SwitchMsg::spec_from_wire(bytes@),
    {
        if bytes.len() != 10 {
            None
        } else {
            let state: [u16; 5] = [
                get_u16_le(bytes, 0),
                get_u16_le(bytes, 2),
                get_u16_le(bytes, 4),
                get_u16_le(bytes, 6),
                get_u16_le(bytes, 8),
            ];
            Some(SwitchMsg { state })
        }
    }
}

impl SetSwitchMsg {
    /// The payload: `switch_id`, one byte for `state` (1 for thrown, 0 for
    /// not), and seven bytes of padding, written as zero.
    pub open spec fn wire_bytes(self) -> Seq<u8> {
        le_bytes_u64(self.switch_id) + seq![if self.state { 1u8 } else { 0u8 }] + seq![
            0u8,
            0u8,
            0u8,
            0u8,
            0u8,
            0u8,
            0u8,
        ]
    }

    /// The message that sixteen payload bytes spell. The byte for `state`
    /// must be 0 or 1; the padding is not looked at.
    pub open spec fn spec_from_wire(bytes: Seq<u8>) -> Option<SetSwitchMsg> {
        if bytes.len() == 16 && bytes[8] <= 1 {
            Some(
                SetSwitchMsg {
                    switch_id: le_value_u64(bytes.subrange(0, 8)),
                    state: bytes[8] == 1,
                },
            )
        } else {
            None
        }
    }

    /// Appends the payload.
    pub fn put_wire(&self, out: &mut Vec<u8>)
        ensures
            final(out)@ == old(out)@ + self.wire_bytes(),
    {
        put_u64_le(out, self.switch_id);
        out.push(if self.state { 1 } else { 0 });
        out.push(0);
        out.push(0);
        out.push(0);
        out.push(0);
        out.push(0);
        out.push(0);
        out.push(0);
        assert(out@ =~= old(out)@ + self.wire_bytes());
    }

    /// Reads a payload. `None` unless `bytes` has exactly the payload's
    /// width and its `state` byte is 0 or 1.
    pub fn from_wire(bytes: &[u8]) -> (msg: Option<SetSwitchMsg>)
        ensures
            msg == SetSwitchMsg::spec_from_wire(bytes@),
    {
        if bytes.len() != 16 || bytes[8] > 1 {
            None
        } else {
            Some(SetSwitchMsg { switch_id: get_u64_le(bytes, 0), state: bytes[8] == 1 })
        }
    }
}

/// Reading what was written for a sensor message gives it back.
pub proof fn lemma_sensor_round_trip(m: SensorMsg)
    ensures
        SensorMsg::spec_from_wire(m.wire_bytes()) == Some(m),
{
    let bytes = m.wire_bytes();
    lemma_le_u64_value_of_bytes(m.train);
    lemma_le_u64_value_of_bytes(m.sensor_id);
    assert(bytes.subrange(0, 8) =~= le_bytes_u64(m.train));
    assert(bytes.subrange(8, 16) =~= le_bytes_u64(m.sensor_id));
}

/// Reading what was written for a speed command gives it back.
pub proof fn lemma_set_train_speed_round_trip(m: SetTrainSpeedMsg)
    ensures
        SetTrainSpeedMsg::spec_from_wire(m.wire_bytes()) == Some(m),
{
    let bytes = m.wire_bytes();
    lemma_le_u64_value_of_bytes(m.train);
    lemma_le_u64_value_of_bytes(m.speed);
    assert(bytes.subrange(0, 8) =~= le_bytes_u64(m.train));
    assert(bytes.subrange(8, 16) =~= le_bytes_u64(m.speed));
}

/// Reading what was written for a switch command gives it back.
pub proof fn lemma_set_switch_round_trip(m: SetSwitchMsg)
    ensures
        SetSwitchMsg::spec_from_wire(m.wire_bytes()) == Some(m),
{
    let bytes = m.wire_bytes();
    lemma_le_u64_value_of_bytes(m.switch_id);
    assert(bytes.subrange(0, 8) =~= le_bytes_u64(m.switch_id));
}

/// Reading what was written for a switch report gives it back.
pub proof fn lemma_switch_round_trip(m: SwitchMsg)
    ensures
        SwitchMsg::spec_from_wire(m.wire_bytes()) == Some(m),
{
    let bytes = m.wire_bytes();
    lemma_le_u16_value_of_bytes(m.state[0]);
    lemma_le_u16_value_of_bytes(m.state[1]);
    lemma_le_u16_value_of_bytes(m.state[2]);
    lemma_le_u16_value_of_bytes(m.state[3]);
    lemma_le_u16_value_of_bytes(m.state[4]);
    assert(bytes.subrange(0, 2) =~= le_bytes_u16(m.state[0]));
    assert(bytes.subrange(2, 4) =~= le_bytes_u16(m.state[1]));
    assert(bytes.subrange(4, 6) =~= le_bytes_u16(m.state[2]));
    assert(bytes.subrange(6, 8) =~= le_bytes_u16(m.state[3]));
    assert(bytes.subrange(8, 10) =~= le_bytes_u16(m.state[4]));
    let read = SwitchMsg::spec_from_wire(bytes).unwrap();
    assert(read.state =~= m.state);
}

/// A message of any of the known types.
#[derive(Debug, Clone, Copy, PartialEq, Eq)]
pub enum Payload {
    Sensor(SensorMsg),
    Switch(SwitchMsg),
    SetTrainSpeed(SetTrainSpeedMsg),
    SetSwitch(SetSwitchMsg),
}

impl Payload {
    /// The type of this message.
    pub open spec fn spec_msg_type(self) -> MsgType {
        match self {
            Payload::Sensor(_) => MsgType::Sensor,
            Payload::Switch(_) => MsgType::Switch,
            Payload::SetTrainSpeed(_) => MsgType::SetTrainSpeed,
            Payload::SetSwitch(_) => MsgType::SetSwitch,
        }
    }

    /// The payload bytes of this message.
    pub open spec fn wire_bytes(self) -> Seq<u8> {
        match self {
            Payload::Sensor(m) => m.wire_bytes(),
            Payload::Switch(m) => m.wire_bytes(),
            Payload::SetTrainSpeed(m) => m.wire_bytes(),
            Payload::SetSwitch(m) => m.wire_bytes(),
        }
    }

    /// The type of this message.
    #[verifier::when_used_as_spec(spec_msg_type)]
    pub fn msg_type(self) -> (t: MsgType)
        ensures
            t == self.spec_msg_type(),
    {
        match self {
            Payload::Sensor(_) => MsgType::Sensor,
            Payload::Switch(_) => MsgType::Switch,
            Payload::SetTrainSpeed(_) => MsgType::SetTrainSpeed,
            Payload::SetSwitch(_) => MsgType::SetSwitch,
        }
    }
}

} // verus!
