//! The network envelope, as plain values.
//!
//! On the network a message is a JSON object
//! `{"type": <code>, "data": {<fields of the payload>}}`. An [`Envelope`]
//! holds what the bridge reads from such an object: the code, and each
//! payload field that was there in a usable shape.

use crate::protocol::Payload;
use vstd::prelude::*;

verus! {

/// The member `state` of a `data` object. Two payloads have a field of that
/// name: for one it is a boolean, for the other a list of five positions.
#[derive(Debug, Clone, Copy, PartialEq, Eq)]
pub enum StateField {
    /// `state` is a boolean.
    Flag(bool),
    /// `state` is a list of exactly five integers, each within 16 bits.
    Levels([u16; 5]),
    /// `state` is missing, or is anything else.
    Other,
}

/// The members of a `data` object that some payload has a field for. A
/// member that is missing, or is not a non-negative integer below 2^64, is
/// `None`.
#[derive(Debug, Clone, Copy, PartialEq, Eq)]
pub struct DataFields {
    pub train: Option<u64>,
    pub sensor_id: Option<u64>,
    pub speed: Option<u64>,
    pub switch_id: Option<u64>,
    pub state: StateField,
}

/// One message as the network carries it.
#[derive(Debug, Clone, Copy, PartialEq, Eq)]
pub struct Envelope {
    /// The member `type`.
    pub msg_type: u64,
    /// The member `data`.
    pub data: DataFields,
}

impl DataFields {
    /// A `data` object without any member.
    pub open spec fn spec_empty() -> DataFields {
        DataFields {
            train: None,
            sensor_id: None,
            speed: None,
            switch_id: None,
            state: StateField::Other,
        }
    }

    /// The `data` object of a message: one member for each field.
    pub open spec fn spec_of(payload: Payload) -> DataFields {
        match payload {
            Payload::Sensor(m) => DataFields {
                train: Some(m.train),
                sensor_id: Some(m.sensor_id),
                ..DataFields::spec_empty()
            },
            Payload::Switch(m) => DataFields {
                state: StateField::Levels(m.state),
                ..DataFields::spec_empty()
            },
            Payload::SetTrainSpeed(m) => DataFields {
                train: Some(m.train),
                speed: Some(m.speed),
                ..DataFields::spec_empty()
            },
            Payload::SetSwitch(m) => DataFields {
                switch_id: Some(m.switch_id),
                state: StateField::Flag(m.state),
                ..DataFields::spec_empty()
            },
        }
    }

    /// A `data` object without any member.
    #[verifier::when_used_as_spec(spec_empty)]
    pub fn empty() -> (fields: DataFields)
        ensures
            fields == DataFields::spec_empty(),
    {
        DataFields {
            train: None,
            sensor_id: None,
            speed: None,
            switch_id: None,
            state: StateField::Other,
        }
    }

    /// The `data` object of a message: one member for each field.
    #[verifier::when_used_as_spec(spec_of)]
    pub fn of(payload: Payload) -> (fields: DataFields)
        ensures
            fields == DataFields::spec_of(payload),
    {
        let none = DataFields::empty();
        match payload {
            Payload::Sensor(m) => DataFields {
                train: Some(m.train),
                sensor_id: Some(m.sensor_id),
                ..none
            },
            Payload::Switch(m) => DataFields { state: StateField::Levels(m.state), ..none },
            Payload::SetTrainSpeed(m) => DataFields {
                train: Some(m.train),
                speed: Some(m.speed),
                ..none
            },
            Payload::SetSwitch(m) => DataFields {
                switch_id: Some(m.switch_id),
                state: StateField::Flag(m.state),
                ..none
            },
        }
    }
}

} // verus!
