//! Writing envelopes as JSON text.
//!
//! The text is compact: no spaces, members in the order of the payload's
//! fields, numbers in decimal. It is stated byte for byte, as UTF-8.

use crate::protocol::{Payload, SensorMsg, SetSwitchMsg, SetTrainSpeedMsg, SwitchMsg};
use vstd::prelude::*;
use vstd::string::StringSliceAdditionalSpecFns;

verus! {

/// The decimal digits of `n`, without leading zeros.
pub open spec fn decimal(n: nat) -> Seq<u8>
    decreases n,
{
    if n < 10 {
        seq![(48 + n) as u8]
    } else {
        decimal(n / 10).push((48 + n % 10) as u8)
    }
}

/// The text of the `data` object of a message.
pub open spec fn data_text(payload: Payload) -> Seq<u8> {
    match payload {
        Payload::Sensor(m) => "{\"train\":".spec_bytes() + decimal(m.train as nat)
            + ",\"sensor_id\":".spec_bytes() + decimal(m.sensor_id as nat) + "}".spec_bytes(),
        Payload::Switch(m) => "{\"state\":[".spec_bytes() + decimal(m.state[0] as nat)
            + ",".spec_bytes() + decimal(m.state[1] as nat) + ",".spec_bytes() + decimal(
            m.state[2] as nat,
        ) + ",".spec_bytes() + decimal(m.state[3] as nat) + ",".spec_bytes() + decimal(
            m.state[4] as nat,
        ) + "]}".spec_bytes(),
        Payload::SetTrainSpeed(m) => "{\"train\":".spec_bytes() + decimal(m.train as nat)
            + ",\"speed\":".spec_bytes() + decimal(m.speed as nat) + "}".spec_bytes(),
        Payload::SetSwitch(m) => "{\"switch_id\":".spec_bytes() + decimal(m.switch_id as nat)
            + ",\"state\":".spec_bytes() + (if m.state {
            "true".spec_bytes()
        } else {
            "false".spec_bytes()
        }) + "}".spec_bytes(),
    }
}

/// The text of the envelope of a message:
/// `{"type":<code>,"data":<data object>}`.
pub open spec fn envelope_text(payload: Payload) -> Seq<u8> {
    "{\"type\":".spec_bytes() + decimal(payload.spec_msg_type().spec_code() as nat)
        + ",\"data\":".spec_bytes() + data_text(payload) + "}".spec_bytes()
}

/// Appends the UTF-8 bytes of `text`.
pub fn put_text(out: &mut Vec<u8>, text: &str)
    ensures
        final(out)@ == old(out)@ + text.spec_bytes(),
{
    out.extend_from_slice(text.as_bytes());
    assert(out@ =~= old(out)@ + text.spec_bytes());
}

/// Appends `n` in decimal.
pub fn put_decimal(out: &mut Vec<u8>, n: u64)
    ensures
        final(out)@ == old(out)@ + decimal(n as nat),
    decreases n,
{
    if n >= 10 {
        put_decimal(out, n / 10);
    }
    out.push(48 + (n % 10) as u8);
    assert(out@ =~= old(out)@ + decimal(n as nat));
}

fn put_sensor(out: &mut Vec<u8>, m: &SensorMsg)
    ensures
        final(out)@ == old(out)@ + data_text(Payload::Sensor(*m)),
{
    put_text(out, "{\"train\":");
    put_decimal(out, m.train);
    put_text(out, ",\"sensor_id\":");
    put_decimal(out, m.sensor_id);
    put_text(out, "}");
    assert(out@ =~= old(out)@ + data_text(Payload::Sensor(*m)));
}

fn put_switch(out: &mut Vec<u8>, m: &SwitchMsg)
    ensures
        final(out)@ == old(out)@ + data_text(Payload::Switch(*m)),
{
    put_text(out, "{\"state\":[");
    put_decimal(out, m.state[0] as u64);
    put_text(out, ",");
    put_decimal(out, m.state[1] as u64);
    put_text(out, ",");
    put_decimal(out, m.state[2] as u64);
    put_text(out, ",");
    put_decimal(out, m.state[3] as u64);
    put_text(out, ",");
    put_decimal(out, m.state[4] as u64);
    put_text(out, "]}");
    assert(out@ =~= old(out)@ + data_text(Payload::Switch(*m)));
}

fn put_set_train_speed(out: &mut Vec<u8>, m: &SetTrainSpeedMsg)
    ensures
        final(out)@ == old(out)@ + data_text(Payload::SetTrainSpeed(*m)),
{
    put_text(out, "{\"train\":");
    put_decimal(out, m.train);
    put_text(out, ",\"speed\":");
    put_decimal(out, m.speed);
    put_text(out, "}");
    assert(out@ =~= old(out)@ + data_text(Payload::SetTrainSpeed(*m)));
}

fn put_set_switch(out: &mut Vec<u8>, m: &SetSwitchMsg)
    ensures
        final(out)@ == old(out)@ + data_text(Payload::SetSwitch(*m)),
{
    put_text(out, "{\"switch_id\":");
    put_decimal(out, m.switch_id);
    put_text(out, ",\"state\":");
    if m.state {
        put_text(out, "true");
    } else {
        put_text(out, "false");
    }
    put_text(out, "}");
    assert(out@ =~= old(out)@ + data_text(Payload::SetSwitch(*m)));
}

/// Appends the `data` object of a message.
pub fn put_data(out: &mut Vec<u8>, payload: &Payload)
    ensures
        final(out)@ == old(out)@ + data_text(*payload),
{
    match payload {
        Payload::Sensor(m) => put_sensor(out, m),
        Payload::Switch(m) => put_switch(out, m),
        Payload::SetTrainSpeed(m) => put_set_train_speed(out, m),
        Payload::SetSwitch(m) => put_set_switch(out, m),
    }
}

/// Writes the `data` object of a message.
pub fn encode_json(payload: &Payload) -> (out: Vec<u8>)
    ensures
        out@ == data_text(*payload),
{
    let mut out: Vec<u8> = Vec::new();
    put_data(&mut out, payload);
    assert(out@ =~= data_text(*payload));
    out
}

/// Writes the envelope of a message.
pub fn render_envelope(payload: &Payload) -> (out: Vec<u8>)
    ensures
        out@ == envelope_text(*payload),
{
    let mut out: Vec<u8> = Vec::new();
    put_text(&mut out, "{\"type\":");
    put_decimal(&mut out, payload.msg_type().code() as u64);
    put_text(&mut out, ",\"data\":");
    put_data(&mut out, payload);
    put_text(&mut out, "}");
    assert(out@ =~= envelope_text(*payload));
    out
}

} // verus!
