//! Reading envelopes from JSON text.
//!
//! The text is parsed by `serde_json`. Nothing here proves what that parser
//! does: its result has a name, [`json_parsed`], and the few methods used to
//! look into a parsed value are described against a model of it,
//! [`JsonView`]. Everything after the parse is verified against that model.

use crate::envelope::{DataFields, Envelope, StateField};
use vstd::prelude::*;

verus! {

/// The value type of `serde_json`. Nothing is known of what is inside one
/// but through [`json_content`].
#[verifier::external_type_specification]
#[verifier::external_body]
pub struct ExJsonValue(serde_json::Value);

/// What a JSON value holds.
pub enum JsonView {
    Null,
    Bool(bool),
    /// A number that is a non-negative integer below 2^64.
    Unsigned(u64),
    /// A number that is negative or not an integer.
    OtherNumber,
    Text(Seq<char>),
    Array(Seq<JsonView>),
    /// The members of an object by key. Where the text repeats a key, the
    /// last one counts.
    Object(Map<Seq<char>, JsonView>),
}

impl JsonView {
    /// The member under `key`, if this is an object that has one.
    pub open spec fn member(self, key: Seq<char>) -> Option<JsonView> {
        match self {
            JsonView::Object(members) => if members.contains_key(key) {
                Some(members[key])
            } else {
                None
            },
            _ => None,
        }
    }

    /// The number, if this is a non-negative integer below 2^64.
    pub open spec fn unsigned(self) -> Option<u64> {
        match self {
            JsonView::Unsigned(n) => Some(n),
            _ => None,
        }
    }

    /// The boolean, if this is one.
    pub open spec fn boolean(self) -> Option<bool> {
        match self {
            JsonView::Bool(b) => Some(b),
            _ => None,
        }
    }

    /// The items, if this is an array.
    pub open spec fn items(self) -> Option<Seq<JsonView>> {
        match self {
            JsonView::Array(items) => Some(items),
            _ => None,
        }
    }

    /// The number under `key`.
    pub open spec fn unsigned_member(self, key: Seq<char>) -> Option<u64> {
        match self.member(key) {
            Some(v) => v.unsigned(),
            None => None,
        }
    }

    /// The number, if this is a non-negative integer that fits 16 bits.
    pub open spec fn level(self) -> Option<u16> {
        match self {
            JsonView::Unsigned(n) => if n <= u16::MAX {
                Some(n as u16)
            } else {
                None
            },
            _ => None,
        }
    }
}

/// What `serde_json` reads from a text: the value, or `None` where the text
/// is not one JSON value.
pub uninterp spec fn json_parsed(text: Seq<u8>) -> Option<JsonView>;

/// What a value of `serde_json` holds.
pub uninterp spec fn json_content(value: serde_json::Value) -> JsonView;

/// `serde_json::from_slice`, for a `Value`. The result is named: a value
/// comes back exactly when [`json_parsed`] says so, and holds what it says.
#[verifier::external_body]
fn parse_value(text: &[u8]) -> (parsed: Option<serde_json::Value>)
    ensures
        parsed.is_some() == json_parsed(text@).is_some(),
        parsed.is_some() ==> json_content(parsed.unwrap()) == json_parsed(text@).unwrap(),
{
    serde_json::from_slice::<serde_json::Value>(text).ok()
}

/// `Value::get` with a string key: the member under `key` where `value` is
/// an object that has one, `None` for a missing key and for every value
/// that is not an object.
#[verifier::external_body]
fn value_member<'a>(value: &'a serde_json::Value, key: &str) -> (found: Option<
    &'a serde_json::Value,
>)
    ensures
        found.is_some() == json_content(*value).member(key@).is_some(),
        found.is_some() ==> json_content(*found.unwrap()) == json_content(*value).member(
            key@,
        ).unwrap(),
{
    value.get(key)
}

/// `Value::as_u64`: the number where `value` is a non-negative integer
/// below 2^64, `None` for every other number and every other value.
#[verifier::external_body]
fn value_as_u64(value: &serde_json::Value) -> (n: Option<u64>)
    ensures
        n == json_content(*value).unsigned(),
{
    value.as_u64()
}

/// `Value::as_bool`: the boolean where `value` is one, else `None`.
#[verifier::external_body]
fn value_as_bool(value: &serde_json::Value) -> (b: Option<bool>)
    ensures
        b == json_content(*value).boolean(),
{
    value.as_bool()
}

/// `Value::as_array`: the items in order where `value` is an array, else
/// `None`.
#[verifier::external_body]
fn value_as_array(value: &serde_json::Value) -> (items: Option<&Vec<serde_json::Value>>)
    ensures
        items.is_some() == json_content(*value).items().is_some(),
        items.is_some() ==> items.unwrap()@.len() == json_content(*value).items().unwrap().len(),
        items.is_some() ==> forall|i: int|
            0 <= i < items.unwrap()@.len() ==> json_content(#[trigger] items.unwrap()@[i])
                == json_content(*value).items().unwrap()[i],
{
    value.as_array()
}

/// The member `state` of a `data` object, as the payloads use it.
pub open spec fn state_of(data: JsonView) -> StateField {
    match data.member("state"@) {
        Some(JsonView::Bool(b)) => StateField::Flag(b),
        Some(JsonView::Array(items)) => if items.len() == 5 && items[0].level().is_some()
            && items[1].level().is_some() && items[2].level().is_some()
            && items[3].level().is_some() && items[4].level().is_some() {
            StateField::Levels(
                [
                    items[0].level().unwrap(),
                    items[1].level().unwrap(),
                    items[2].level().unwrap(),
                    items[3].level().unwrap(),
                    items[4].level().unwrap(),
                ],
            )
        } else {
            StateField::Other
        },
        _ => StateField::Other,
    }
}

/// The payload fields that a `data` object has members for.
pub open spec fn fields_of(data: JsonView) -> DataFields {
    DataFields {
        train: data.unsigned_member("train"@),
        sensor_id: data.unsigned_member("sensor_id"@),
        speed: data.unsigned_member("speed"@),
        switch_id: data.unsigned_member("switch_id"@),
        state: state_of(data),
    }
}

/// The envelope that a JSON value is: it needs a member `type` that is a
/// non-negative integer. A missing `data` counts as one without members.
pub open spec fn envelope_of(doc: JsonView) -> Option<Envelope> {
    match doc.unsigned_member("type"@) {
        Some(msg_type) => Some(
            Envelope {
                msg_type,
                data: match doc.member("data"@) {
                    Some(data) => fields_of(data),
                    None => DataFields::spec_empty(),
                },
            },
        ),
        None => None,
    }
}

/// The envelope that a text spells, if it spells one.
pub open spec fn envelope_in(text: Seq<u8>) -> Option<Envelope> {
    match json_parsed(text) {
        Some(doc) => envelope_of(doc),
        None => None,
    }
}

fn unsigned_member(value: &serde_json::Value, key: &str) -> (n: Option<u64>)
    ensures
        n == json_content(*value).unsigned_member(key@),
{
    match value_member(value, key) {
        Some(member) => value_as_u64(member),
        None => None,
    }
}

fn level(value: &serde_json::Value) -> (n: Option<u16>)
    ensures
        n == json_content(*value).level(),
{
    match value_as_u64(value) {
        Some(n) => if n <= u16::MAX as u64 {
            Some(n as u16)
        } else {
            None
        },
        None => None,
    }
}

fn read_state(data: &serde_json::Value) -> (state: StateField)
    ensures
        state == state_of(json_content(*data)),
{
    match value_member(data, "state") {
        None => StateField::Other,
        Some(member) => match value_as_bool(member) {
            Some(b) => StateField::Flag(b),
            None => match value_as_array(member) {
                None => StateField::Other,
                Some(items) => {
                    if items.len() != 5 {
                        StateField::Other
                    } else {
                        match (
                            level(&items[0]),
                            level(&items[1]),
                            level(&items[2]),
                            level(&items[3]),
                            level(&items[4]),
                        ) {
                            (Some(a), Some(b), Some(c), Some(d), Some(e)) => StateField::Levels(
                                [a, b, c, d, e],
                            ),
                            _ => StateField::Other,
                        }
                    }
                },
            },
        },
    }
}

fn read_fields(data: &serde_json::Value) -> (fields: DataFields)
    ensures
        fields == fields_of(json_content(*data)),
{
    DataFields {
        train: unsigned_member(data, "train"),
        sensor_id: unsigned_member(data, "sensor_id"),
        speed: unsigned_member(data, "speed"),
        switch_id: unsigned_member(data, "switch_id"),
        state: read_state(data),
    }
}

/// Reads an envelope from JSON text.
///
/// `None` where the text is not JSON, or is JSON without a member `type`
/// that is a non-negative integer. What `data` holds is not judged here:
/// members come back as they are found.
pub fn read_envelope(text: &[u8]) -> (envelope: Option<Envelope>)
    ensures
        envelope == envelope_in(text@),
{
    match parse_value(text) {
        None => None,
        Some(doc) => match unsigned_member(&doc, "type") {
            None => None,
            Some(msg_type) => {
                let data = match value_member(&doc, "data") {
                    Some(data) => read_fields(data),
                    None => DataFields::empty(),
                };
                Some(Envelope { msg_type, data })
            },
        },
    }
}

} // verus!
