use rail_bridge::envelope::{DataFields, Envelope, StateField};
use rail_bridge::json::read_envelope;
use rail_bridge::protocol::{Payload, SensorMsg, SetSwitchMsg, SetTrainSpeedMsg, SwitchMsg};
use rail_bridge::render::{encode_json, put_decimal, put_text, render_envelope};

fn text_of(bytes: Vec<u8>) -> String {
    String::from_utf8(bytes).unwrap()
}

#[test]
fn reads_a_speed_command() {
    let envelope = read_envelope(br#"{"type":256,"data":{"train":3,"speed":50}}"#);
    assert_eq!(
        envelope,
        Some(Envelope {
            msg_type: 256,
            data: DataFields {
                train: Some(3),
                speed: Some(50),
                ..DataFields::empty()
            },
        })
    );
}

#[test]
fn reads_members_in_any_order_and_spacing() {
    let text = b" {\n \"data\" : { \"speed\" : 50 ,\t\"train\" : 3 } ,\r\n \"type\" : 256 } ";
    assert_eq!(
        read_envelope(text),
        read_envelope(br#"{"type":256,"data":{"train":3,"speed":50}}"#)
    );
    assert!(read_envelope(text).is_some());
}

#[test]
fn reads_each_member_under_its_own_key() {
    let envelope =
        read_envelope(br#"{"type":1,"data":{"train":11,"sensor_id":22,"speed":33,"switch_id":44}}"#)
            .unwrap();
    assert_eq!(envelope.msg_type, 1);
    assert_eq!(envelope.data.train, Some(11));
    assert_eq!(envelope.data.sensor_id, Some(22));
    assert_eq!(envelope.data.speed, Some(33));
    assert_eq!(envelope.data.switch_id, Some(44));
    assert_eq!(envelope.data.state, StateField::Other);
}

#[test]
fn reads_the_largest_number() {
    let envelope =
        read_envelope(br#"{"type":18446744073709551615,"data":{"train":18446744073709551615}}"#)
            .unwrap();
    assert_eq!(envelope.msg_type, u64::MAX);
    assert_eq!(envelope.data.train, Some(u64::MAX));
}

#[test]
fn a_number_that_is_no_unsigned_integer_is_not_a_member() {
    let envelope = read_envelope(
        br#"{"type":256,"data":{"train":-3,"speed":1.5,"sensor_id":"7","switch_id":18446744073709551616}}"#,
    )
    .unwrap();
    assert_eq!(envelope.data, DataFields::empty());
}

#[test]
fn reads_state_as_a_flag() {
    let on = read_envelope(br#"{"type":512,"data":{"switch_id":4,"state":true}}"#).unwrap();
    assert_eq!(on.data.switch_id, Some(4));
    assert_eq!(on.data.state, StateField::Flag(true));
    let off = read_envelope(br#"{"type":512,"data":{"switch_id":4,"state":false}}"#).unwrap();
    assert_eq!(off.data.state, StateField::Flag(false));
}

#[test]
fn reads_state_as_five_levels() {
    let envelope = read_envelope(br#"{"type":2,"data":{"state":[1,2,3,65535,0]}}"#).unwrap();
    assert_eq!(envelope.data.state, StateField::Levels([1, 2, 3, 65535, 0]));
}

#[test]
fn state_of_another_shape_is_other() {
    for text in [
        &br#"{"type":2,"data":{"state":[1,2,3,4]}}"#[..],
        &br#"{"type":2,"data":{"state":[1,2,3,4,5,6]}}"#[..],
        &br#"{"type":2,"data":{"state":[1,2,3,4,65536]}}"#[..],
        &br#"{"type":2,"data":{"state":[1,2,3,4,-5]}}"#[..],
        &br#"{"type":2,"data":{"state":[1,2,3,4,true]}}"#[..],
        &br#"{"type":2,"data":{"state":[]}}"#[..],
        &br#"{"type":2,"data":{"state":1}}"#[..],
        &br#"{"type":2,"data":{"state":"true"}}"#[..],
        &br#"{"type":2,"data":{"state":null}}"#[..],
        &br#"{"type":2,"data":{"state":{"0":1}}}"#[..],
        &br#"{"type":2,"data":{}}"#[..],
    ] {
        assert_eq!(read_envelope(text).unwrap().data.state, StateField::Other);
    }
}

#[test]
fn members_outside_data_do_not_count() {
    let envelope = read_envelope(br#"{"type":256,"train":3,"speed":50,"data":{}}"#).unwrap();
    assert_eq!(envelope.data, DataFields::empty());
}

#[test]
fn missing_data_reads_as_no_members() {
    for text in [
        &br#"{"type":256}"#[..],
        &br#"{"type":256,"data":null}"#[..],
        &br#"{"type":256,"data":[3,50]}"#[..],
        &br#"{"type":256,"data":"train"}"#[..],
    ] {
        assert_eq!(
            read_envelope(text),
            Some(Envelope { msg_type: 256, data: DataFields::empty() })
        );
    }
}

#[test]
fn a_repeated_key_counts_once_with_its_last_value() {
    let envelope = read_envelope(br#"{"type":1,"type":256,"data":{"train":1,"train":3}}"#);
    assert_eq!(
        envelope,
        Some(Envelope {
            msg_type: 256,
            data: DataFields { train: Some(3), ..DataFields::empty() },
        })
    );
}

#[test]
fn text_that_is_not_json_is_no_envelope() {
    for text in [
        &b""[..],
        &b"{"[..],
        &b"hello"[..],
        &br#"{"type":256,"data":{"train":3,"speed":50}"#[..],
        &br#"{"type":256,"data":{"train":3,"speed":50}} x"#[..],
        &br#"{'type':256}"#[..],
        &[0xFF, 0xFE, 0x00][..],
    ] {
        assert_eq!(read_envelope(text), None);
    }
}

#[test]
fn json_without_a_usable_type_is_no_envelope() {
    for text in [
        &b"{}"[..],
        &b"[]"[..],
        &b"256"[..],
        &b"null"[..],
        &br#"{"data":{"train":3,"speed":50}}"#[..],
        &br#"{"type":"256","data":{}}"#[..],
        &br#"{"type":-1,"data":{}}"#[..],
        &br#"{"type":256.0,"data":{}}"#[..],
        &br#"{"type":null,"data":{}}"#[..],
        &br#"{"type":[256],"data":{}}"#[..],
        &br#"{"Type":256,"data":{}}"#[..],
        &br#"[{"type":256}]"#[..],
    ] {
        assert_eq!(read_envelope(text), None);
    }
}

#[test]
fn decimal_digits() {
    for n in [0u64, 1, 9, 10, 11, 99, 100, 101, 65535, 4294967295, u64::MAX] {
        let mut out = vec![b'#'];
        put_decimal(&mut out, n);
        assert_eq!(text_of(out), format!("#{}", n));
    }
}

#[test]
fn text_is_appended_as_utf8() {
    let mut out = vec![b'['];
    put_text(&mut out, "a\"b");
    put_text(&mut out, "");
    put_text(&mut out, "\u{e9}");
    assert_eq!(out, vec![b'[', b'a', b'"', b'b', 0xC3, 0xA9]);
}

#[test]
fn sensor_envelope_text() {
    let text = render_envelope(&Payload::Sensor(SensorMsg { train: 3, sensor_id: 7 }));
    assert_eq!(text_of(text), r#"{"type":1,"data":{"train":3,"sensor_id":7}}"#);
}

#[test]
fn switch_envelope_text() {
    let text = render_envelope(&Payload::Switch(SwitchMsg { state: [0, 1, 10, 256, 65535] }));
    assert_eq!(text_of(text), r#"{"type":2,"data":{"state":[0,1,10,256,65535]}}"#);
}

#[test]
fn speed_envelope_text() {
    let text = render_envelope(&Payload::SetTrainSpeed(SetTrainSpeedMsg {
        train: 3,
        speed: u64::MAX,
    }));
    assert_eq!(
        text_of(text),
        r#"{"type":256,"data":{"train":3,"speed":18446744073709551615}}"#
    );
}

#[test]
fn set_switch_envelope_text() {
    let on = render_envelope(&Payload::SetSwitch(SetSwitchMsg { switch_id: 4, state: true }));
    assert_eq!(text_of(on), r#"{"type":512,"data":{"switch_id":4,"state":true}}"#);
    let off = render_envelope(&Payload::SetSwitch(SetSwitchMsg { switch_id: 0, state: false }));
    assert_eq!(text_of(off), r#"{"type":512,"data":{"switch_id":0,"state":false}}"#);
}

#[test]
fn data_object_text() {
    let text = encode_json(&Payload::Sensor(SensorMsg { train: 12, sensor_id: 345 }));
    assert_eq!(text_of(text), r#"{"train":12,"sensor_id":345}"#);
}

#[test]
fn what_is_written_reads_back() {
    let payloads = [
        Payload::Sensor(SensorMsg { train: 3, sensor_id: 7 }),
        Payload::Sensor(SensorMsg { train: u64::MAX, sensor_id: 0 }),
        Payload::Switch(SwitchMsg { state: [0, 1, 256, 65535, 0x1234] }),
        Payload::SetTrainSpeed(SetTrainSpeedMsg { train: 1 << 40, speed: 50 }),
        Payload::SetSwitch(SetSwitchMsg { switch_id: 4, state: true }),
        Payload::SetSwitch(SetSwitchMsg { switch_id: 5, state: false }),
    ];
    for payload in payloads {
        let text = render_envelope(&payload);
        assert_eq!(
            read_envelope(&text),
            Some(Envelope {
                msg_type: payload.msg_type().code() as u64,
                data: DataFields::of(payload),
            })
        );
    }
}

#[test]
fn what_is_written_is_what_serde_json_writes() {
    let mut data = serde_json::Map::new();
    data.insert("train".to_string(), serde_json::Value::from(3u64));
    data.insert("sensor_id".to_string(), serde_json::Value::from(7u64));
    let mut envelope = serde_json::Map::new();
    envelope.insert("type".to_string(), serde_json::Value::from(1u64));
    envelope.insert("data".to_string(), serde_json::Value::Object(data));
    let theirs = serde_json::Value::Object(envelope);
    let ours = render_envelope(&Payload::Sensor(SensorMsg { train: 3, sensor_id: 7 }));
    let parsed: serde_json::Value = serde_json::from_slice(&ours).unwrap();
    assert_eq!(parsed, theirs);
}
