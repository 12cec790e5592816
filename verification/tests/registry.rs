use rail_bridge::envelope::{DataFields, StateField};
use rail_bridge::protocol::{
    Direction, MsgType, Payload, SensorMsg, SetSwitchMsg, SetTrainSpeedMsg, SwitchMsg,
};
use rail_bridge::registry::{
    decode_binary, decode_json, encode_binary, lookup, RegistryError,
};

fn sample_payloads() -> Vec<Payload> {
    vec![
        Payload::Sensor(SensorMsg { train: 3, sensor_id: 7 }),
        Payload::Sensor(SensorMsg { train: u64::MAX, sensor_id: 0 }),
        Payload::Sensor(SensorMsg { train: 0x0102030405060708, sensor_id: 0x1112131415161718 }),
        Payload::Switch(SwitchMsg { state: [0, 1, 256, 65535, 0x1234] }),
        Payload::SetTrainSpeed(SetTrainSpeedMsg { train: 3, speed: 50 }),
        Payload::SetTrainSpeed(SetTrainSpeedMsg { train: 1 << 40, speed: u64::MAX }),
        Payload::SetSwitch(SetSwitchMsg { switch_id: 4, state: true }),
        Payload::SetSwitch(SetSwitchMsg { switch_id: u64::MAX - 1, state: false }),
    ]
}

#[test]
fn type_codes() {
    assert_eq!(MsgType::Sensor.code(), 1);
    assert_eq!(MsgType::Switch.code(), 2);
    assert_eq!(MsgType::SetTrainSpeed.code(), 256);
    assert_eq!(MsgType::SetSwitch.code(), 512);
}

#[test]
fn types_by_code() {
    assert_eq!(MsgType::from_code(1), Some(MsgType::Sensor));
    assert_eq!(MsgType::from_code(2), Some(MsgType::Switch));
    assert_eq!(MsgType::from_code(256), Some(MsgType::SetTrainSpeed));
    assert_eq!(MsgType::from_code(512), Some(MsgType::SetSwitch));
    for code in [0u32, 3, 4, 255, 257, 258, 511, 513, 768, 999, u32::MAX] {
        assert_eq!(MsgType::from_code(code), None);
    }
}

#[test]
fn codes_are_not_flags() {
    assert_eq!(MsgType::from_code(1 | 2), None);
    assert_eq!(MsgType::from_code(1 | 256), None);
    assert_eq!(MsgType::from_code(256 | 512), None);
}

#[test]
fn directions() {
    assert_eq!(MsgType::Sensor.direction(), Direction::Telemetry);
    assert_eq!(MsgType::Switch.direction(), Direction::Telemetry);
    assert_eq!(MsgType::SetTrainSpeed.direction(), Direction::Command);
    assert_eq!(MsgType::SetSwitch.direction(), Direction::Command);
}

#[test]
fn widths() {
    assert_eq!(MsgType::Sensor.width(), 16);
    assert_eq!(MsgType::Switch.width(), 10);
    assert_eq!(MsgType::SetTrainSpeed.width(), 16);
    assert_eq!(MsgType::SetSwitch.width(), 16);
}

#[test]
fn payload_types() {
    let types: Vec<MsgType> = sample_payloads().iter().map(|p| p.msg_type()).collect();
    assert_eq!(
        types,
        vec![
            MsgType::Sensor,
            MsgType::Sensor,
            MsgType::Sensor,
            MsgType::Switch,
            MsgType::SetTrainSpeed,
            MsgType::SetTrainSpeed,
            MsgType::SetSwitch,
            MsgType::SetSwitch,
        ]
    );
}

#[test]
fn lookup_gates_by_direction() {
    assert_eq!(lookup(1, Direction::Telemetry), Ok(MsgType::Sensor));
    assert_eq!(lookup(2, Direction::Telemetry), Ok(MsgType::Switch));
    assert_eq!(lookup(256, Direction::Command), Ok(MsgType::SetTrainSpeed));
    assert_eq!(lookup(512, Direction::Command), Ok(MsgType::SetSwitch));
    assert_eq!(lookup(1, Direction::Command), Err(RegistryError::WrongDirection));
    assert_eq!(lookup(2, Direction::Command), Err(RegistryError::WrongDirection));
    assert_eq!(lookup(256, Direction::Telemetry), Err(RegistryError::WrongDirection));
    assert_eq!(lookup(512, Direction::Telemetry), Err(RegistryError::WrongDirection));
    assert_eq!(lookup(999, Direction::Telemetry), Err(RegistryError::UnknownType));
    assert_eq!(lookup(999, Direction::Command), Err(RegistryError::UnknownType));
}

#[test]
fn sensor_payload_bytes() {
    let bytes = encode_binary(&Payload::Sensor(SensorMsg { train: 3, sensor_id: 7 }));
    assert_eq!(bytes, vec![3, 0, 0, 0, 0, 0, 0, 0, 7, 0, 0, 0, 0, 0, 0, 0]);
}

#[test]
fn speed_payload_is_little_endian() {
    let bytes = encode_binary(&Payload::SetTrainSpeed(SetTrainSpeedMsg {
        train: 0x0102030405060708,
        speed: 50,
    }));
    assert_eq!(
        bytes,
        vec![8, 7, 6, 5, 4, 3, 2, 1, 50, 0, 0, 0, 0, 0, 0, 0]
    );
    let mut expected = 0x0102030405060708u64.to_le_bytes().to_vec();
    expected.extend(50u64.to_le_bytes());
    assert_eq!(bytes, expected);
}

#[test]
fn switch_payload_bytes() {
    let bytes = encode_binary(&Payload::Switch(SwitchMsg {
        state: [1, 0x0203, 0, 65535, 5],
    }));
    assert_eq!(bytes, vec![1, 0, 3, 2, 0, 0, 0xFF, 0xFF, 5, 0]);
}

#[test]
fn set_switch_payload_is_padded_to_sixteen() {
    let thrown = encode_binary(&Payload::SetSwitch(SetSwitchMsg {
        switch_id: 0x0A0B,
        state: true,
    }));
    assert_eq!(thrown, vec![0x0B, 0x0A, 0, 0, 0, 0, 0, 0, 1, 0, 0, 0, 0, 0, 0, 0]);
    let straight = encode_binary(&Payload::SetSwitch(SetSwitchMsg {
        switch_id: 0x0A0B,
        state: false,
    }));
    assert_eq!(straight, vec![0x0B, 0x0A, 0, 0, 0, 0, 0, 0, 0, 0, 0, 0, 0, 0, 0, 0]);
}

#[test]
fn payloads_have_the_width_of_their_type() {
    for payload in sample_payloads() {
        assert_eq!(encode_binary(&payload).len(), payload.msg_type().width());
    }
}

#[test]
fn binary_round_trip() {
    for payload in sample_payloads() {
        let bytes = encode_binary(&payload);
        assert_eq!(decode_binary(payload.msg_type().code(), &bytes), Ok(payload));
    }
}

#[test]
fn decode_sensor() {
    let bytes = [3, 0, 0, 0, 0, 0, 0, 0, 7, 0, 0, 0, 0, 0, 0, 0];
    assert_eq!(
        decode_binary(1, &bytes),
        Ok(Payload::Sensor(SensorMsg { train: 3, sensor_id: 7 }))
    );
}

#[test]
fn decode_reads_every_byte_of_a_number() {
    let bytes = [
        0x01, 0x02, 0x03, 0x04, 0x05, 0x06, 0x07, 0x08, 0x11, 0x12, 0x13, 0x14, 0x15, 0x16, 0x17,
        0x18,
    ];
    assert_eq!(
        decode_binary(256, &bytes),
        Ok(Payload::SetTrainSpeed(SetTrainSpeedMsg {
            train: 0x0807060504030201,
            speed: 0x1817161514131211,
        }))
    );
}

#[test]
fn decode_switch() {
    assert_eq!(
        decode_binary(2, &[1, 0, 0, 1, 0xFF, 0xFF, 0, 0, 0x34, 0x12]),
        Ok(Payload::Switch(SwitchMsg { state: [1, 256, 65535, 0, 0x1234] }))
    );
}

#[test]
fn decode_set_switch_ignores_padding() {
    let bytes = [9, 0, 0, 0, 0, 0, 0, 0, 1, 0xAA, 0xBB, 0xCC, 0xDD, 0xEE, 0xFF, 0x11];
    assert_eq!(
        decode_binary(512, &bytes),
        Ok(Payload::SetSwitch(SetSwitchMsg { switch_id: 9, state: true }))
    );
}

#[test]
fn decode_set_switch_refuses_a_byte_that_is_no_boolean() {
    for bad in [2u8, 3, 0x80, 0xFF] {
        let mut bytes = [0u8; 16];
        bytes[8] = bad;
        assert_eq!(decode_binary(512, &bytes), Err(RegistryError::MalformedPayload));
    }
}

#[test]
fn unknown_type_is_refused() {
    for code in [0u32, 3, 999, 1 << 16, u32::MAX] {
        assert_eq!(decode_binary(code, &[0; 16]), Err(RegistryError::UnknownType));
        assert_eq!(decode_binary(code, &[]), Err(RegistryError::UnknownType));
    }
}

#[test]
fn wrong_length_is_malformed() {
    for code in [1u32, 2, 256, 512] {
        let width = MsgType::from_code(code).unwrap().width();
        for len in 0..40usize {
            let bytes = vec![0u8; len];
            let decoded = decode_binary(code, &bytes);
            if len == width {
                assert!(decoded.is_ok());
            } else {
                assert_eq!(decoded, Err(RegistryError::MalformedPayload));
            }
        }
    }
}

#[test]
fn fields_of_each_payload() {
    assert_eq!(
        DataFields::of(Payload::Sensor(SensorMsg { train: 3, sensor_id: 7 })),
        DataFields {
            train: Some(3),
            sensor_id: Some(7),
            speed: None,
            switch_id: None,
            state: StateField::Other,
        }
    );
    assert_eq!(
        DataFields::of(Payload::Switch(SwitchMsg { state: [1, 2, 3, 4, 5] })),
        DataFields {
            state: StateField::Levels([1, 2, 3, 4, 5]),
            ..DataFields::empty()
        }
    );
    assert_eq!(
        DataFields::of(Payload::SetTrainSpeed(SetTrainSpeedMsg { train: 3, speed: 50 })),
        DataFields {
            train: Some(3),
            speed: Some(50),
            ..DataFields::empty()
        }
    );
    assert_eq!(
        DataFields::of(Payload::SetSwitch(SetSwitchMsg { switch_id: 4, state: false })),
        DataFields {
            switch_id: Some(4),
            state: StateField::Flag(false),
            ..DataFields::empty()
        }
    );
}

#[test]
fn json_fields_round_trip() {
    for payload in sample_payloads() {
        assert_eq!(
            decode_json(payload.msg_type().code(), &DataFields::of(payload)),
            Ok(payload)
        );
    }
}

#[test]
fn json_fields_of_another_type_are_ignored() {
    let fields = DataFields {
        train: Some(3),
        sensor_id: Some(7),
        speed: Some(50),
        switch_id: Some(4),
        state: StateField::Flag(true),
    };
    assert_eq!(
        decode_json(1, &fields),
        Ok(Payload::Sensor(SensorMsg { train: 3, sensor_id: 7 }))
    );
    assert_eq!(
        decode_json(256, &fields),
        Ok(Payload::SetTrainSpeed(SetTrainSpeedMsg { train: 3, speed: 50 }))
    );
    assert_eq!(
        decode_json(512, &fields),
        Ok(Payload::SetSwitch(SetSwitchMsg { switch_id: 4, state: true }))
    );
    assert_eq!(decode_json(2, &fields), Err(RegistryError::MalformedPayload));
}

#[test]
fn json_missing_field_is_malformed() {
    let only_train = DataFields { train: Some(3), ..DataFields::empty() };
    assert_eq!(decode_json(1, &only_train), Err(RegistryError::MalformedPayload));
    assert_eq!(decode_json(256, &only_train), Err(RegistryError::MalformedPayload));
    assert_eq!(decode_json(512, &only_train), Err(RegistryError::MalformedPayload));
    assert_eq!(decode_json(2, &DataFields::empty()), Err(RegistryError::MalformedPayload));
    let levels_for_a_flag = DataFields {
        switch_id: Some(1),
        state: StateField::Levels([0; 5]),
        ..DataFields::empty()
    };
    assert_eq!(decode_json(512, &levels_for_a_flag), Err(RegistryError::MalformedPayload));
}

#[test]
fn json_unknown_type_is_refused() {
    let fields = DataFields::of(Payload::Sensor(SensorMsg { train: 3, sensor_id: 7 }));
    assert_eq!(decode_json(999, &fields), Err(RegistryError::UnknownType));
    assert_eq!(decode_json(0, &DataFields::empty()), Err(RegistryError::UnknownType));
}

#[test]
fn pairs_of_numbers_are_laid_out_as_bincode_does() {
    for (a, b) in [(3u64, 50u64), (0, 0), (u64::MAX, 1), (0x0102030405060708, 0xF0E0D0C0B0A09080)] {
        let ours = encode_binary(&Payload::SetTrainSpeed(SetTrainSpeedMsg { train: a, speed: b }));
        assert_eq!(ours, bincode::serialize(&(a, b)).unwrap());
        let ours = encode_binary(&Payload::Sensor(SensorMsg { train: a, sensor_id: b }));
        assert_eq!(ours, bincode::serialize(&(a, b)).unwrap());
        let theirs: (u64, u64) = bincode::deserialize(&ours).unwrap();
        assert_eq!(
            decode_binary(1, &ours),
            Ok(Payload::Sensor(SensorMsg { train: theirs.0, sensor_id: theirs.1 }))
        );
    }
}

#[test]
fn switch_positions_are_laid_out_as_bincode_does() {
    for state in [[0u16; 5], [1, 2, 3, 4, 5], [65535, 256, 255, 0x1234, 0x8000]] {
        let ours = encode_binary(&Payload::Switch(SwitchMsg { state }));
        assert_eq!(ours, bincode::serialize(&state).unwrap());
        let theirs: [u16; 5] = bincode::deserialize(&ours).unwrap();
        assert_eq!(decode_binary(2, &ours), Ok(Payload::Switch(SwitchMsg { state: theirs })));
    }
}

#[test]
fn set_switch_starts_as_bincode_does_and_is_padded() {
    for (id, state) in [(4u64, true), (u64::MAX, false), (0, true)] {
        let ours = encode_binary(&Payload::SetSwitch(SetSwitchMsg { switch_id: id, state }));
        let theirs = bincode::serialize(&(id, state)).unwrap();
        assert_eq!(theirs.len(), 9);
        assert_eq!(&ours[..9], &theirs[..]);
        assert_eq!(&ours[9..], &[0u8; 7]);
        let read: (u64, bool) = bincode::deserialize(&ours).unwrap();
        assert_eq!(read, (id, state));
    }
}
