use ds_bridge::message::{ControllerSample, DsMessage, Hand, RobotMessage};

fn sample(fields: [f64; 10]) -> ControllerSample {
    ControllerSample {
        pos_x: fields[0].to_bits(),
        pos_y: fields[1].to_bits(),
        pos_z: fields[2].to_bits(),
        quat_w: fields[3].to_bits(),
        quat_i: fields[4].to_bits(),
        quat_j: fields[5].to_bits(),
        quat_k: fields[6].to_bits(),
        joystick_x: fields[7].to_bits(),
        joystick_y: fields[8].to_bits(),
        trigger: fields[9].to_bits(),
    }
}

#[test]
fn encode_is_82_bytes_with_fields_at_fixed_offsets() {
    let fields: [f64; 10] = [1.0, -2.5, 3.25, 0.5, -0.125, 8.0, -16.75, 0.0, 100.0, 0.875];
    let message = DsMessage::Sixense(sample(fields), Hand::Left);
    let bytes = message.encode();
    assert_eq!(bytes.len(), 82);
    assert_eq!(bytes[0], 0, "tag byte");
    for (k, field) in fields.iter().enumerate() {
        let offset = 1 + 8 * k;
        assert_eq!(
            &bytes[offset..offset + 8],
            &field.to_be_bytes(),
            "field {} at offset {}",
            k,
            offset
        );
    }
    assert_eq!(bytes[81], 0, "hand byte for Left");
}

#[test]
fn encode_marks_right_hand_with_one() {
    let message = DsMessage::Sixense(sample([0.0; 10]), Hand::Right);
    let bytes = message.encode();
    assert_eq!(bytes.len(), 82);
    assert_eq!(bytes[81], 1);
}

#[test]
fn decode_valid_gyro_datagram() {
    let mut datagram = vec![0u8];
    datagram.extend_from_slice(&3.14f64.to_be_bytes());
    let decoded = RobotMessage::decode(&datagram);
    assert_eq!(decoded, Some(RobotMessage::Gyro(3.14f64.to_bits())));
}

#[test]
fn decode_ignores_trailing_bytes() {
    let mut datagram = vec![0u8];
    datagram.extend_from_slice(&(-7.5f64).to_be_bytes());
    datagram.extend_from_slice(&[0xAB, 0xCD, 0xEF]);
    let decoded = RobotMessage::decode(&datagram);
    assert_eq!(decoded, Some(RobotMessage::Gyro((-7.5f64).to_bits())));
}

#[test]
fn decode_rejects_short_buffers() {
    assert_eq!(RobotMessage::decode(&[]), None);
    let full: Vec<u8> = {
        let mut v = vec![0u8];
        v.extend_from_slice(&1.25f64.to_be_bytes());
        v
    };
    for len in 0..9 {
        assert_eq!(RobotMessage::decode(&full[..len]), None, "length {}", len);
    }
}

#[test]
fn decode_rejects_unknown_tags() {
    assert_eq!(RobotMessage::decode(&[5]), None);
    let mut datagram = vec![1u8];
    datagram.extend_from_slice(&3.14f64.to_be_bytes());
    assert_eq!(RobotMessage::decode(&datagram), None);
    let mut long = vec![0xFFu8];
    long.extend_from_slice(&[0u8; 64]);
    assert_eq!(RobotMessage::decode(&long), None);
}

#[test]
fn decode_recovers_gyro_bit_for_bit() {
    let patterns: [u64; 6] = [
        0,
        u64::MAX,
        (-0.0f64).to_bits(),
        f64::NAN.to_bits(),
        f64::INFINITY.to_bits(),
        1.000000000000002f64.to_bits(),
    ];
    for bits in patterns {
        let mut datagram = vec![0u8];
        datagram.extend_from_slice(&bits.to_be_bytes());
        assert_eq!(RobotMessage::decode(&datagram), Some(RobotMessage::Gyro(bits)));
    }
}
