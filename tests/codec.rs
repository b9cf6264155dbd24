use spjorts::msg::{ControllerMessage, DecodeError, WsMessage};

#[test]
fn establish_encodes_tag_and_little_endian_id() {
    let bytes = WsMessage::Establish(0x0102030405060708).to_bytes();
    assert_eq!(bytes, vec![0x01, 0x08, 0x07, 0x06, 0x05, 0x04, 0x03, 0x02, 0x01]);
}

#[test]
fn controller_encodes_tag_two() {
    let bytes = WsMessage::Controller(42).to_bytes();
    assert_eq!(bytes, vec![0x02, 42, 0, 0, 0, 0, 0, 0, 0]);
}

#[test]
fn handshake_round_trip() {
    for m in [
        WsMessage::Establish(0),
        WsMessage::Establish(u64::MAX),
        WsMessage::Controller(42),
        WsMessage::Controller(0xdead_beef_cafe_f00d),
    ] {
        assert_eq!(WsMessage::from_bytes(&m.to_bytes()), Ok(m));
    }
}

#[test]
fn event_round_trip() {
    let angles = ControllerMessage::AngleInfo(
        1.5f32.to_bits(),
        (-0.25f32).to_bits(),
        3.0f32.to_bits(),
    );
    for m in [
        ControllerMessage::Heartbeat,
        ControllerMessage::ButtonPressA,
        ControllerMessage::ButtonPressB,
        angles,
        ControllerMessage::PairingIntent,
    ] {
        assert_eq!(ControllerMessage::from_bytes(&m.to_bytes()), Ok(m));
    }
}

#[test]
fn angle_frame_layout() {
    let m = ControllerMessage::AngleInfo(1.0f32.to_bits(), 0, 0x11223344);
    let bytes = m.to_bytes();
    assert_eq!(bytes.len(), 13);
    assert_eq!(bytes[0], 0x04);
    assert_eq!(&bytes[1..5], &1.0f32.to_le_bytes());
    assert_eq!(&bytes[9..13], &[0x44, 0x33, 0x22, 0x11]);
    match ControllerMessage::from_bytes(&bytes) {
        Ok(ControllerMessage::AngleInfo(p, _, _)) => assert_eq!(f32::from_bits(p), 1.0),
        other => panic!("unexpected {:?}", other),
    }
}

#[test]
fn single_byte_events() {
    assert_eq!(ControllerMessage::ButtonPressA.to_bytes(), vec![0x02]);
    assert_eq!(ControllerMessage::ButtonPressB.to_bytes(), vec![0x03]);
    assert_eq!(ControllerMessage::Heartbeat.to_bytes(), vec![0x01]);
    assert_eq!(ControllerMessage::PairingIntent.to_bytes(), vec![0x05]);
}

#[test]
fn handshake_rejects_unknown_tags() {
    for tag in [0u8, 3, 4, 5, 0xff] {
        let mut frame = vec![tag];
        frame.extend_from_slice(&7u64.to_le_bytes());
        assert_eq!(WsMessage::from_bytes(&frame), Err(DecodeError::UnknownTag(tag)));
    }
}

#[test]
fn handshake_rejects_short_and_long_frames() {
    assert_eq!(WsMessage::from_bytes(&[]), Err(DecodeError::Empty));
    assert_eq!(WsMessage::from_bytes(&[0x01]), Err(DecodeError::WrongLength));
    assert_eq!(WsMessage::from_bytes(&[0x02, 1, 2, 3, 4, 5, 6, 7]), Err(DecodeError::WrongLength));
    assert_eq!(
        WsMessage::from_bytes(&[0x02, 1, 2, 3, 4, 5, 6, 7, 8, 9]),
        Err(DecodeError::WrongLength)
    );
}

#[test]
fn event_rejects_unknown_tags() {
    for tag in [0u8, 6, 0x10, 0xff] {
        assert_eq!(ControllerMessage::from_bytes(&[tag]), Err(DecodeError::UnknownTag(tag)));
    }
}

#[test]
fn event_rejects_truncated_payload() {
    assert_eq!(ControllerMessage::from_bytes(&[]), Err(DecodeError::Empty));
    assert_eq!(ControllerMessage::from_bytes(&[0x04]), Err(DecodeError::WrongLength));
    assert_eq!(
        ControllerMessage::from_bytes(&[0x04, 0, 0, 0, 0, 0, 0, 0, 0, 0, 0, 0]),
        Err(DecodeError::WrongLength)
    );
    assert_eq!(ControllerMessage::from_bytes(&[0x02, 0]), Err(DecodeError::WrongLength));
}
