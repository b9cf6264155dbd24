use spjorts::msg::{ControllerMessage, DecodeError, WsMessage};
use spjorts::serve::SpjortState;
use spjorts::service::{handle_ws_binary, Action, ProtocolError, WsConnectionType};

#[test]
fn controller_event_reaches_attached_listener() {
    let mut state = SpjortState::new();
    let mut controller = WsConnectionType::Unresolved;
    let mut listener = WsConnectionType::Unresolved;

    let r = handle_ws_binary(&WsMessage::Controller(42).to_bytes(), &mut controller, &mut state, 1);
    assert_eq!(r, Ok(Action::Registered(42)));
    assert_eq!(controller, WsConnectionType::Controller(42));

    let r = handle_ws_binary(&WsMessage::Establish(42).to_bytes(), &mut listener, &mut state, 2);
    assert_eq!(r, Ok(Action::Attached { controller: 42, found: true }));
    assert_eq!(listener, WsConnectionType::Listener(42));

    let frame = ControllerMessage::ButtonPressA.to_bytes();
    let r = handle_ws_binary(&frame, &mut controller, &mut state, 1);
    assert_eq!(
        r,
        Ok(Action::Broadcast { controller: 42, targets: vec![2], frame: vec![0x02] })
    );
}

#[test]
fn listener_of_unknown_controller_stays_silent() {
    let mut state = SpjortState::new();
    let mut listener = WsConnectionType::Unresolved;
    let r = handle_ws_binary(&WsMessage::Establish(99).to_bytes(), &mut listener, &mut state, 5);
    assert_eq!(r, Ok(Action::Attached { controller: 99, found: false }));
    assert_eq!(listener, WsConnectionType::Listener(99));
    assert!(!state.is_connected(99));
    assert_eq!(state.broadcast_targets(99), Vec::<u64>::new());

    let mut controller = WsConnectionType::Unresolved;
    handle_ws_binary(&WsMessage::Controller(99).to_bytes(), &mut controller, &mut state, 6).unwrap();
    let r = handle_ws_binary(&[0x03], &mut controller, &mut state, 6);
    assert_eq!(r, Ok(Action::Broadcast { controller: 99, targets: vec![], frame: vec![0x03] }));
}

#[test]
fn pairing_intent_lists_controller_until_claimed() {
    let mut state = SpjortState::new();
    let mut controller = WsConnectionType::Unresolved;
    handle_ws_binary(&WsMessage::Controller(42).to_bytes(), &mut controller, &mut state, 1).unwrap();
    let r = handle_ws_binary(&[0x05], &mut controller, &mut state, 1);
    assert_eq!(r, Ok(Action::PairingRequested(42)));
    assert_eq!(controller, WsConnectionType::Controller(42));
    assert_eq!(state.get_pairing_devices(), vec![42]);
    assert!(state.connect_controller(42));
    assert_eq!(state.get_pairing_devices(), Vec::<u64>::new());
    assert!(!state.connect_controller(42));
}

#[test]
fn listener_frame_is_a_protocol_error() {
    let mut state = SpjortState::new();
    let mut listener = WsConnectionType::Listener(3);
    let r = handle_ws_binary(&[0x02], &mut listener, &mut state, 1);
    assert_eq!(r, Err(ProtocolError::ListenerSentFrame));
    assert_eq!(listener, WsConnectionType::Listener(3));
}

#[test]
fn malformed_frames_are_protocol_errors() {
    let mut state = SpjortState::new();
    let mut conn = WsConnectionType::Unresolved;
    let r = handle_ws_binary(&[0x07, 1, 2], &mut conn, &mut state, 1);
    assert_eq!(r, Err(ProtocolError::Malformed(DecodeError::UnknownTag(7))));
    assert_eq!(conn, WsConnectionType::Unresolved);
    let r = handle_ws_binary(&[], &mut conn, &mut state, 1);
    assert_eq!(r, Err(ProtocolError::Malformed(DecodeError::Empty)));

    let mut controller = WsConnectionType::Controller(8);
    let r = handle_ws_binary(&WsMessage::Controller(8).to_bytes(), &mut controller, &mut state, 1);
    assert_eq!(r, Err(ProtocolError::Malformed(DecodeError::WrongLength)));
    let r = handle_ws_binary(&[0x06], &mut controller, &mut state, 1);
    assert_eq!(r, Err(ProtocolError::Malformed(DecodeError::UnknownTag(6))));
}

#[test]
fn angle_frame_is_broadcast_verbatim() {
    let mut state = SpjortState::new();
    let mut controller = WsConnectionType::Unresolved;
    let mut listener = WsConnectionType::Unresolved;
    handle_ws_binary(&WsMessage::Controller(1).to_bytes(), &mut controller, &mut state, 1).unwrap();
    handle_ws_binary(&WsMessage::Establish(1).to_bytes(), &mut listener, &mut state, 2).unwrap();
    let frame = ControllerMessage::AngleInfo(0.5f32.to_bits(), 1.0f32.to_bits(), 2.0f32.to_bits())
        .to_bytes();
    let r = handle_ws_binary(&frame, &mut controller, &mut state, 1);
    assert_eq!(r, Ok(Action::Broadcast { controller: 1, targets: vec![2], frame: frame.clone() }));
}
