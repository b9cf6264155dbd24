//! The per-connection classifier: the first frame of a socket decides its
//! role, and the role decides what each later frame does to the registry.
use vstd::prelude::*;
use vstd::slice::slice_to_vec;
use crate::control::{ControllerId, ListenerId};
use crate::msg::{
    ControllerMessage, DecodeError, WsMessage, parse_controller_message, parse_ws_message,
};
use crate::serve::SpjortState;

verus! {

/// The role of a connection.
#[derive(Debug, Clone, Copy, PartialEq, Eq, Structural)]
pub enum WsConnectionType {
    /// The source of events for a controller id.
    Controller(ControllerId),
    /// A receiver of the broadcasts of a controller id.
    Listener(ControllerId),
    /// No handshake yet.
    Unresolved,
}

/// A frame that ends the connection.
#[derive(Debug, Clone, Copy, PartialEq, Eq, Structural)]
pub enum ProtocolError {
    /// The frame does not decode in the family its role expects.
    Malformed(DecodeError),
    /// A listener sent a frame; listeners only listen.
    ListenerSentFrame,
}

/// What a frame led to, and what the transport still has to do.
#[derive(Debug, Clone, PartialEq, Eq)]
pub enum Action {
    /// The connection registered as this controller.
    Registered(ControllerId),
    /// The connection became a listener of `controller`; `found` says whether
    /// that controller was live and so took the listener.
    Attached { controller: ControllerId, found: bool },
    /// The controller asked to be listed as pairable.
    PairingRequested(ControllerId),
    /// The transport writes `frame` to each of `targets`, then reports the
    /// failed ones through `SpjortState::drop_failed`.
    Broadcast { controller: ControllerId, targets: Vec<ListenerId>, frame: Vec<u8> },
}

/// Handles one binary frame of a connection whose role is `controller_type`
/// and whose own listener handle is `listener`.
pub fn handle_ws_binary(
    buf: &[u8],
    controller_type: &mut WsConnectionType,
    state: &mut SpjortState,
    listener: ListenerId,
) -> (r: Result<Action, ProtocolError>)
    requires
        old(state).wf(),
    ensures
        final(state).wf(),
        match *old(controller_type) {
            WsConnectionType::Unresolved => match parse_ws_message(buf@) {
                Ok(WsMessage::Controller(id)) => {
                    &&& *final(controller_type) == WsConnectionType::Controller(id)
                    &&& final(state)@ == old(state)@.register(id, Seq::empty())
                    &&& r == Ok::<Action, ProtocolError>(Action::Registered(id))
                },
                Ok(WsMessage::Establish(id)) => {
                    &&& *final(controller_type) == WsConnectionType::Listener(id)
                    &&& final(state)@ == old(state)@.attach(id, listener)
                    &&& r == Ok::<Action, ProtocolError>(
                        Action::Attached { controller: id, found: old(state)@.controllers.contains_key(id) },
                    )
                },
                Err(e) => {
                    &&& *final(controller_type) == *old(controller_type)
                    &&& final(state)@ == old(state)@
                    &&& r == Err::<Action, ProtocolError>(ProtocolError::Malformed(e))
                },
            },
            WsConnectionType::Controller(id) => {
                &&& *final(controller_type) == *old(controller_type)
                &&& match parse_controller_message(buf@) {
                    Ok(ControllerMessage::PairingIntent) => {
                        &&& final(state)@ == old(state)@.mark_pairing(id)
                        &&& r == Ok::<Action, ProtocolError>(Action::PairingRequested(id))
                    },
                    Ok(_) => {
                        &&& final(state)@ == old(state)@
                        &&& match r {
                            Ok(Action::Broadcast { controller, targets, frame }) => {
                                &&& controller == id
                                &&& targets@ == old(state)@.listeners_of(id)
                                &&& frame@ == buf@
                            },
                            _ => false,
                        }
                    },
                    Err(e) => {
                        &&& final(state)@ == old(state)@
                        &&& r == Err::<Action, ProtocolError>(ProtocolError::Malformed(e))
                    },
                }
            },
            WsConnectionType::Listener(_) => {
                &&& *final(controller_type) == *old(controller_type)
                &&& final(state)@ == old(state)@
                &&& r == Err::<Action, ProtocolError>(ProtocolError::ListenerSentFrame)
            },
        },
{
    match *controller_type {
        WsConnectionType::Controller(id) => match ControllerMessage::from_bytes(buf) {
            Ok(ControllerMessage::PairingIntent) => {
                state.set_pairing_id(id);
                Ok(Action::PairingRequested(id))
            },
            Ok(_) => {
                let targets = state.broadcast_targets(id);
                let frame = slice_to_vec(buf);
                Ok(Action::Broadcast { controller: id, targets, frame })
            },
            Err(e) => Err(ProtocolError::Malformed(e)),
        },
        WsConnectionType::Unresolved => match WsMessage::from_bytes(buf) {
            Ok(WsMessage::Controller(id)) => {
                state.connect(crate::control::Controller::new(id));
                *controller_type = WsConnectionType::Controller(id);
                Ok(Action::Registered(id))
            },
            Ok(WsMessage::Establish(id)) => {
                let found = state.attach_listener(id, listener);
                *controller_type = WsConnectionType::Listener(id);
                Ok(Action::Attached { controller: id, found })
            },
            Err(e) => Err(ProtocolError::Malformed(e)),
        },
        WsConnectionType::Listener(_) => Err(ProtocolError::ListenerSentFrame),
    }
}

} // verus!
