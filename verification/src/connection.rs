//! One connection of a capture client.

use crate::error::CaptureError;
use crate::state::{message_payload, ActionView, CaptureAction, ExternalState, StateView};
use crate::wire::{MessageView, WireMessage};
use vstd::prelude::*;

verus! {

/// The limits of a WebSocket connection, in bytes.
#[derive(Debug, Clone, Copy, PartialEq, Eq, Structural)]
pub struct WebSocketLimits {
    pub max_message_size: Option<usize>,
    pub max_frame_size: Option<usize>,
}

/// The limits of a connection whose messages have at most `max_message_bytes`.
pub fn websocket_limits(max_message_bytes: usize) -> (limits: WebSocketLimits)
    ensures
        limits.max_message_size == Some(max_message_bytes),
        limits.max_frame_size == Some(max_message_bytes),
{
    WebSocketLimits {
        max_message_size: Some(max_message_bytes),
        max_frame_size: Some(max_message_bytes),
    }
}

/// What happens on a connection.
#[derive(Debug)]
pub enum SocketEvent {
    /// The client was not let in, or the handshake with it failed.
    UpgradeFailed,
    /// The program shuts down.
    ShutdownRequested,
    /// The stream of messages is at its end.
    Ended,
    /// The socket could not be read.
    ReadFailed,
    /// A text message that is a message of the protocol.
    Message(WireMessage),
    /// A text message that is not.
    InvalidText,
    /// The client closes the connection.
    Close,
    Ping,
    Pong,
    Binary,
    RawFrame,
}

/// The contents of a [`SocketEvent`].
#[verifier::ext_equal]
pub enum EventView {
    UpgradeFailed,
    ShutdownRequested,
    Ended,
    ReadFailed,
    Message(MessageView),
    InvalidText,
    Close,
    Ping,
    Pong,
    Binary,
    RawFrame,
}

impl View for SocketEvent {
    type V = EventView;

    open spec fn view(&self) -> EventView {
        match *self {
            SocketEvent::UpgradeFailed => EventView::UpgradeFailed,
            SocketEvent::ShutdownRequested => EventView::ShutdownRequested,
            SocketEvent::Ended => EventView::Ended,
            SocketEvent::ReadFailed => EventView::ReadFailed,
            SocketEvent::Message(message) => EventView::Message(message@),
            SocketEvent::InvalidText => EventView::InvalidText,
            SocketEvent::Close => EventView::Close,
            SocketEvent::Ping => EventView::Ping,
            SocketEvent::Pong => EventView::Pong,
            SocketEvent::Binary => EventView::Binary,
            SocketEvent::RawFrame => EventView::RawFrame,
        }
    }
}

/// What is done next on a connection.
#[derive(Debug)]
pub enum ConnectionStep {
    /// Read on.
    Read,
    /// Perform the action, and read on.
    Perform(CaptureAction),
    /// The connection is over, with this result.
    Finish(Result<(), CaptureError>),
}

/// The contents of a [`ConnectionStep`].
#[verifier::ext_equal]
pub enum StepView {
    Read,
    Perform(ActionView),
    Finish(Result<(), CaptureError>),
}

impl View for ConnectionStep {
    type V = StepView;

    open spec fn view(&self) -> StepView {
        match *self {
            ConnectionStep::Read => StepView::Read,
            ConnectionStep::Perform(action) => StepView::Perform(action@),
            ConnectionStep::Finish(result) => StepView::Finish(result),
        }
    }
}

/// What a connection does about a message that came to `outcome`.
pub open spec fn message_reaction(outcome: Result<ActionView, CaptureError>) -> StepView {
    match outcome {
        Ok(action) => StepView::Perform(action),
        Err(error) => StepView::Finish(Err(error)),
    }
}

/// The reaction to an event. Only text messages of the protocol are acted on; the first
/// refused one ends the connection.
pub open spec fn reaction(state: StateView, event: EventView) -> StepView {
    match event {
        EventView::ShutdownRequested | EventView::Ended | EventView::Close => StepView::Finish(
            Ok(()),
        ),
        EventView::UpgradeFailed => StepView::Finish(Err(CaptureError::UpgradeFailed)),
        EventView::ReadFailed => StepView::Finish(Err(CaptureError::ReadFailed)),
        EventView::InvalidText => StepView::Finish(Err(CaptureError::InvalidJson)),
        EventView::Ping | EventView::Pong => StepView::Read,
        EventView::Binary => StepView::Finish(Err(CaptureError::BinaryMessage)),
        EventView::RawFrame => StepView::Finish(Err(CaptureError::RawFrame)),
        EventView::Message(message) => message_reaction(
            state.outcome(message, message_payload(message)),
        ),
    }
}

/// The state after an event: only a message changes it.
pub open spec fn state_after(state: StateView, event: EventView) -> StateView {
    match event {
        EventView::Message(message) => state.next(message, message_payload(message)),
        _ => state,
    }
}

/// Decides what is done next on a connection.
pub fn connection_step(state: &mut ExternalState, event: SocketEvent) -> (step: ConnectionStep)
    ensures
        step@ == reaction(old(state)@, event@),
        final(state)@ == state_after(old(state)@, event@),
        step is Read <==> event is Ping || event is Pong,
        step is Perform ==> event is Message,
        event matches SocketEvent::Message(message) ==> match old(state)@.outcome(
            message@,
            message_payload(message@),
        ) {
            Ok(action) => step matches ConnectionStep::Perform(performed) && performed@ == action,
            Err(error) => step matches ConnectionStep::Finish(Err(reported)) && reported == error,
        },
        old(state)@.well_formed() ==> final(state)@.well_formed(),
{
    match event {
        SocketEvent::UpgradeFailed => ConnectionStep::Finish(Err(CaptureError::UpgradeFailed)),
        SocketEvent::ShutdownRequested => ConnectionStep::Finish(Ok(())),
        SocketEvent::Ended => ConnectionStep::Finish(Ok(())),
        SocketEvent::ReadFailed => ConnectionStep::Finish(Err(CaptureError::ReadFailed)),
        SocketEvent::Message(message) => match state.process(message) {
            Ok(action) => ConnectionStep::Perform(action),
            Err(error) => ConnectionStep::Finish(Err(error)),
        },
        SocketEvent::InvalidText => ConnectionStep::Finish(Err(CaptureError::InvalidJson)),
        SocketEvent::Close => ConnectionStep::Finish(Ok(())),
        SocketEvent::Ping => ConnectionStep::Read,
        SocketEvent::Pong => ConnectionStep::Read,
        SocketEvent::Binary => ConnectionStep::Finish(Err(CaptureError::BinaryMessage)),
        SocketEvent::RawFrame => ConnectionStep::Finish(Err(CaptureError::RawFrame)),
    }
}

} // verus!
