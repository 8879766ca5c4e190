//! The per-connection handler: a state machine that forwards each newly
//! published chunk to one TCP client. It waits for a change, copies the
//! current payload out, writes it, and treats a write failure as the peer
//! having disconnected. Each handler is fully independent of every other.

use vstd::prelude::*;

verus! {

/// The states a connection handler moves through. `Disconnected` is
/// terminal: the task ends and its subscription is dropped.
#[derive(Clone, Copy, PartialEq, Eq, Structural, Debug)]
pub enum HandlerState {
    WaitingForData,
    Sending,
    Disconnected,
}

/// What the surrounding task reports to the state machine: the outcome of a
/// wait on the channel while waiting, or the outcome of a socket write while
/// sending.
pub enum HandlerEvent {
    NewData(Vec<u8>),
    ChannelClosed,
    WriteSucceeded,
    WriteFailed,
}

/// What the surrounding task must do next: write bytes to the socket, skip
/// an empty chunk and wait again, shut the socket down best-effort and stop,
/// or simply keep waiting for the next event.
pub enum HandlerAction {
    Write(Vec<u8>),
    IgnoreEmpty,
    Shutdown,
    Wait,
}

/// One step of the handler state machine: from the current state and the
/// event that ended its suspension to the next state and the action to
/// perform.
///
/// While waiting: a closed channel means a graceful disconnect; a new chunk
/// with payload is written; an empty chunk is ignored without touching the
/// socket. While sending: a successful write returns to waiting; a failed
/// write means the peer disconnected.
pub fn handler_step(state: HandlerState, event: HandlerEvent) -> (r: (HandlerState, HandlerAction))
    requires
        state is WaitingForData ==> (event is NewData || event is ChannelClosed),
        state is Sending ==> (event is WriteSucceeded || event is WriteFailed),
        !(state is Disconnected),
    ensures
        (match event {
            HandlerEvent::NewData(d) => if d@.len() > 0 {
                r.1 matches HandlerAction::Write(w) && w@ == d@ && r.0 is Sending
            } else {
                r.0 is WaitingForData && r.1 is IgnoreEmpty
            },
            HandlerEvent::ChannelClosed => r.0 is Disconnected && r.1 is Shutdown,
            HandlerEvent::WriteSucceeded => r.0 is WaitingForData && r.1 is Wait,
            HandlerEvent::WriteFailed => r.0 is Disconnected && r.1 is Shutdown,
        }),
{
    match event {
        HandlerEvent::NewData(d) => {
            if d.len() > 0 {
                (HandlerState::Sending, HandlerAction::Write(d))
            } else {
                (HandlerState::WaitingForData, HandlerAction::IgnoreEmpty)
            }
        },
        HandlerEvent::ChannelClosed => (HandlerState::Disconnected, HandlerAction::Shutdown),
        HandlerEvent::WriteSucceeded => (HandlerState::WaitingForData, HandlerAction::Wait),
        HandlerEvent::WriteFailed => (HandlerState::Disconnected, HandlerAction::Shutdown),
    }
}

} // verus!
