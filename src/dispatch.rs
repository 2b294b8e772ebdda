//! The decisions of the loop that reads the recorded stream: what to do with
//! each unit it receives, and in which state it leaves the loop.
use vstd::prelude::*;
use crate::wire::ByteOrder;
use crate::decoder::{Decoded, decode, decode_buffer};

verus! {

/// Category of a unit that carries data the server sent to a recorded client.
pub const FROM_SERVER: u8 = 0;

/// Category of the unit that opens the recorded stream.
pub const START_OF_DATA: u8 = 4;

#[derive(Clone, Copy, Debug, PartialEq, Eq, Structural)]
pub enum LoopState {
    /// No unit has arrived yet; the first should open the stream.
    AwaitingStart,
    Streaming,
    /// The transport has ended; nothing more is read.
    Stopped,
}

/// What the loop received from the transport.
#[derive(Clone, Copy, Debug, PartialEq, Eq, Structural)]
pub enum Input {
    Unit { client_swapped: bool, category: u8 },
    /// The transport ended or failed.
    Closed,
}

/// What the loop does with what it received.
#[derive(Clone, Copy, Debug, PartialEq, Eq, Structural)]
pub enum Action {
    /// Hand the unit's data to the frame decoder.
    Decode,
    /// The recorded client's byte order differs from ours: discard the unit.
    DiscardSwapped,
    /// Note that the stream has opened.
    StreamStarted,
    /// A unit of a category this library does not read: note and ignore it.
    IgnoreCategory,
    /// Leave the loop.
    Stop,
}

/// The outcome of one step of the loop.
#[derive(Clone, Copy, Debug, PartialEq, Eq, Structural)]
pub struct Transition {
    pub next: LoopState,
    pub action: Action,
    /// The first unit of the stream was not the one that opens it.
    pub unexpected_first: bool,
}

pub open spec fn action_of(client_swapped: bool, category: u8) -> Action {
    if client_swapped {
        Action::DiscardSwapped
    } else if category == FROM_SERVER {
        Action::Decode
    } else if category == START_OF_DATA {
        Action::StreamStarted
    } else {
        Action::IgnoreCategory
    }
}

pub open spec fn transition_of(state: LoopState, input: Input) -> Transition {
    match (state, input) {
        (LoopState::Stopped, _) => Transition {
            next: LoopState::Stopped,
            action: Action::Stop,
            unexpected_first: false,
        },
        (_, Input::Closed) => Transition {
            next: LoopState::Stopped,
            action: Action::Stop,
            unexpected_first: false,
        },
        (_, Input::Unit { client_swapped, category }) => Transition {
            next: LoopState::Streaming,
            action: action_of(client_swapped, category),
            unexpected_first: state == LoopState::AwaitingStart && category != START_OF_DATA,
        },
    }
}

/// Decides what to do with `input` in `state`. A unit from a byte-swapped
/// client is never decoded, and the loop goes on after it; only the end of
/// the transport stops the loop, for good.
pub fn step(state: LoopState, input: Input) -> (r: Transition)
    ensures
        r == transition_of(state, input),
        input matches Input::Unit { client_swapped, .. } ==> (client_swapped ==> r.action
            != Action::Decode),
        (state != LoopState::Stopped && input is Unit) ==> r.next == LoopState::Streaming,
        (r.next == LoopState::Stopped) <==> (state == LoopState::Stopped || input is Closed),
{
    match state {
        LoopState::Stopped => Transition {
            next: LoopState::Stopped,
            action: Action::Stop,
            unexpected_first: false,
        },
        _ => match input {
            Input::Closed => Transition {
                next: LoopState::Stopped,
                action: Action::Stop,
                unexpected_first: false,
            },
            Input::Unit { client_swapped, category } => {
                let action = if client_swapped {
                    Action::DiscardSwapped
                } else if category == FROM_SERVER {
                    Action::Decode
                } else if category == START_OF_DATA {
                    Action::StreamStarted
                } else {
                    Action::IgnoreCategory
                };
                Transition {
                    next: LoopState::Streaming,
                    action,
                    unexpected_first: state == LoopState::AwaitingStart && category
                        != START_OF_DATA,
                }
            },
        },
    }
}

/// What became of one unit received in some state.
#[derive(Debug)]
pub struct UnitOutcome {
    pub transition: Transition,
    /// What the frame decoder made of the unit, where it was decoded at all.
    pub decoded: Option<Decoded>,
}

/// Takes one unit of the recorded stream: steps the loop, and decodes the
/// unit's data exactly where the step says so. A unit from a byte-swapped
/// client never reaches the decoder.
pub fn receive_unit(
    state: LoopState,
    client_swapped: bool,
    category: u8,
    data: &[u8],
    order: ByteOrder,
) -> (r: UnitOutcome)
    ensures
        r.transition == transition_of(state, Input::Unit { client_swapped, category }),
        r.decoded is Some <==> r.transition.action == Action::Decode,
        client_swapped ==> r.decoded is None,
        r.decoded matches Some(d) ==> (d.events@ == decode(data@, order).0 && d.truncated
            == decode(data@, order).1),
{
    let transition = step(state, Input::Unit { client_swapped, category });
    let decoded = match transition.action {
        Action::Decode => Some(decode_buffer(data, order)),
        _ => None,
    };
    UnitOutcome { transition, decoded }
}

} // verus!
