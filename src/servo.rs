use vstd::prelude::*;

use crate::feed::Feed;

verus! {

/// Where the persistence loop stands.
pub enum ServoState {
    /// Waiting for the next entry from the delivery channel.
    Waiting,
    /// Writing the entry with this id to the store.
    Writing { id: String },
    /// The channel is closed: no entry will come.
    Stopped,
}

/// What happened since the last action.
pub enum ServoEvent {
    /// An entry came from the channel.
    Received(Feed),
    /// The channel closed.
    Closed,
    /// The store took the entry.
    Stored,
    /// The store refused the entry, for this reason.
    StoreFailed(String),
}

/// What the loop does next.
pub enum ServoAction {
    /// Write this entry to the store.
    Insert(Feed),
    /// Wait for the next entry.
    Receive,
    /// Report that the entry with this id was not stored, give it up, and wait
    /// for the next entry.
    Discard { id: String, error: String },
    /// End the loop.
    Stop,
}

/// The events that can follow a state.
pub open spec fn expects(state: ServoState, event: ServoEvent) -> bool {
    match state {
        ServoState::Waiting => event is Received || event is Closed,
        ServoState::Writing { .. } => event is Stored || event is StoreFailed,
        ServoState::Stopped => false,
    }
}

/// One step of the persistence loop: each entry is written once, in the order
/// received; a failed write is reported and the entry given up, and the loop
/// goes on with the next one.
pub fn servo_step(state: ServoState, event: ServoEvent) -> (r: (ServoState, ServoAction))
    requires
        expects(state, event),
    ensures
        match (state, event) {
            (ServoState::Waiting, ServoEvent::Received(f)) => r.0 == (ServoState::Writing {
                id: f.id,
            }) && r.1 == ServoAction::Insert(f),
            (ServoState::Waiting, ServoEvent::Closed) => r.0 == ServoState::Stopped && r.1
                == ServoAction::Stop,
            (ServoState::Writing { .. }, ServoEvent::Stored) => r.0 == ServoState::Waiting
                && r.1 == ServoAction::Receive,
            (ServoState::Writing { id }, ServoEvent::StoreFailed(e)) => r.0
                == ServoState::Waiting && r.1 == (ServoAction::Discard { id, error: e }),
            _ => false,
        },
{
    match (state, event) {
        (ServoState::Waiting, ServoEvent::Received(f)) => {
            let id = f.id.clone();
            (ServoState::Writing { id }, ServoAction::Insert(f))
        },
        (ServoState::Waiting, ServoEvent::Closed) => (ServoState::Stopped, ServoAction::Stop),
        (ServoState::Writing { .. }, ServoEvent::Stored) => (ServoState::Waiting, ServoAction::Receive),
        (ServoState::Writing { id }, ServoEvent::StoreFailed(e)) => (
            ServoState::Waiting,
            ServoAction::Discard { id, error: e },
        ),
        (_, _) => (ServoState::Stopped, ServoAction::Stop),
    }
}

} // verus!
