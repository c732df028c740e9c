//! The life of one connection.
//!
//! A session is driven from outside: whoever owns the transport reports
//! what happened as a [`SessionEvent`], and [`step`] answers with the next
//! state and with what to do. The session itself touches neither the
//! transport nor the registry.
//!
//! ```text
//! Connecting --Upgraded--> Active --a loop ends, or Disconnected--> Closing --Released--> Closed
//! ```

use crate::channel::Endpoint;
use crate::identity::successor;
use crate::identity::IdAllocator;
use crate::payload::Payload;
use crate::registry::Registry;
use vstd::prelude::*;

verus! {

/// Where a session stands.
#[derive(Clone, Copy, Debug, PartialEq, Eq, Structural)]
pub enum SessionState {
    /// The transport handshake is under way; the session has no identity
    /// yet.
    Connecting,
    /// The session is registered, and both of its loops run.
    Active,
    /// Inbound frames are no longer accepted.
    Closing,
    /// The end: the session's resources are released.
    Closed,
}

/// What happened to a session.
#[derive(Clone, Debug, PartialEq, Eq)]
pub enum SessionEvent {
    /// The transport handshake has completed.
    Upgraded,
    /// The inbound loop has read a frame.
    FrameRead(Payload),
    /// The inbound loop has ended, on a read error or at the end of the
    /// stream.
    ReadEnded,
    /// The outbound loop has taken a payload off the delivery queue.
    Dequeued(Payload),
    /// The outbound loop could not write to the transport, and has ended.
    WriteFailed,
    /// The delivery queue is closed and empty: the outbound loop has ended.
    QueueClosed,
    /// The session's identity was taken out of the registry from outside.
    Disconnected,
    /// Both loops have ended and the session's resources are released.
    Released,
}

/// What the owner of the transport is to do next.
#[derive(Clone, Debug, PartialEq, Eq)]
pub enum SessionAction {
    /// Obtain an identity, create the delivery endpoint and register it.
    Register,
    /// Enrich the frame and broadcast it.
    Relay(Payload),
    /// Write the payload to the transport.
    Write(Payload),
    /// Take the session's identity out of the registry.
    Unregister,
    /// Nothing.
    Nothing,
}

/// How far a state is along the way from `Connecting` to `Closed`.
pub open spec fn rank(state: SessionState) -> nat {
    match state {
        SessionState::Connecting => 0,
        SessionState::Active => 1,
        SessionState::Closing => 2,
        SessionState::Closed => 3,
    }
}

/// The state that follows `state` on `event`, and the action that the event
/// calls for. An event that means nothing in a state changes nothing and
/// calls for nothing.
pub open spec fn transition(state: SessionState, event: SessionEvent) -> (
    SessionState,
    SessionAction,
) {
    match state {
        SessionState::Connecting => match event {
            SessionEvent::Upgraded => (SessionState::Active, SessionAction::Register),
            _ => (SessionState::Connecting, SessionAction::Nothing),
        },
        SessionState::Active => match event {
            SessionEvent::FrameRead(frame) => (SessionState::Active, SessionAction::Relay(frame)),
            SessionEvent::Dequeued(payload) => (SessionState::Active, SessionAction::Write(payload)),
            SessionEvent::ReadEnded => (SessionState::Closing, SessionAction::Unregister),
            SessionEvent::WriteFailed => (SessionState::Closing, SessionAction::Unregister),
            SessionEvent::QueueClosed => (SessionState::Closing, SessionAction::Unregister),
            SessionEvent::Disconnected => (SessionState::Closing, SessionAction::Nothing),
            _ => (SessionState::Active, SessionAction::Nothing),
        },
        SessionState::Closing => match event {
            SessionEvent::Dequeued(payload) => (
                SessionState::Closing,
                SessionAction::Write(payload),
            ),
            SessionEvent::Released => (SessionState::Closed, SessionAction::Nothing),
            _ => (SessionState::Closing, SessionAction::Nothing),
        },
        SessionState::Closed => (SessionState::Closed, SessionAction::Nothing),
    }
}

/// Takes a session one step: the state after `event`, and what to do.
///
/// While `Active`, a frame that was read is to be relayed and a payload that
/// was dequeued is to be written. The end of either loop leads to `Closing`
/// and calls for the removal from the registry; a disconnect from outside
/// leads there too, with the removal already done. While `Closing`, frames
/// that are read are ignored, and what is still queued is written out.
/// `Closed` is left by no event.
pub fn step(state: SessionState, event: SessionEvent) -> (next: (SessionState, SessionAction))
    ensures
        next == transition(state, event),
        rank(state) <= rank(next.0),
        state == SessionState::Closed ==> next == (SessionState::Closed, SessionAction::Nothing),
        next.1 is Relay ==> state == SessionState::Active,
        next.1 is Register ==> state == SessionState::Connecting && next.0 == SessionState::Active,
{
    match state {
        SessionState::Connecting => match event {
            SessionEvent::Upgraded => (SessionState::Active, SessionAction::Register),
            _ => (SessionState::Connecting, SessionAction::Nothing),
        },
        SessionState::Active => match event {
            SessionEvent::FrameRead(frame) => (SessionState::Active, SessionAction::Relay(frame)),
            SessionEvent::Dequeued(payload) => (SessionState::Active, SessionAction::Write(payload)),
            SessionEvent::ReadEnded => (SessionState::Closing, SessionAction::Unregister),
            SessionEvent::WriteFailed => (SessionState::Closing, SessionAction::Unregister),
            SessionEvent::QueueClosed => (SessionState::Closing, SessionAction::Unregister),
            SessionEvent::Disconnected => (SessionState::Closing, SessionAction::Nothing),
            _ => (SessionState::Active, SessionAction::Nothing),
        },
        SessionState::Closing => match event {
            SessionEvent::Dequeued(payload) => (
                SessionState::Closing,
                SessionAction::Write(payload),
            ),
            SessionEvent::Released => (SessionState::Closed, SessionAction::Nothing),
            _ => (SessionState::Closing, SessionAction::Nothing),
        },
        SessionState::Closed => (SessionState::Closed, SessionAction::Nothing),
    }
}

/// The state that a session is in after a run of events.
pub open spec fn state_after(state: SessionState, events: Seq<SessionEvent>) -> SessionState
    decreases events.len(),
{
    if events.len() == 0 {
        state
    } else {
        state_after(transition(state, events[0]).0, events.drop_first())
    }
}

/// A session never goes back: whatever the events, the state after them is
/// at least as far along as the state before. In particular nothing leads
/// out of `Closed`.
pub proof fn sessions_only_advance(state: SessionState, events: Seq<SessionEvent>)
    ensures
        rank(state) <= rank(state_after(state, events)),
        state == SessionState::Closed ==> state_after(state, events) == SessionState::Closed,
    decreases events.len(),
{
    if events.len() > 0 {
        sessions_only_advance(transition(state, events[0]).0, events.drop_first());
    }
}

/// Whether every registered identity is below `bound`.
pub open spec fn ids_below(users: Map<usize, Endpoint>, bound: usize) -> bool {
    forall|id: usize| users.contains_key(id) ==> id < bound
}

/// Brings a connection into the hub: obtains its identity and registers
/// its endpoint under it.
///
/// As long as every registered identity is below the upcoming one, the
/// identity obtained is new to the registry, and the same holds again
/// afterwards unless the counter has wrapped.
pub fn connect(ids: &mut IdAllocator, users: &mut Registry, endpoint: Endpoint) -> (id: usize)
    ensures
        id == old(ids).upcoming(),
        final(ids).upcoming() == successor(id),
        final(users)@ == old(users)@.insert(id, endpoint),
        ids_below(old(users)@, id) ==> !old(users)@.contains_key(id),
        ids_below(old(users)@, id) && id < usize::MAX ==> ids_below(
            final(users)@,
            final(ids).upcoming(),
        ),
{
    let id = ids.next();
    users.register(id, endpoint);
    id
}

/// Taking an identity out of the registry keeps every remaining identity
/// below the bound that held before.
pub proof fn removal_keeps_ids_below(users: Map<usize, Endpoint>, bound: usize, id: usize)
    requires
        ids_below(users, bound),
    ensures
        ids_below(users.remove(id), bound),
{
}

} // verus!
