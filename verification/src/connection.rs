//! Lifecycle of the realtime connection.
//!
//! The transport and its reconnection policy live outside this crate; what
//! is kept here is the state machine that interprets what the transport
//! reports, and the guarantees a caller may rely on when reading its state.

use crate::auth::Credentials;
use vstd::prelude::*;
use vstd::string::StringExecFns;

verus! {

/// Lifecycle stage of a realtime session.
#[derive(Clone, Copy, Debug, PartialEq, Eq, Structural)]
pub enum ConnectionState {
    /// The first handshake is in progress.
    Connecting,
    /// The session is established and delivers events.
    Connected,
    /// The transport dropped and the provider is trying to resume.
    Reconnecting,
    /// The transport is gone for good.
    Disconnected,
    /// The caller asked for teardown.
    Closed,
}

/// What can move a session from one stage to another.
#[derive(Clone, Copy, Debug, PartialEq, Eq, Structural)]
pub enum Trigger {
    /// The first handshake succeeded.
    HandshakeSucceeded,
    /// The transport dropped while connected.
    TransportDropped,
    /// A dropped session was resumed.
    ResumeSucceeded,
    /// The provider gave up reconnecting.
    RetriesExhausted,
    /// The caller asked for teardown.
    DisconnectRequested,
    /// The transport failed beyond recovery.
    TransportFailed,
}

impl ConnectionState {
    /// `Disconnected` and `Closed` are final: nothing leaves them.
    pub open spec fn spec_is_terminal(self) -> bool {
        self == ConnectionState::Disconnected || self == ConnectionState::Closed
    }

    /// Whether the stage is final.
    #[verifier::when_used_as_spec(spec_is_terminal)]
    pub fn is_terminal(self) -> (result: bool)
        ensures
            result == self.spec_is_terminal(),
    {
        match self {
            ConnectionState::Disconnected | ConnectionState::Closed => true,
            _ => false,
        }
    }
}

/// The stage that follows `state` when `trigger` arrives.
///
/// A trigger that does not apply to the current stage leaves it unchanged,
/// and a final stage absorbs every trigger.
pub open spec fn next_state(state: ConnectionState, trigger: Trigger) -> ConnectionState {
    if state.spec_is_terminal() {
        state
    } else {
        match trigger {
            Trigger::HandshakeSucceeded => if state == ConnectionState::Connecting {
                ConnectionState::Connected
            } else {
                state
            },
            Trigger::TransportDropped => if state == ConnectionState::Connected {
                ConnectionState::Reconnecting
            } else {
                state
            },
            Trigger::ResumeSucceeded => if state == ConnectionState::Reconnecting {
                ConnectionState::Connected
            } else {
                state
            },
            Trigger::RetriesExhausted => if state == ConnectionState::Reconnecting {
                ConnectionState::Disconnected
            } else {
                state
            },
            Trigger::DisconnectRequested => ConnectionState::Closed,
            Trigger::TransportFailed => ConnectionState::Disconnected,
        }
    }
}

/// The stage that is shown to the caller when the provider reports
/// `reported` while `current` is on display.
///
/// The provider is polled, so a report may skip stages; it is taken at its
/// word wherever the transitions allow a path to it. A final stage stays.
/// A provider that reports `Connecting` after the first handshake is
/// reconnecting, and is shown as such.
pub open spec fn observed_state(
    current: ConnectionState,
    reported: ConnectionState,
) -> ConnectionState {
    if current.spec_is_terminal() {
        current
    } else if reported == ConnectionState::Connecting {
        if current == ConnectionState::Connecting {
            ConnectionState::Connecting
        } else {
            ConnectionState::Reconnecting
        }
    } else {
        reported
    }
}

/// The stage reached from `state` after the triggers of `triggers` have
/// arrived in order.
pub open spec fn state_after(state: ConnectionState, triggers: Seq<Trigger>) -> ConnectionState
    decreases triggers.len(),
{
    if triggers.len() == 0 {
        state
    } else {
        next_state(state_after(state, triggers.drop_last()), triggers.last())
    }
}

/// Triggers that account for what [`observed_state`] shows: at most two,
/// since a poll can miss at most the stage between `Connecting` and
/// `Reconnecting`.
pub open spec fn explanation(current: ConnectionState, reported: ConnectionState) -> Seq<Trigger> {
    if current.spec_is_terminal() || observed_state(current, reported) == current {
        Seq::empty()
    } else {
        match observed_state(current, reported) {
            ConnectionState::Connecting => Seq::empty(),
            ConnectionState::Connected => if current == ConnectionState::Connecting {
                seq![Trigger::HandshakeSucceeded]
            } else {
                seq![Trigger::ResumeSucceeded]
            },
            ConnectionState::Reconnecting => if current == ConnectionState::Connecting {
                seq![Trigger::HandshakeSucceeded, Trigger::TransportDropped]
            } else {
                seq![Trigger::TransportDropped]
            },
            ConnectionState::Disconnected => seq![Trigger::TransportFailed],
            ConnectionState::Closed => seq![Trigger::DisconnectRequested],
        }
    }
}

/// An inbound realtime notification: what the service sent, and when it
/// arrived.
#[derive(Clone, Debug, PartialEq, Eq)]
pub struct Event {
    /// What the service sent, as it is shown to the user.
    pub payload: String,
    /// When it arrived, as `YYYY-MM-DD HH:MM:SS`.
    pub received_at: String,
}

/// The line under which an event is shown: its receipt time in brackets,
/// then its payload.
pub open spec fn event_line_text(received_at: Seq<char>, payload: Seq<char>) -> Seq<char> {
    "["@ + received_at + "] "@ + payload
}

impl Event {
    /// The line under which the event is shown.
    pub fn line(&self) -> (result: String)
        ensures
            result@ == event_line_text(self.received_at@, self.payload@),
    {
        String::from_str("[").concat(self.received_at.as_str()).concat("] ").concat(
            self.payload.as_str(),
        )
    }
}

/// The caller's window on a realtime session: it holds the stage the session
/// is in and moves it only along the transitions of [`next_state`].
#[derive(Debug)]
pub struct ConnectionMonitor {
    state: ConnectionState,
}

impl View for ConnectionMonitor {
    type V = ConnectionState;

    closed spec fn view(&self) -> ConnectionState {
        self.state
    }
}

impl ConnectionMonitor {
    /// A monitor for a session that has just been asked to connect. Only a
    /// caller that holds credentials can make one.
    pub fn new(credentials: &Credentials) -> (result: ConnectionMonitor)
        ensures
            result@ == ConnectionState::Connecting,
    {
        ConnectionMonitor { state: ConnectionState::Connecting }
    }

    /// The stage the session is in. Reading it changes nothing.
    pub fn state(&self) -> (result: ConnectionState)
        ensures
            result == self@,
    {
        self.state
    }

    /// Moves the session along the transition that `trigger` calls for, and
    /// returns the stage it is in afterwards. That stage is `Connecting` only
    /// if the session has never left it.
    pub fn apply(&mut self, trigger: Trigger) -> (result: ConnectionState)
        ensures
            final(self)@ == next_state(old(self)@, trigger),
            result == final(self)@,
            result == ConnectionState::Connecting ==> old(self)@ == ConnectionState::Connecting,
    {
        let state = self.state;
        let next = if state.is_terminal() {
            state
        } else {
            match trigger {
                Trigger::HandshakeSucceeded => match state {
                    ConnectionState::Connecting => ConnectionState::Connected,
                    _ => state,
                },
                Trigger::TransportDropped => match state {
                    ConnectionState::Connected => ConnectionState::Reconnecting,
                    _ => state,
                },
                Trigger::ResumeSucceeded => match state {
                    ConnectionState::Reconnecting => ConnectionState::Connected,
                    _ => state,
                },
                Trigger::RetriesExhausted => match state {
                    ConnectionState::Reconnecting => ConnectionState::Disconnected,
                    _ => state,
                },
                Trigger::DisconnectRequested => ConnectionState::Closed,
                Trigger::TransportFailed => ConnectionState::Disconnected,
            }
        };
        self.state = next;
        next
    }

    /// Takes in what the provider reports about the session, and returns the
    /// stage that is on display afterwards. That stage is `Connecting` only
    /// if the session has never left it.
    pub fn observe(&mut self, reported: ConnectionState) -> (result: ConnectionState)
        ensures
            final(self)@ == observed_state(old(self)@, reported),
            result == final(self)@,
            result == ConnectionState::Connecting ==> old(self)@ == ConnectionState::Connecting,
    {
        let current = self.state;
        let next = if current.is_terminal() {
            current
        } else {
            match reported {
                ConnectionState::Connecting => match current {
                    ConnectionState::Connecting => ConnectionState::Connecting,
                    _ => ConnectionState::Reconnecting,
                },
                _ => reported,
            }
        };
        self.state = next;
        next
    }

    /// Asks for teardown. A session that is still alive is `Closed`
    /// afterwards; one that has already ended stays as it is, so that asking
    /// again is harmless.
    pub fn disconnect(&mut self)
        ensures
            final(self)@ == next_state(old(self)@, Trigger::DisconnectRequested),
    {
        let _ = self.apply(Trigger::DisconnectRequested);
    }
}

/// No transition enters `Connecting`: a session is in that stage only
/// before its first handshake. In particular a connected session never
/// shows `Connecting` next, by a trigger or by a report of the provider.
pub proof fn law_connecting_is_never_reentered(
    state: ConnectionState,
    trigger: Trigger,
    reported: ConnectionState,
)
    ensures
        next_state(state, trigger) == ConnectionState::Connecting ==> state
            == ConnectionState::Connecting,
        observed_state(state, reported) == ConnectionState::Connecting ==> state
            == ConnectionState::Connecting,
        !(state == ConnectionState::Connected && next_state(state, trigger)
            == ConnectionState::Connecting),
        !(state == ConnectionState::Connected && observed_state(state, reported)
            == ConnectionState::Connecting),
{
}

/// A connected session that stops being connected is reconnecting or has
/// ended: the way back to `Connected` leads through `Reconnecting` only.
pub proof fn law_reconnection_shows_as_reconnecting(
    state: ConnectionState,
    first: Trigger,
    second: Trigger,
)
    requires
        state == ConnectionState::Connected,
        next_state(state, first) != ConnectionState::Connected,
    ensures
        next_state(state, first) == ConnectionState::Reconnecting || next_state(
            state,
            first,
        ).spec_is_terminal(),
        next_state(next_state(state, first), second) == ConnectionState::Connected ==> next_state(
            state,
            first,
        ) == ConnectionState::Reconnecting,
{
}

/// Over any run of triggers, once a session has left `Connecting` it never
/// shows it again.
pub proof fn law_runs_never_return_to_connecting(state: ConnectionState, triggers: Seq<Trigger>)
    requires
        state != ConnectionState::Connecting,
    ensures
        state_after(state, triggers) != ConnectionState::Connecting,
    decreases triggers.len(),
{
    if triggers.len() > 0 {
        law_runs_never_return_to_connecting(state, triggers.drop_last());
    }
}

/// `Disconnected` and `Closed` are final: no run of triggers and no report
/// of the provider leads out of them.
pub proof fn law_terminal_states_absorb(
    state: ConnectionState,
    triggers: Seq<Trigger>,
    reported: ConnectionState,
)
    requires
        state.spec_is_terminal(),
    ensures
        state_after(state, triggers) == state,
        observed_state(state, reported) == state,
    decreases triggers.len(),
{
    if triggers.len() > 0 {
        law_terminal_states_absorb(state, triggers.drop_last(), reported);
    }
}

/// Asking for teardown twice is the same as asking once, and teardown of a
/// session that is still alive closes it.
pub proof fn law_disconnect_is_idempotent(state: ConnectionState)
    ensures
        next_state(next_state(state, Trigger::DisconnectRequested), Trigger::DisconnectRequested)
            == next_state(state, Trigger::DisconnectRequested),
        !state.spec_is_terminal() ==> next_state(state, Trigger::DisconnectRequested)
            == ConnectionState::Closed,
        state == ConnectionState::Closed ==> next_state(state, Trigger::DisconnectRequested)
            == ConnectionState::Closed,
{
}

/// What the monitor shows after a report is always reachable by the
/// transitions: the triggers of [`explanation`], at most two, lead there.
pub proof fn law_reports_follow_transitions(current: ConnectionState, reported: ConnectionState)
    ensures
        explanation(current, reported).len() <= 2,
        state_after(current, explanation(current, reported)) == observed_state(current, reported),
{
    let triggers = explanation(current, reported);
    if triggers.len() == 1 {
        assert(triggers.drop_last() =~= Seq::<Trigger>::empty());
        assert(state_after(current, triggers.drop_last()) == current);
    } else if triggers.len() == 2 {
        let head = triggers.drop_last();
        assert(head =~= seq![Trigger::HandshakeSucceeded]);
        assert(head.drop_last() =~= Seq::<Trigger>::empty());
        assert(state_after(current, head.drop_last()) == current);
        assert(state_after(current, head) == next_state(current, Trigger::HandshakeSucceeded));
    }
}

} // verus!
