//! The server lifecycle: Starting, Listening, Draining, Stopped.
//!
//! The process owns the listening socket and the termination signal; the
//! decisions — accept or refuse a connection, keep draining, exit — are
//! made here, as a step function from state and event to next state and
//! action. The process performs the action and reports the next event.

use vstd::prelude::*;

verus! {

/// Exit status of a clean shutdown.
pub const EXIT_OK: u8 = 0;

/// Exit status when binding the listening socket failed.
pub const EXIT_BIND_FAILED: u8 = 1;

/// Where the server is in its life. `in_flight` counts the requests that
/// have been accepted and not yet finished.
#[derive(Clone, Copy, Debug, PartialEq, Eq, Structural)]
pub enum Lifecycle {
    /// Configuration parsed, socket not bound yet.
    Starting,
    /// Accepting connections.
    Listening { in_flight: u64 },
    /// A termination signal arrived: no new connections, in-flight
    /// requests run to completion.
    Draining { in_flight: u64 },
    /// The process exits with this status.
    Stopped { exit: u8 },
}

/// What the process observed.
#[derive(Clone, Copy, Debug, PartialEq, Eq, Structural)]
pub enum LifecycleEvent {
    /// The listening socket was bound.
    BoundOk,
    /// The listening socket could not be bound.
    BindFailed,
    /// A connection arrived.
    Connection,
    /// One in-flight request finished.
    RequestDone,
    /// A termination signal (interrupt or terminate) arrived.
    Signal,
}

/// What the process must do next.
#[derive(Clone, Copy, Debug, PartialEq, Eq, Structural)]
pub enum LifecycleAction {
    /// Accept the connection and dispatch its request concurrently.
    Accept,
    /// Refuse the connection.
    Refuse,
    /// Nothing beyond observing further events.
    Continue,
    /// Exit the process with the status carried by [`Lifecycle::Stopped`].
    Exit,
}

/// The number of requests in flight in a state.
pub open spec fn in_flight_of(s: Lifecycle) -> nat {
    match s {
        Lifecycle::Starting => 0,
        Lifecycle::Listening { in_flight } => in_flight as nat,
        Lifecycle::Draining { in_flight } => in_flight as nat,
        Lifecycle::Stopped { .. } => 0,
    }
}

/// The transition relation. Events that cannot occur in a state (a
/// connection before the socket exists, a completion with nothing in
/// flight) change nothing. A connection beyond the counter's capacity is
/// refused rather than miscounted.
pub open spec fn spec_step(s: Lifecycle, e: LifecycleEvent) -> (Lifecycle, LifecycleAction) {
    match s {
        Lifecycle::Starting => match e {
            LifecycleEvent::BoundOk => (Lifecycle::Listening { in_flight: 0 }, LifecycleAction::Continue),
            LifecycleEvent::BindFailed => (
                Lifecycle::Stopped { exit: EXIT_BIND_FAILED },
                LifecycleAction::Exit,
            ),
            _ => (s, LifecycleAction::Continue),
        },
        Lifecycle::Listening { in_flight } => match e {
            LifecycleEvent::Connection => if in_flight < u64::MAX {
                (
                    Lifecycle::Listening { in_flight: (in_flight + 1) as u64 },
                    LifecycleAction::Accept,
                )
            } else {
                (s, LifecycleAction::Refuse)
            },
            LifecycleEvent::RequestDone => if in_flight > 0 {
                (
                    Lifecycle::Listening { in_flight: (in_flight - 1) as u64 },
                    LifecycleAction::Continue,
                )
            } else {
                (s, LifecycleAction::Continue)
            },
            LifecycleEvent::Signal => if in_flight == 0 {
                (Lifecycle::Stopped { exit: EXIT_OK }, LifecycleAction::Exit)
            } else {
                (Lifecycle::Draining { in_flight }, LifecycleAction::Continue)
            },
            _ => (s, LifecycleAction::Continue),
        },
        Lifecycle::Draining { in_flight } => match e {
            LifecycleEvent::Connection => (s, LifecycleAction::Refuse),
            LifecycleEvent::RequestDone => if in_flight <= 1 {
                (Lifecycle::Stopped { exit: EXIT_OK }, LifecycleAction::Exit)
            } else {
                (
                    Lifecycle::Draining { in_flight: (in_flight - 1) as u64 },
                    LifecycleAction::Continue,
                )
            },
            _ => (s, LifecycleAction::Continue),
        },
        Lifecycle::Stopped { .. } => (s, LifecycleAction::Continue),
    }
}

/// Advances the lifecycle by one observed event.
pub fn step(s: Lifecycle, e: LifecycleEvent) -> (r: (Lifecycle, LifecycleAction))
    ensures
        r == spec_step(s, e),
{
    match s {
        Lifecycle::Starting => match e {
            LifecycleEvent::BoundOk => (
                Lifecycle::Listening { in_flight: 0 },
                LifecycleAction::Continue,
            ),
            LifecycleEvent::BindFailed => (
                Lifecycle::Stopped { exit: EXIT_BIND_FAILED },
                LifecycleAction::Exit,
            ),
            _ => (s, LifecycleAction::Continue),
        },
        Lifecycle::Listening { in_flight } => match e {
            LifecycleEvent::Connection => if in_flight < u64::MAX {
                (
                    Lifecycle::Listening { in_flight: in_flight + 1 },
                    LifecycleAction::Accept,
                )
            } else {
                (s, LifecycleAction::Refuse)
            },
            LifecycleEvent::RequestDone => if in_flight > 0 {
                (
                    Lifecycle::Listening { in_flight: in_flight - 1 },
                    LifecycleAction::Continue,
                )
            } else {
                (s, LifecycleAction::Continue)
            },
            LifecycleEvent::Signal => if in_flight == 0 {
                (Lifecycle::Stopped { exit: EXIT_OK }, LifecycleAction::Exit)
            } else {
                (Lifecycle::Draining { in_flight }, LifecycleAction::Continue)
            },
            _ => (s, LifecycleAction::Continue),
        },
        Lifecycle::Draining { in_flight } => match e {
            LifecycleEvent::Connection => (s, LifecycleAction::Refuse),
            LifecycleEvent::RequestDone => if in_flight <= 1 {
                (Lifecycle::Stopped { exit: EXIT_OK }, LifecycleAction::Exit)
            } else {
                (
                    Lifecycle::Draining { in_flight: in_flight - 1 },
                    LifecycleAction::Continue,
                )
            },
            _ => (s, LifecycleAction::Continue),
        },
        Lifecycle::Stopped { .. } => (s, LifecycleAction::Continue),
    }
}

/// Law: once draining, no connection is ever accepted, the in-flight
/// count never grows, and the server never listens again — it can only
/// keep draining or stop.
pub proof fn lemma_draining_accepts_nothing(s: Lifecycle, e: LifecycleEvent)
    requires
        s is Draining,
    ensures
        spec_step(s, e).1 != LifecycleAction::Accept,
        in_flight_of(spec_step(s, e).0) <= in_flight_of(s),
        spec_step(s, e).0 is Draining || spec_step(s, e).0 is Stopped,
{
}

/// Law: the process only stops cleanly when nothing is left in flight:
/// a clean stop is reached exactly by the last in-flight request
/// finishing during the drain, or by a signal with nothing in flight.
pub proof fn lemma_stop_only_after_drain(s: Lifecycle, e: LifecycleEvent)
    requires
        !(s is Stopped),
    ensures
        (spec_step(s, e).0 matches Lifecycle::Stopped { exit } && exit == EXIT_OK) ==> {
            &&& in_flight_of(spec_step(s, e).0) == 0
            &&& (s is Draining && e is RequestDone && in_flight_of(s) <= 1) || (s is Listening
                && e is Signal && in_flight_of(s) == 0)
        },
{
}

/// Law: while listening, finishing one request keeps the server
/// listening — a request that ran into its own deadline does not stop the
/// server from serving the next connection.
pub proof fn lemma_listening_continues(in_flight: u64, e: LifecycleEvent)
    requires
        e is RequestDone || e is Connection,
    ensures
        spec_step(Lifecycle::Listening { in_flight }, e).0 is Listening,
{
}

} // verus!
