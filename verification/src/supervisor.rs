//! The acceptor loop and process supervisor: the one place that decides
//! whether connections are still accepted.
//!
//! Each turn of the loop handles exactly one event: a connection is ready,
//! the operator interrupted the process, or the shutdown signal was seen.
//! [`Supervisor::step`] takes the event and answers with what to do.

use crate::connection::{Connection, ConnectionPhase};
use crate::shutdown::{BroadcastState, Broadcaster};
use vstd::prelude::*;

verus! {

/// Where the acceptor loop is in its life.
#[derive(Debug, Clone, Copy, PartialEq, Eq, Structural)]
pub enum AcceptorPhase {
    /// The listener is bound and no connection has been accepted yet.
    Listening,
    /// At least one connection has been accepted, and more are welcome.
    Accepting,
    /// Shutdown was seen: new connections are refused while the listener is
    /// being closed.
    Draining,
    /// The loop has ended.
    Stopped,
}

/// What the runtime of the acceptor loop reports.
#[derive(Debug, Clone, Copy, PartialEq, Eq, Structural)]
pub enum SupervisorEvent {
    /// The listener has accepted a connection.
    ConnectionReady,
    /// Accepting a connection failed. A fatal failure is one after which the
    /// listener cannot go on.
    AcceptFailed { fatal: bool },
    /// The operating system delivered an interrupt.
    Interrupt,
    /// The loop was woken by the shutdown signal.
    ShutdownSignaled,
    /// The listener has been closed.
    ListenerClosed,
}

/// What the loop does in answer to an event.
#[derive(Debug, Clone, Copy, PartialEq, Eq, Structural)]
pub enum Decision {
    /// Hand the accepted connection to a new handler.
    Spawn,
    /// Drop the accepted connection.
    Refuse,
    /// Nothing to do; wait for the next event.
    Continue,
    /// Stop accepting and close the listener.
    StopAccepting,
    /// Leave the loop; shutdown is complete as far as the acceptor goes.
    Exit,
    /// Leave the loop because the listener failed for good.
    Abort,
}

/// A [`Decision`] together with the connection that a spawned handler gets.
#[derive(Debug)]
pub enum SupervisorAction {
    /// Run a handler for this connection.
    Spawn(Connection),
    /// Drop the accepted connection.
    Refuse,
    /// Nothing to do; wait for the next event.
    Continue,
    /// Stop accepting and close the listener.
    StopAccepting,
    /// Leave the loop.
    Exit,
    /// Leave the loop and report a fatal failure.
    Abort,
}

impl SupervisorAction {
    /// The decision that this action carries out.
    pub open spec fn spec_decision(&self) -> Decision {
        match self {
            SupervisorAction::Spawn(_) => Decision::Spawn,
            SupervisorAction::Refuse => Decision::Refuse,
            SupervisorAction::Continue => Decision::Continue,
            SupervisorAction::StopAccepting => Decision::StopAccepting,
            SupervisorAction::Exit => Decision::Exit,
            SupervisorAction::Abort => Decision::Abort,
        }
    }

    /// The decision that this action carries out.
    #[verifier::when_used_as_spec(spec_decision)]
    pub fn decision(&self) -> (decision: Decision)
        ensures
            decision == self.spec_decision(),
    {
        match self {
            SupervisorAction::Spawn(_) => Decision::Spawn,
            SupervisorAction::Refuse => Decision::Refuse,
            SupervisorAction::Continue => Decision::Continue,
            SupervisorAction::StopAccepting => Decision::StopAccepting,
            SupervisorAction::Exit => Decision::Exit,
            SupervisorAction::Abort => Decision::Abort,
        }
    }
}

/// Whether connections are accepted in `phase`.
pub open spec fn accepts(phase: AcceptorPhase) -> bool {
    phase is Listening || phase is Accepting
}

/// What the loop decides when `event` is reported in `phase`, with the
/// broadcaster in state `signal`.
pub open spec fn decide(phase: AcceptorPhase, signal: BroadcastState, event: SupervisorEvent) -> Decision {
    if phase is Stopped {
        Decision::Exit
    } else {
        match event {
            SupervisorEvent::ConnectionReady => if accepts(phase) && signal.issued < u64::MAX {
                Decision::Spawn
            } else {
                Decision::Refuse
            },
            SupervisorEvent::AcceptFailed { fatal } => if fatal {
                Decision::Abort
            } else {
                Decision::Continue
            },
            SupervisorEvent::Interrupt => Decision::Continue,
            SupervisorEvent::ShutdownSignaled => if accepts(phase) && signal.fired {
                Decision::StopAccepting
            } else {
                Decision::Continue
            },
            SupervisorEvent::ListenerClosed => if accepts(phase) {
                Decision::Abort
            } else {
                Decision::Exit
            },
        }
    }
}

/// The phase that follows `phase` once `decision` has been taken.
pub open spec fn next_phase(phase: AcceptorPhase, decision: Decision) -> AcceptorPhase {
    match decision {
        Decision::Spawn => AcceptorPhase::Accepting,
        Decision::StopAccepting => AcceptorPhase::Draining,
        Decision::Exit => AcceptorPhase::Stopped,
        Decision::Abort => AcceptorPhase::Stopped,
        Decision::Refuse => phase,
        Decision::Continue => phase,
    }
}

/// What taking `decision` does to the broadcaster: a spawned handler gets a
/// subscription, an interrupt fires the signal, and nothing else touches it.
pub open spec fn effect(signal: BroadcastState, event: SupervisorEvent, decision: Decision) -> BroadcastState {
    if decision is Spawn {
        signal.subscribe()
    } else if event is Interrupt && !(decision is Exit) {
        signal.fire()
    } else {
        signal
    }
}

/// The state of the acceptor loop.
#[derive(Debug)]
pub struct Supervisor {
    phase: AcceptorPhase,
}

impl Supervisor {
    /// The phase the loop is in.
    pub closed spec fn spec_phase(&self) -> AcceptorPhase {
        self.phase
    }

    /// A loop whose listener has just been bound.
    pub fn new() -> (supervisor: Supervisor)
        ensures
            supervisor.phase() == AcceptorPhase::Listening,
    {
        Supervisor { phase: AcceptorPhase::Listening }
    }

    /// The phase the loop is in.
    #[verifier::when_used_as_spec(spec_phase)]
    pub fn phase(&self) -> (phase: AcceptorPhase)
        ensures
            phase == self.spec_phase(),
    {
        self.phase
    }

    /// Whether the loop has ended.
    pub fn is_stopped(&self) -> (stopped: bool)
        ensures
            stopped == (self.phase() is Stopped),
    {
        match self.phase {
            AcceptorPhase::Stopped => true,
            _ => false,
        }
    }

    /// Takes one event and says what to do.
    ///
    /// A ready connection is given a handler with a subscription of its own
    /// as long as connections are accepted. An interrupt fires the shutdown
    /// signal, any number of times. Seeing the signal stops the accepting,
    /// and the closed listener ends the loop. Handlers that are already
    /// running are not waited for: each sees the signal by itself.
    pub fn step(&mut self, broadcaster: &mut Broadcaster, event: SupervisorEvent) -> (action:
        SupervisorAction)
        ensures
            action.decision() == decide(old(self).phase(), old(broadcaster)@, event),
            final(self).phase() == next_phase(old(self).phase(), action.decision()),
            final(broadcaster)@ == effect(old(broadcaster)@, event, action.decision()),
            old(broadcaster)@.wf() ==> final(broadcaster)@.wf(),
            final(broadcaster).bell() == old(broadcaster).bell(),
            match action {
                SupervisorAction::Spawn(connection) => {
                    &&& connection.phase() == ConnectionPhase::Open
                    &&& connection.subscription().id() == old(broadcaster)@.issued
                },
                _ => true,
            },
    {
        let accepting = match self.phase {
            AcceptorPhase::Listening => true,
            AcceptorPhase::Accepting => true,
            AcceptorPhase::Draining => false,
            AcceptorPhase::Stopped => {
                return SupervisorAction::Exit;
            },
        };
        match event {
            SupervisorEvent::ConnectionReady => {
                if !accepting {
                    return SupervisorAction::Refuse;
                }
                match broadcaster.subscribe() {
                    Some(subscription) => {
                        self.phase = AcceptorPhase::Accepting;
                        SupervisorAction::Spawn(Connection::new(subscription))
                    },
                    None => SupervisorAction::Refuse,
                }
            },
            SupervisorEvent::AcceptFailed { fatal } => {
                if fatal {
                    self.phase = AcceptorPhase::Stopped;
                    SupervisorAction::Abort
                } else {
                    SupervisorAction::Continue
                }
            },
            SupervisorEvent::Interrupt => {
                broadcaster.fire();
                SupervisorAction::Continue
            },
            SupervisorEvent::ShutdownSignaled => {
                if accepting && broadcaster.is_fired() {
                    self.phase = AcceptorPhase::Draining;
                    SupervisorAction::StopAccepting
                } else {
                    SupervisorAction::Continue
                }
            },
            SupervisorEvent::ListenerClosed => {
                self.phase = AcceptorPhase::Stopped;
                if accepting {
                    SupervisorAction::Abort
                } else {
                    SupervisorAction::Exit
                }
            },
        }
    }
}

/// The phase and broadcaster state after `event` has been handled.
pub open spec fn after(phase: AcceptorPhase, signal: BroadcastState, event: SupervisorEvent) -> (
    AcceptorPhase,
    BroadcastState,
) {
    let decision = decide(phase, signal, event);
    (next_phase(phase, decision), effect(signal, event, decision))
}

/// The phase and broadcaster state after a run of events, first to last.
pub open spec fn after_all(
    phase: AcceptorPhase,
    signal: BroadcastState,
    events: Seq<SupervisorEvent>,
) -> (AcceptorPhase, BroadcastState)
    decreases events.len(),
{
    if events.len() == 0 {
        (phase, signal)
    } else {
        let (p, s) = after_all(phase, signal, events.drop_last());
        after(p, s, events.last())
    }
}

/// How far along a phase is.
pub open spec fn progress(phase: AcceptorPhase) -> nat {
    match phase {
        AcceptorPhase::Listening => 0,
        AcceptorPhase::Accepting => 1,
        AcceptorPhase::Draining => 2,
        AcceptorPhase::Stopped => 3,
    }
}

/// The loop only moves forward, from listening over accepting and draining
/// to stopped, and the signal, once fired, stays fired.
pub proof fn loop_only_moves_forward(
    phase: AcceptorPhase,
    signal: BroadcastState,
    events: Seq<SupervisorEvent>,
)
    requires
        signal.wf(),
    ensures
        progress(phase) <= progress(after_all(phase, signal, events).0),
        signal.fired ==> after_all(phase, signal, events).1.fired,
        after_all(phase, signal, events).1.wf(),
    decreases events.len(),
{
    if events.len() > 0 {
        loop_only_moves_forward(phase, signal, events.drop_last());
    }
}

/// One interrupt is enough to wind the loop down: it fires the signal and
/// leaves the loop accepting; the signal, once seen, stops the accepting; the
/// closed listener ends the loop.
pub proof fn interrupt_winds_the_loop_down(phase: AcceptorPhase, signal: BroadcastState)
    requires
        accepts(phase),
    ensures
        ({
            let interrupted = after(phase, signal, SupervisorEvent::Interrupt);
            let draining = after(interrupted.0, interrupted.1, SupervisorEvent::ShutdownSignaled);
            let stopped = after(draining.0, draining.1, SupervisorEvent::ListenerClosed);
            &&& interrupted == (phase, signal.fire())
            &&& decide(interrupted.0, interrupted.1, SupervisorEvent::ShutdownSignaled)
                == Decision::StopAccepting
            &&& draining == (AcceptorPhase::Draining, signal.fire())
            &&& decide(draining.0, draining.1, SupervisorEvent::ListenerClosed) == Decision::Exit
            &&& stopped == (AcceptorPhase::Stopped, signal.fire())
        }),
{
}

/// An interrupt that comes after the signal was fired is absorbed: it asks
/// for nothing and leaves the loop and the broadcaster as they are.
pub proof fn repeated_interrupt_is_absorbed(phase: AcceptorPhase, signal: BroadcastState)
    requires
        signal.fired,
    ensures
        decide(phase, signal, SupervisorEvent::Interrupt) == Decision::Continue || decide(
            phase,
            signal,
            SupervisorEvent::Interrupt,
        ) == Decision::Exit,
        after(phase, signal, SupervisorEvent::Interrupt) == (phase, signal),
{
}

/// Once the shutdown signal has been seen, no connection gets a handler, and
/// a loop that has stopped stays stopped and touches nothing.
pub proof fn no_connection_is_accepted_after_shutdown(
    phase: AcceptorPhase,
    signal: BroadcastState,
    event: SupervisorEvent,
)
    requires
        !accepts(phase),
    ensures
        decide(phase, signal, event) != Decision::Spawn,
        !accepts(after(phase, signal, event).0),
        phase is Stopped ==> after(phase, signal, event) == (phase, signal),
{
}

/// A connection that is accepted after the signal was fired, but before the
/// loop has seen it, is not left waiting: its subscription is signaled from
/// the start.
pub proof fn connection_accepted_after_fire_is_signaled(
    phase: AcceptorPhase,
    signal: BroadcastState,
)
    requires
        signal.wf(),
        signal.fired,
        decide(phase, signal, SupervisorEvent::ConnectionReady) == Decision::Spawn,
    ensures
        after(phase, signal, SupervisorEvent::ConnectionReady).1.signaled(signal.issued),
{
}

/// Only accepting a connection adds a subscription, and it adds exactly one;
/// no decision of the loop removes one.
pub proof fn each_connection_gets_one_subscription(
    phase: AcceptorPhase,
    signal: BroadcastState,
    event: SupervisorEvent,
)
    requires
        signal.wf(),
    ensures
        ({
            let then = after(phase, signal, event).1;
            if decide(phase, signal, event) == Decision::Spawn {
                then.observed.dom() == signal.observed.dom().insert(signal.issued)
                    && !signal.is_live(signal.issued)
            } else {
                then.observed == signal.observed
            }
        }),
{
}

} // verus!
