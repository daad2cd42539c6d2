//! The shutdown coordinator: a one-directional state machine from running
//! through draining to stopped.

use vstd::prelude::*;

verus! {

/// The phase of the service.
#[derive(Clone, Copy, PartialEq, Eq, Debug, Structural)]
pub enum Phase {
    Running,
    Draining,
    Stopped,
}

/// The signal sources that are raced against each other.
#[derive(Clone, Copy, PartialEq, Eq, Debug, Structural)]
pub enum Signal {
    Interrupt,
    Terminate,
}

/// What the runtime reports to the coordinator.
#[derive(Clone, Copy, PartialEq, Eq, Debug, Structural)]
pub enum Event {
    /// A signal arrived.
    Signalled(Signal),
    /// The listener has a new connection to hand over.
    ConnectionOffered,
    /// A request that was admitted has been answered.
    RequestCompleted,
    /// A request that was admitted was cut off by the request timeout.
    RequestTimedOut,
}

/// What the runtime is to do next.
#[derive(Clone, Copy, PartialEq, Eq, Debug, Structural)]
pub enum Action {
    /// Nothing changes.
    Continue,
    /// Serve the offered connection.
    Admit,
    /// Close the offered connection unserved.
    Refuse,
    /// Stop accepting connections and flush the tracer; requests are still in flight.
    BeginDrain,
    /// Stop accepting connections, flush the tracer and exit: nothing is in flight.
    DrainAndExit,
    /// The last request in flight has ended: exit.
    Exit,
}

/// The coordinator's state as a mathematical value.
pub struct CoordinatorState {
    pub phase: Phase,
    pub in_flight: nat,
}

/// The most requests that the coordinator counts in flight at once.
pub const MAX_IN_FLIGHT: u64 = u64::MAX;

impl Phase {
    /// Position of the phase on the one-way path running, draining, stopped.
    pub open spec fn rank(self) -> nat {
        match self {
            Phase::Running => 0,
            Phase::Draining => 1,
            Phase::Stopped => 2,
        }
    }
}

impl Event {
    /// Whether the event ends a request, by completion or by timeout.
    pub open spec fn ends_request(self) -> bool {
        self == Event::RequestCompleted || self == Event::RequestTimedOut
    }
}

impl CoordinatorState {
    /// A draining service has requests in flight, a stopped one has none.
    pub open spec fn wf(self) -> bool {
        &&& self.in_flight <= MAX_IN_FLIGHT
        &&& self.phase == Phase::Draining ==> self.in_flight > 0
        &&& self.phase == Phase::Stopped ==> self.in_flight == 0
    }

    /// The state after an event.
    pub open spec fn next(self, event: Event) -> CoordinatorState {
        match event {
            Event::Signalled(_) => if self.phase == Phase::Running {
                if self.in_flight == 0 {
                    CoordinatorState { phase: Phase::Stopped, in_flight: 0 }
                } else {
                    CoordinatorState { phase: Phase::Draining, in_flight: self.in_flight }
                }
            } else {
                self
            },
            Event::ConnectionOffered => if self.phase == Phase::Running && self.in_flight
                < MAX_IN_FLIGHT {
                CoordinatorState { phase: Phase::Running, in_flight: self.in_flight + 1 }
            } else {
                self
            },
            Event::RequestCompleted | Event::RequestTimedOut => if self.in_flight == 0 {
                self
            } else if self.phase == Phase::Draining && self.in_flight == 1 {
                CoordinatorState { phase: Phase::Stopped, in_flight: 0 }
            } else {
                CoordinatorState { phase: self.phase, in_flight: (self.in_flight - 1) as nat }
            },
        }
    }

    /// The action that an event calls for.
    pub open spec fn action(self, event: Event) -> Action {
        match event {
            Event::Signalled(_) => if self.phase == Phase::Running {
                if self.in_flight == 0 {
                    Action::DrainAndExit
                } else {
                    Action::BeginDrain
                }
            } else {
                Action::Continue
            },
            Event::ConnectionOffered => if self.phase == Phase::Running && self.in_flight
                < MAX_IN_FLIGHT {
                Action::Admit
            } else {
                Action::Refuse
            },
            Event::RequestCompleted | Event::RequestTimedOut => if self.phase == Phase::Draining
                && self.in_flight == 1 {
                Action::Exit
            } else {
                Action::Continue
            },
        }
    }

    /// The state after a sequence of events, taken in order.
    pub open spec fn run(self, events: Seq<Event>) -> CoordinatorState
        decreases events.len(),
    {
        if events.len() == 0 {
            self
        } else {
            self.next(events[0]).run(events.drop_first())
        }
    }
}

/// The shutdown coordinator.
#[derive(Clone, Copy, Debug)]
pub struct Coordinator {
    phase: Phase,
    in_flight: u64,
}

impl View for Coordinator {
    type V = CoordinatorState;

    closed spec fn view(&self) -> CoordinatorState {
        CoordinatorState { phase: self.phase, in_flight: self.in_flight as nat }
    }
}

impl Coordinator {
    /// The state in which a service starts.
    pub open spec fn new_value() -> CoordinatorState {
        CoordinatorState { phase: Phase::Running, in_flight: 0 }
    }

    /// A running service with nothing in flight.
    pub fn new() -> (c: Coordinator)
        ensures
            c@ == Self::new_value(),
            c@.wf(),
    {
        Coordinator { phase: Phase::Running, in_flight: 0 }
    }

    /// The current phase.
    pub fn phase(&self) -> (p: Phase)
        ensures
            p == self@.phase,
    {
        self.phase
    }

    /// The number of requests that were admitted and have not ended.
    pub fn in_flight(&self) -> (n: u64)
        ensures
            n == self@.in_flight,
    {
        self.in_flight
    }

    /// Whether the listener may still hand over connections.
    pub fn is_accepting(&self) -> (yes: bool)
        ensures
            yes == (self@.phase == Phase::Running),
    {
        self.phase == Phase::Running
    }

    /// Takes one event, moves to the next state and says what to do.
    pub fn step(&mut self, event: Event) -> (action: Action)
        ensures
            final(self)@ == old(self)@.next(event),
            action == old(self)@.action(event),
            old(self)@.wf() ==> final(self)@.wf(),
    {
        match event {
            Event::Signalled(_) => {
                if self.phase == Phase::Running {
                    if self.in_flight == 0 {
                        self.phase = Phase::Stopped;
                        Action::DrainAndExit
                    } else {
                        self.phase = Phase::Draining;
                        Action::BeginDrain
                    }
                } else {
                    Action::Continue
                }
            },
            Event::ConnectionOffered => {
                if self.phase == Phase::Running && self.in_flight < MAX_IN_FLIGHT {
                    self.in_flight = self.in_flight + 1;
                    Action::Admit
                } else {
                    Action::Refuse
                }
            },
            Event::RequestCompleted | Event::RequestTimedOut => {
                if self.in_flight == 0 {
                    Action::Continue
                } else if self.phase == Phase::Draining && self.in_flight == 1 {
                    self.phase = Phase::Stopped;
                    self.in_flight = 0;
                    Action::Exit
                } else {
                    self.in_flight = self.in_flight - 1;
                    Action::Continue
                }
            },
        }
    }
}

/// Every step keeps the state well formed.
pub proof fn step_keeps_well_formed(s: CoordinatorState, event: Event)
    requires
        s.wf(),
    ensures
        s.next(event).wf(),
{
}

/// Shutdown is one-directional: no event moves the phase backwards, so a
/// service that has left the running phase never returns to it.
pub proof fn phase_never_goes_back(s: CoordinatorState, event: Event)
    ensures
        s.phase.rank() <= s.next(event).phase.rank(),
        s.phase != Phase::Running ==> s.next(event).phase != Phase::Running,
{
}

/// The first signal wins: whichever source it came from, it ends the running
/// phase, and every later signal changes nothing.
pub proof fn first_signal_wins(s: CoordinatorState, first: Signal, later: Signal)
    requires
        s.phase == Phase::Running,
    ensures
        s.next(Event::Signalled(first)) == s.next(Event::Signalled(later)),
        s.next(Event::Signalled(first)).phase != Phase::Running,
        s.next(Event::Signalled(first)).next(Event::Signalled(later)) == s.next(
            Event::Signalled(first),
        ),
        s.next(Event::Signalled(first)).action(Event::Signalled(later)) == Action::Continue,
{
}

/// Once a signal has been taken, every offered connection is refused and the
/// number of requests in flight does not grow, whatever happens in between.
pub proof fn no_admission_after_signal(s: CoordinatorState, events: Seq<Event>)
    requires
        s.phase != Phase::Running,
    ensures
        s.run(events).phase != Phase::Running,
        s.run(events).action(Event::ConnectionOffered) == Action::Refuse,
        s.run(events).in_flight <= s.in_flight,
    decreases events.len(),
{
    if events.len() > 0 {
        no_admission_after_signal(s.next(events[0]), events.drop_first());
    }
}

/// A draining service stops: when each request that was in flight at the
/// signal has ended, by completion or by the timeout, the phase is stopped and
/// nothing is in flight. New connections offered in between do not delay it.
pub proof fn drain_reaches_stopped(s: CoordinatorState, events: Seq<Event>)
    requires
        s.wf(),
        s.phase == Phase::Draining,
        events.filter(|e: Event| e.ends_request()).len() == s.in_flight,
    ensures
        s.run(events).phase == Phase::Stopped,
        s.run(events).in_flight == 0,
    decreases events.len(),
{
    let ends = |e: Event| e.ends_request();
    reveal_with_fuel(Seq::filter, 2);
    if events.len() == 0 {
        assert(events.filter(ends).len() == 0);
    } else {
        let head = events[0];
        let rest = events.drop_first();
        assert(events =~= seq![head] + rest);
        assert(events.filter(ends) == seq![head].filter(ends) + rest.filter(ends)) by {
            Seq::filter_distributes_over_add(seq![head], rest, ends);
        }
        assert(seq![head].drop_last() =~= Seq::<Event>::empty());
        let after = s.next(head);
        if head.ends_request() {
            assert(seq![head].filter(ends) =~= seq![head]);
            if s.in_flight == 1 {
                assert(rest.filter(ends).len() == 0);
                stopped_stays_stopped(after, rest);
            } else {
                drain_reaches_stopped(after, rest);
            }
        } else {
            assert(seq![head].filter(ends) =~= Seq::<Event>::empty());
            drain_reaches_stopped(after, rest);
        }
    }
}

/// A stopped service stays stopped.
pub proof fn stopped_stays_stopped(s: CoordinatorState, events: Seq<Event>)
    requires
        s.phase == Phase::Stopped,
        s.in_flight == 0,
    ensures
        s.run(events) == s,
    decreases events.len(),
{
    if events.len() > 0 {
        stopped_stays_stopped(s.next(events[0]), events.drop_first());
    }
}

} // verus!
