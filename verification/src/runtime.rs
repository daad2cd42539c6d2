//! The service as one value: the recorder, the coordinator and the tracer
//! provider, and the three steps that the surrounding runtime takes on them.

use crate::metrics::{recorded, MetricsRecorder};
use crate::outcome::class_of;
use crate::provider::TracerProvider;
use crate::route::{
    decision, dispatch_route, health_route_is_fixed, match_path, route_of, Dispatch, Handler,
    Method, Route,
};
use crate::service::{elapsed, finish_request, status_of, Completion};
use crate::shutdown::{
    Action, Coordinator, CoordinatorState, Event, Phase, Signal, MAX_IN_FLIGHT,
};
use crate::trace::{header_bytes, ClosedSpan, Span, SpanId, TraceId};
use vstd::prelude::*;

verus! {

/// What an admitted request carries from its entry to its exit. It is handed
/// back when the request ends, so a request ends once.
pub struct Ticket {
    route: Route,
    dispatch: Dispatch,
    span: Option<Span>,
    started_millis: u64,
}

impl Ticket {
    /// The route under which the request is counted.
    pub closed spec fn route_value(self) -> Route {
        self.route
    }

    /// What the route table decided for the request.
    pub closed spec fn dispatch_value(self) -> Dispatch {
        self.dispatch
    }

    /// The span of the request, if it is a query.
    pub closed spec fn span_value(self) -> Option<Span> {
        self.span
    }

    /// The reading of the clock at which the request came in.
    pub closed spec fn started(self) -> u64 {
        self.started_millis
    }

    /// The route under which the request is counted.
    pub fn route(&self) -> (route: Route)
        ensures
            route == self.route_value(),
    {
        self.route
    }

    /// What the route table decided for the request.
    pub fn dispatch(&self) -> (d: Dispatch)
        ensures
            d == self.dispatch_value(),
    {
        self.dispatch
    }

    /// The span of the request, if it is a query.
    pub fn span(&self) -> (span: Option<Span>)
        ensures
            span == self.span_value(),
    {
        self.span
    }

    /// The reading of the clock at which the request came in.
    pub fn started_millis(&self) -> (t: u64)
        ensures
            t == self.started(),
    {
        self.started_millis
    }
}

/// What the runtime is to do when a request has ended.
pub struct Ending {
    /// The status that the caller sees.
    pub status: u16,
    /// The closed span of a query.
    pub span: Option<ClosedSpan>,
    /// Whether the closed span is handed to the exporter.
    pub export_span: bool,
    /// What the coordinator asks for.
    pub action: Action,
}

/// What the runtime is to do when a signal has arrived.
#[derive(Clone, Copy, PartialEq, Eq, Debug, Structural)]
pub struct Shutdown {
    /// What the coordinator asks for.
    pub action: Action,
    /// Whether the exporter is to be flushed and released now.
    pub flush: bool,
}

/// The event with which a request leaves the coordinator's count.
pub open spec fn ending_event(completion: Completion) -> Event {
    match completion {
        Completion::TimedOut => Event::RequestTimedOut,
        _ => Event::RequestCompleted,
    }
}

/// Whether an action starts the drain.
pub open spec fn starts_drain(action: Action) -> bool {
    action == Action::BeginDrain || action == Action::DrainAndExit
}

/// The state of the service.
pub struct Runtime {
    pub recorder: MetricsRecorder,
    pub coordinator: Coordinator,
    pub provider: TracerProvider,
}

impl Runtime {
    /// A running service that has recorded nothing.
    pub fn new(provider: TracerProvider) -> (runtime: Runtime)
        ensures
            runtime.provider == provider,
            runtime.coordinator@ == Coordinator::new_value(),
            runtime.recorder@ == MetricsRecorder::empty_value(),
    {
        Runtime { recorder: MetricsRecorder::new(), coordinator: Coordinator::new(), provider }
    }

    /// The way in: the coordinator decides whether the request is admitted.
    /// An admitted request gets its route, the decision of the route table
    /// and the clock reading, and a query gets its span. Nothing is recorded
    /// yet.
    pub fn enter(
        &mut self,
        method: Method,
        path: &str,
        trace_header: Option<&[u8]>,
        fresh_trace: TraceId,
        fresh_span: SpanId,
        now_millis: u64,
    ) -> (ticket: Option<Ticket>)
        ensures
            final(self).coordinator@ == old(self).coordinator@.next(Event::ConnectionOffered),
            final(self).recorder@ == old(self).recorder@,
            final(self).provider@ == old(self).provider@,
            ticket.is_some() <==> old(self).coordinator@.action(Event::ConnectionOffered)
                == Action::Admit,
            ticket.is_some() ==> {
                let t = ticket.unwrap();
                &&& t.route_value() == route_of(path@)
                &&& t.dispatch_value() == decision(method, route_of(path@))
                &&& t.started() == now_millis
                &&& t.span_value().is_some() <==> t.dispatch_value() == Dispatch::Handle(
                    Handler::Query,
                )
                &&& t.span_value().is_some() ==> t.span_value().unwrap().opened_for(
                    header_bytes(trace_header),
                    fresh_trace.value(),
                    fresh_span.value(),
                    now_millis,
                )
            },
    {
        let action = self.coordinator.step(Event::ConnectionOffered);
        if action != Action::Admit {
            return None;
        }
        let route = match_path(path);
        let dispatch = dispatch_route(method, route);
        let span = if dispatch == Dispatch::Handle(Handler::Query) {
            Some(Span::for_request(trace_header, fresh_trace, fresh_span, now_millis))
        } else {
            None
        };
        Some(Ticket { route, dispatch, span, started_millis: now_millis })
    }

    /// The way out: whichever way the handling ended, the request is recorded
    /// once, its span, if it has one, is closed, and it leaves the
    /// coordinator's count.
    pub fn complete(&mut self, ticket: Ticket, completion: Completion, now_millis: u64) -> (end:
        Ending)
        ensures
            end.status == status_of(completion),
            final(self).recorder@ == recorded(
                old(self).recorder@,
                ticket.route_value(),
                class_of(status_of(completion)),
                elapsed(ticket.started(), now_millis) as nat,
            ),
            final(self).coordinator@ == old(self).coordinator@.next(ending_event(completion)),
            end.action == old(self).coordinator@.action(ending_event(completion)),
            final(self).provider@ == old(self).provider@,
            end.span.is_some() == ticket.span_value().is_some(),
            end.span.is_some() ==> ticket.span_value().unwrap().ended_as(
                end.span.unwrap(),
                now_millis,
            ),
            end.export_span == (end.span.is_some() && end.span.unwrap().sampled && old(
                self,
            ).provider@.must_flush()),
    {
        let status = finish_request(
            &mut self.recorder,
            ticket.route,
            completion,
            ticket.started_millis,
            now_millis,
        );
        let (span, export_span) = match ticket.span {
            Some(open) => {
                let closed = open.close(now_millis);
                let export = self.provider.takes(&closed);
                (Some(closed), export)
            },
            None => (None, false),
        };
        let event = match completion {
            Completion::TimedOut => Event::RequestTimedOut,
            _ => Event::RequestCompleted,
        };
        let action = self.coordinator.step(event);
        Ending { status, span, export_span, action }
    }

    /// A signal: the coordinator takes it, and where it starts the drain the
    /// provider is shut down. A later signal changes nothing.
    pub fn signal(&mut self, signal: Signal) -> (plan: Shutdown)
        ensures
            final(self).coordinator@ == old(self).coordinator@.next(Event::Signalled(signal)),
            plan.action == old(self).coordinator@.action(Event::Signalled(signal)),
            final(self).recorder@ == old(self).recorder@,
            plan.flush == (starts_drain(plan.action) && old(self).provider@.must_flush()),
            final(self).provider@ == if starts_drain(plan.action) {
                old(self).provider@.after_shutdown()
            } else {
                old(self).provider@
            },
    {
        let action = self.coordinator.step(Event::Signalled(signal));
        let flush = match action {
            Action::BeginDrain | Action::DrainAndExit => self.provider.shutdown(),
            _ => false,
        };
        Shutdown { action, flush }
    }
}

/// While the service is running and can count one more request, a GET on
/// `/health` is admitted and reaches the liveness handler, whatever has been
/// recorded and however many requests are in flight.
pub proof fn liveness_is_served_while_running(s: CoordinatorState)
    requires
        s.phase == Phase::Running,
        s.in_flight < MAX_IN_FLIGHT,
    ensures
        s.action(Event::ConnectionOffered) == Action::Admit,
        s.next(Event::ConnectionOffered).phase == Phase::Running,
        decision(Method::Get, route_of("/health"@)) == Dispatch::Handle(Handler::Liveness),
{
    health_route_is_fixed();
}

} // verus!
