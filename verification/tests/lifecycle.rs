use service_runtime::outcome::OutcomeClass;
use service_runtime::provider::TracerProvider;
use service_runtime::route::{Dispatch, Handler, Method, Route};
use service_runtime::runtime::Runtime;
use service_runtime::service::{export_metrics, Completion};
use service_runtime::shutdown::{Action, Phase, Signal};
use service_runtime::trace::{SpanId, TraceId};

const PARENT: &[u8] = b"00-0af7651916cd43dd8448eb211c80319c-b7ad6b7169203331-01";

fn ids() -> (TraceId, SpanId) {
    (TraceId::new(0xfeed).unwrap(), SpanId::new(0xbeef).unwrap())
}

fn exporting() -> Runtime {
    Runtime::new(TracerProvider::from_environment(Some(String::from("http://collector:4317"))))
}

#[test]
fn new_service_is_running_and_empty() {
    let rt = Runtime::new(TracerProvider::from_environment(None));
    assert_eq!(rt.coordinator.phase(), Phase::Running);
    assert_eq!(rt.coordinator.in_flight(), 0);
    assert!(!rt.provider.exports());
    assert_eq!(rt.recorder.render(), "");
}

#[test]
fn query_gets_a_span_and_other_requests_do_not() {
    let mut rt = exporting();
    let (t, s) = ids();
    let query = rt.enter(Method::Post, "/", None, t, s, 10).unwrap();
    assert_eq!(query.route(), Route::Root);
    assert_eq!(query.dispatch(), Dispatch::Handle(Handler::Query));
    assert_eq!(query.started_millis(), 10);
    let span = query.span().unwrap();
    assert_eq!(span.trace_id().get(), 0xfeed);
    assert!(span.parent().is_none());
    assert_eq!(span.started_millis(), 10);

    let probe = rt.enter(Method::Get, "/health", Some(PARENT), t, s, 11).unwrap();
    assert_eq!(probe.dispatch(), Dispatch::Handle(Handler::Liveness));
    assert!(probe.span().is_none());
    let page = rt.enter(Method::Get, "/", Some(PARENT), t, s, 12).unwrap();
    assert_eq!(page.dispatch(), Dispatch::Handle(Handler::Playground));
    assert!(page.span().is_none());
    let lost = rt.enter(Method::Get, "/nowhere", None, t, s, 13).unwrap();
    assert_eq!(lost.route(), Route::Unmatched);
    assert_eq!(lost.dispatch(), Dispatch::NotFound);
    assert_eq!(rt.coordinator.in_flight(), 4);
    assert_eq!(rt.recorder.render(), "");
}

#[test]
fn query_with_a_parent_is_answered_in_the_parents_trace() {
    let mut rt = exporting();
    let (t, s) = ids();
    let ticket = rt.enter(Method::Post, "/", Some(PARENT), t, s, 100).unwrap();
    let span = ticket.span().unwrap();
    assert_eq!(span.trace_id_text(), "0af7651916cd43dd8448eb211c80319c");
    assert_eq!(span.parent().unwrap().get(), 0xb7ad6b7169203331);
    let end = rt.complete(ticket, Completion::Responded(200), 130);
    assert_eq!(end.status, 200);
    assert_eq!(end.action, Action::Continue);
    assert!(end.export_span);
    let closed = end.span.unwrap();
    assert_eq!(closed.trace_id.get(), 0x0af7651916cd43dd8448eb211c80319c);
    assert_eq!(closed.started_millis, 100);
    assert_eq!(closed.elapsed_millis, 30);
    assert_eq!(rt.recorder.count(Route::Root, OutcomeClass::Success), 1);
    assert_eq!(rt.recorder.total_millis(Route::Root, OutcomeClass::Success), 30);
    assert_eq!(rt.coordinator.in_flight(), 0);
}

#[test]
fn every_ending_is_recorded_once() {
    let mut rt = Runtime::new(TracerProvider::from_environment(None));
    let (t, s) = ids();
    let a = rt.enter(Method::Post, "/", None, t, s, 0).unwrap();
    let b = rt.enter(Method::Post, "/", None, t, s, 0).unwrap();
    let c = rt.enter(Method::Get, "/metrics", None, t, s, 0).unwrap();
    let end = rt.complete(a, Completion::Faulted, 7);
    assert_eq!(end.status, 500);
    assert!(end.span.is_some());
    assert!(!end.export_span);
    let end = rt.complete(b, Completion::TimedOut, 10_000);
    assert_eq!(end.status, 408);
    assert_eq!(end.span.unwrap().elapsed_millis, 10_000);
    assert_eq!(rt.recorder.bucket(Route::Root, OutcomeClass::ClientError, 3), Some(0));
    assert_eq!(rt.recorder.bucket(Route::Root, OutcomeClass::ClientError, 4), Some(1));
    let end = rt.complete(c, Completion::Responded(200), 1);
    assert_eq!(end.status, 200);
    assert!(end.span.is_none());
    assert!(!end.export_span);
    assert_eq!(rt.recorder.count(Route::Root, OutcomeClass::ServerError), 1);
    assert_eq!(rt.recorder.count(Route::Root, OutcomeClass::ClientError), 1);
    assert_eq!(rt.recorder.count(Route::Metrics, OutcomeClass::Success), 1);
    assert_eq!(rt.recorder.count(Route::Root, OutcomeClass::Success), 0);
    assert_eq!(rt.coordinator.in_flight(), 0);
    assert_eq!(rt.coordinator.phase(), Phase::Running);
}

#[test]
fn signal_refuses_new_requests_and_drains_the_old() {
    let mut rt = exporting();
    let (t, s) = ids();
    let first = rt.enter(Method::Post, "/", None, t, s, 0).unwrap();
    let end = rt.complete(first, Completion::Responded(200), 3);
    assert_eq!(end.status, 200);

    let in_flight = rt.enter(Method::Post, "/", None, t, s, 5).unwrap();
    let plan = rt.signal(Signal::Terminate);
    assert_eq!(plan.action, Action::BeginDrain);
    assert!(plan.flush);
    assert!(rt.provider.is_shut_down());
    assert!(rt.enter(Method::Post, "/", None, t, s, 6).is_none());
    assert!(rt.enter(Method::Get, "/health", None, t, s, 6).is_none());
    assert_eq!(rt.coordinator.in_flight(), 1);

    let again = rt.signal(Signal::Interrupt);
    assert_eq!(again.action, Action::Continue);
    assert!(!again.flush);

    let text = export_metrics(&rt.recorder);
    assert!(text.contains("http_requests_total{route=\"/\",outcome=\"success\"} 1\n"));

    let end = rt.complete(in_flight, Completion::TimedOut, 10_005);
    assert_eq!(end.action, Action::Exit);
    assert!(!end.export_span);
    assert_eq!(rt.coordinator.phase(), Phase::Stopped);
    assert_eq!(rt.recorder.count(Route::Root, OutcomeClass::ClientError), 1);
}

#[test]
fn signal_on_an_idle_service_without_exporter() {
    let mut rt = Runtime::new(TracerProvider::from_environment(None));
    let plan = rt.signal(Signal::Interrupt);
    assert_eq!(plan.action, Action::DrainAndExit);
    assert!(!plan.flush);
    assert!(rt.provider.is_shut_down());
    assert_eq!(rt.coordinator.phase(), Phase::Stopped);
    let (t, s) = ids();
    assert!(rt.enter(Method::Get, "/health", None, t, s, 0).is_none());
}

#[test]
fn query_without_exporter_still_gets_a_trace_id() {
    let mut rt = Runtime::new(TracerProvider::from_environment(None));
    let (t, s) = ids();
    let ticket = rt.enter(Method::Post, "/", None, t, s, 0).unwrap();
    let span = ticket.span().unwrap();
    let field = service_runtime::service::trace_extension(&span);
    assert_eq!(field.name, "traceId");
    assert_eq!(field.value, "0000000000000000000000000000feed");
    assert!(field.value.chars().any(|c| c != '0'));
    let end = rt.complete(ticket, Completion::Responded(200), 1);
    assert!(end.span.is_some());
    assert!(!end.export_span);
}
