//! The request path around the handlers: the request timeout, the metrics
//! middleware, and the answers of the liveness, metrics and query handlers.

use crate::metrics::{exposition, recorded, MetricsRecorder};
use crate::outcome::{class_of, classify};
use crate::route::Route;
use crate::trace::{lower_hex, Span};
use vstd::prelude::*;
use vstd::string::*;

verus! {

/// The bound on every request, in milliseconds.
pub const REQUEST_TIMEOUT_MILLIS: u64 = 10_000;

/// The time between two readings of the clock in milliseconds; zero where
/// the clock has gone backwards.
pub open spec fn elapsed(started: u64, finished: u64) -> u64 {
    if finished >= started {
        (finished - started) as u64
    } else {
        0
    }
}

/// Measures the time that a request took.
pub fn elapsed_between(started_millis: u64, finished_millis: u64) -> (millis: u64)
    ensures
        millis == elapsed(started_millis, finished_millis),
{
    if finished_millis >= started_millis {
        finished_millis - started_millis
    } else {
        0
    }
}

/// Whether a request that started at `started_millis` has used up the request
/// timeout at `now_millis` and is to be abandoned.
pub fn timed_out(started_millis: u64, now_millis: u64) -> (over: bool)
    ensures
        over == (elapsed(started_millis, now_millis) >= REQUEST_TIMEOUT_MILLIS),
{
    elapsed_between(started_millis, now_millis) >= REQUEST_TIMEOUT_MILLIS
}

/// No request is left hanging: from the reading of the clock that lies the
/// request timeout after its start, and at every later one, the request
/// counts as timed out; at every earlier reading it does not.
pub proof fn request_is_cut_off_at_the_bound(started_millis: u64, now_millis: u64)
    ensures
        elapsed(started_millis, now_millis) >= REQUEST_TIMEOUT_MILLIS <==> now_millis
            - started_millis >= REQUEST_TIMEOUT_MILLIS,
{
}

/// How the handling of a request ended.
#[derive(Clone, Copy, PartialEq, Eq, Debug, Structural)]
pub enum Completion {
    /// A response with this status was produced.
    Responded(u16),
    /// The handler failed without a response.
    Faulted,
    /// The request timeout cut the handler off.
    TimedOut,
}

/// The status that the caller sees: the handler's own, 500 after a fault, 408
/// after the timeout.
pub open spec fn status_of(completion: Completion) -> u16 {
    match completion {
        Completion::Responded(status) => status,
        Completion::Faulted => 500,
        Completion::TimedOut => 408,
    }
}

/// The metrics middleware on the way out: whichever way the handling ended,
/// the request is recorded once, under its route, the class of the status that
/// the caller sees, and the time it took. Returns that status.
pub fn finish_request(
    recorder: &mut MetricsRecorder,
    route: Route,
    completion: Completion,
    started_millis: u64,
    finished_millis: u64,
) -> (status: u16)
    ensures
        status == status_of(completion),
        final(recorder)@ == recorded(
            old(recorder)@,
            route,
            class_of(status_of(completion)),
            elapsed(started_millis, finished_millis) as nat,
        ),
{
    let status: u16 = match completion {
        Completion::Responded(status) => status,
        Completion::Faulted => 500,
        Completion::TimedOut => 408,
    };
    recorder.record(route, classify(status), elapsed_between(started_millis, finished_millis));
    status
}

/// The answer of the liveness probe.
#[derive(Clone, Copy, PartialEq, Eq, Debug, Structural)]
pub struct Health {
    pub status: u16,
    pub healthy: bool,
}

/// The liveness handler: always status 200 and healthy. It reads nothing, so
/// no other part of the service can delay or change its answer.
pub fn health() -> (answer: Health)
    ensures
        answer == (Health { status: 200, healthy: true }),
{
    Health { status: 200, healthy: true }
}

/// The metrics-export handler: the current snapshot as text. The recorder is
/// only read.
pub fn export_metrics(recorder: &MetricsRecorder) -> (body: String)
    ensures
        body@ == exposition(recorder@),
{
    recorder.render()
}

/// An extension field of a query response.
pub struct Extension {
    pub name: String,
    pub value: String,
}

/// The extension field that hands the trace identifier of the request's span
/// back to the caller: the name `traceId`, and the identifier as 32
/// lower-case hexadecimal digits.
pub fn trace_extension(span: &Span) -> (field: Extension)
    ensures
        field.name@ == "traceId"@,
        field.value@ == lower_hex(span.trace() as nat, 32),
        field.value@.len() == 32,
        span.trace() != 0,
{
    Extension { name: String::from_str("traceId"), value: span.trace_id_text() }
}

/// The page that `async_graphql::http::playground_source` writes for a query
/// endpoint and a subscription endpoint.
pub uninterp spec fn playground_html(endpoint: Seq<char>, subscriptions: Seq<char>) -> Seq<char>;

/// Calls `async_graphql::http::playground_source` on a configuration that
/// holds the two endpoints and nothing else. The function fills a fixed page
/// template with the configuration and the default title, so the page depends
/// on the two endpoints alone; the contract gives that page its name and
/// claims nothing of what it holds.
#[verifier::external_body]
fn playground_source(endpoint: &str, subscriptions: &str) -> (page: String)
    ensures
        page@ == playground_html(endpoint@, subscriptions@),
{
    async_graphql::http::playground_source(
        async_graphql::http::GraphQLPlaygroundConfig::new(endpoint).subscription_endpoint(
            subscriptions,
        ),
    )
}

/// The interactive query-exploration page: it sends queries to `/` and opens
/// subscriptions on `/ws`.
pub fn graphql_playground() -> (page: String)
    ensures
        page@ == playground_html("/"@, "/ws"@),
{
    playground_source("/", "/ws")
}

} // verus!
