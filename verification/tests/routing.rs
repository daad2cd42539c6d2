use service_runtime::outcome::{class_from_index, classify, OutcomeClass};
use service_runtime::route::{
    dispatch, dispatch_route, match_path, route_from_index, status_without_handler, Dispatch,
    Handler, Method, Route,
};
use service_runtime::service::{
    elapsed_between, graphql_playground, health, timed_out, Health, REQUEST_TIMEOUT_MILLIS,
};

#[test]
fn table_routes_reach_their_handlers() {
    assert_eq!(dispatch(Method::Get, "/"), Dispatch::Handle(Handler::Playground));
    assert_eq!(dispatch(Method::Post, "/"), Dispatch::Handle(Handler::Query));
    assert_eq!(dispatch(Method::Get, "/health"), Dispatch::Handle(Handler::Liveness));
    assert_eq!(dispatch(Method::Get, "/metrics"), Dispatch::Handle(Handler::MetricsExport));
}

#[test]
fn other_methods_on_a_table_path_are_not_allowed() {
    assert_eq!(dispatch(Method::Other, "/"), Dispatch::MethodNotAllowed);
    assert_eq!(dispatch(Method::Post, "/health"), Dispatch::MethodNotAllowed);
    assert_eq!(dispatch(Method::Other, "/health"), Dispatch::MethodNotAllowed);
    assert_eq!(dispatch(Method::Post, "/metrics"), Dispatch::MethodNotAllowed);
}

#[test]
fn paths_outside_the_table_are_not_found() {
    assert_eq!(dispatch(Method::Get, ""), Dispatch::NotFound);
    assert_eq!(dispatch(Method::Get, "/health/"), Dispatch::NotFound);
    assert_eq!(dispatch(Method::Get, "/Health"), Dispatch::NotFound);
    assert_eq!(dispatch(Method::Post, "/ws"), Dispatch::NotFound);
    assert_eq!(dispatch(Method::Get, "//"), Dispatch::NotFound);
    assert_eq!(match_path("/metrics?x=1"), Route::Unmatched);
}

#[test]
fn paths_match_exactly() {
    assert_eq!(match_path("/"), Route::Root);
    assert_eq!(match_path("/health"), Route::Health);
    assert_eq!(match_path("/metrics"), Route::Metrics);
    assert_eq!(match_path("/healthy"), Route::Unmatched);
    assert_eq!(dispatch_route(Method::Get, Route::Unmatched), Dispatch::NotFound);
}

#[test]
fn statuses_without_a_handler() {
    assert_eq!(status_without_handler(Dispatch::NotFound), 404);
    assert_eq!(status_without_handler(Dispatch::MethodNotAllowed), 405);
    assert_eq!(status_without_handler(Dispatch::Handle(Handler::Liveness)), 200);
}

#[test]
fn route_order_and_labels() {
    let routes = [Route::Root, Route::Health, Route::Metrics, Route::Unmatched];
    let labels = ["/", "/health", "/metrics", "unmatched"];
    for i in 0..4 {
        assert_eq!(routes[i].index(), i);
        assert_eq!(route_from_index(i), routes[i]);
        assert_eq!(routes[i].label(), labels[i]);
    }
    assert_eq!(route_from_index(4), Route::Unmatched);
    assert_eq!(route_from_index(usize::MAX), Route::Unmatched);
}

#[test]
fn class_order_and_labels() {
    let classes = [OutcomeClass::Success, OutcomeClass::ClientError, OutcomeClass::ServerError];
    let labels = ["success", "client_error", "server_error"];
    for i in 0..3 {
        assert_eq!(classes[i].index(), i);
        assert_eq!(class_from_index(i), classes[i]);
        assert_eq!(classes[i].label(), labels[i]);
    }
    assert_eq!(class_from_index(3), OutcomeClass::ServerError);
}

#[test]
fn status_classes_at_their_edges() {
    assert_eq!(classify(0), OutcomeClass::Success);
    assert_eq!(classify(200), OutcomeClass::Success);
    assert_eq!(classify(302), OutcomeClass::Success);
    assert_eq!(classify(399), OutcomeClass::Success);
    assert_eq!(classify(400), OutcomeClass::ClientError);
    assert_eq!(classify(408), OutcomeClass::ClientError);
    assert_eq!(classify(499), OutcomeClass::ClientError);
    assert_eq!(classify(500), OutcomeClass::ServerError);
    assert_eq!(classify(599), OutcomeClass::ServerError);
    assert_eq!(classify(600), OutcomeClass::Success);
    assert_eq!(classify(u16::MAX), OutcomeClass::Success);
}

#[test]
fn liveness_answer_is_constant() {
    for _ in 0..3 {
        assert_eq!(health(), Health { status: 200, healthy: true });
    }
    assert_eq!(dispatch(Method::Get, "/health"), Dispatch::Handle(Handler::Liveness));
}

#[test]
fn elapsed_time_and_timeout() {
    assert_eq!(REQUEST_TIMEOUT_MILLIS, 10_000);
    assert_eq!(elapsed_between(100, 350), 250);
    assert_eq!(elapsed_between(350, 100), 0);
    assert_eq!(elapsed_between(0, u64::MAX), u64::MAX);
    assert!(!timed_out(1_000, 1_000));
    assert!(!timed_out(1_000, 10_999));
    assert!(timed_out(1_000, 11_000));
    assert!(timed_out(1_000, 50_000));
    assert!(!timed_out(50_000, 1_000));
}

#[test]
fn playground_page_talks_to_the_query_endpoint() {
    let page = graphql_playground();
    assert!(page.contains("<!DOCTYPE html>"));
    assert!(page.contains("<title>GraphQL Playground</title>"));
    assert!(page.contains("\"endpoint\":\"/\""));
    assert!(page.contains("\"subscriptionEndpoint\":\"/ws\""));
    assert_ne!(page, "/");
    assert_eq!(page, graphql_playground());
}
