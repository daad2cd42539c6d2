use service_runtime::metrics::{decimal_text, MetricsRecorder};
use service_runtime::outcome::OutcomeClass;
use service_runtime::route::Route;
use service_runtime::service::{export_metrics, finish_request, Completion};

const ROUTES: [Route; 4] = [Route::Root, Route::Health, Route::Metrics, Route::Unmatched];
const CLASSES: [OutcomeClass; 3] =
    [OutcomeClass::Success, OutcomeClass::ClientError, OutcomeClass::ServerError];

#[test]
fn decimal_of_numbers() {
    assert_eq!(decimal_text(0), "0");
    assert_eq!(decimal_text(7), "7");
    assert_eq!(decimal_text(10), "10");
    assert_eq!(decimal_text(4096), "4096");
    assert_eq!(decimal_text(1234567890), "1234567890");
    assert_eq!(decimal_text(u64::MAX), "18446744073709551615");
}

#[test]
fn new_recorder_is_empty() {
    let r = MetricsRecorder::new();
    for route in ROUTES {
        for class in CLASSES {
            assert_eq!(r.count(route, class), 0);
            assert_eq!(r.total_millis(route, class), 0);
            for b in 0..5 {
                assert_eq!(r.bucket(route, class, b), Some(0));
            }
        }
    }
    assert_eq!(r.render(), "");
}

#[test]
fn one_request_counts_once_and_nowhere_else() {
    let mut r = MetricsRecorder::new();
    r.record(Route::Health, OutcomeClass::ClientError, 3);
    for route in ROUTES {
        for class in CLASSES {
            let expected =
                if route == Route::Health && class == OutcomeClass::ClientError { 1 } else { 0 };
            assert_eq!(r.count(route, class), expected);
        }
    }
    r.record(Route::Health, OutcomeClass::ClientError, 3);
    assert_eq!(r.count(Route::Health, OutcomeClass::ClientError), 2);
    assert_eq!(r.total_millis(Route::Health, OutcomeClass::ClientError), 6);
}

#[test]
fn buckets_hold_requests_up_to_their_bound() {
    let mut r = MetricsRecorder::new();
    for elapsed in [0, 10, 11, 50, 51, 250, 1000, 1001, 10000, 10001] {
        r.record(Route::Root, OutcomeClass::Success, elapsed);
    }
    assert_eq!(r.count(Route::Root, OutcomeClass::Success), 10);
    assert_eq!(r.bucket(Route::Root, OutcomeClass::Success, 0), Some(2));
    assert_eq!(r.bucket(Route::Root, OutcomeClass::Success, 1), Some(4));
    assert_eq!(r.bucket(Route::Root, OutcomeClass::Success, 2), Some(6));
    assert_eq!(r.bucket(Route::Root, OutcomeClass::Success, 3), Some(7));
    assert_eq!(r.bucket(Route::Root, OutcomeClass::Success, 4), Some(9));
    assert_eq!(r.total_millis(Route::Root, OutcomeClass::Success), 22374);
}

#[test]
fn sum_of_elapsed_times_stops_at_the_largest_value() {
    let mut r = MetricsRecorder::new();
    r.record(Route::Metrics, OutcomeClass::ServerError, u64::MAX - 1);
    assert_eq!(r.total_millis(Route::Metrics, OutcomeClass::ServerError), u64::MAX - 1);
    r.record(Route::Metrics, OutcomeClass::ServerError, 1);
    assert_eq!(r.total_millis(Route::Metrics, OutcomeClass::ServerError), u64::MAX);
    r.record(Route::Metrics, OutcomeClass::ServerError, 5);
    assert_eq!(r.total_millis(Route::Metrics, OutcomeClass::ServerError), u64::MAX);
    assert_eq!(r.count(Route::Metrics, OutcomeClass::ServerError), 3);
}

#[test]
fn text_of_one_series() {
    let mut r = MetricsRecorder::new();
    r.record(Route::Root, OutcomeClass::Success, 12);
    let expected = "http_requests_total{route=\"/\",outcome=\"success\"} 1\n\
http_request_duration_millis_bucket{route=\"/\",outcome=\"success\",le=\"10\"} 0\n\
http_request_duration_millis_bucket{route=\"/\",outcome=\"success\",le=\"50\"} 1\n\
http_request_duration_millis_bucket{route=\"/\",outcome=\"success\",le=\"250\"} 1\n\
http_request_duration_millis_bucket{route=\"/\",outcome=\"success\",le=\"1000\"} 1\n\
http_request_duration_millis_bucket{route=\"/\",outcome=\"success\",le=\"10000\"} 1\n\
http_request_duration_millis_bucket{route=\"/\",outcome=\"success\",le=\"+Inf\"} 1\n\
http_request_duration_millis_sum{route=\"/\",outcome=\"success\"} 12\n\
http_request_duration_millis_count{route=\"/\",outcome=\"success\"} 1\n";
    assert_eq!(r.render(), expected);
    assert_eq!(export_metrics(&r), expected);
}

#[test]
fn text_is_ordered_by_route_then_class_and_repeatable() {
    let mut r = MetricsRecorder::new();
    r.record(Route::Unmatched, OutcomeClass::ClientError, 1);
    r.record(Route::Root, OutcomeClass::ServerError, 20000);
    r.record(Route::Root, OutcomeClass::Success, 5);
    let text = r.render();
    let a = text.find("http_requests_total{route=\"/\",outcome=\"success\"} 1\n").unwrap();
    let b = text.find("http_requests_total{route=\"/\",outcome=\"server_error\"} 1\n").unwrap();
    let c =
        text.find("http_requests_total{route=\"unmatched\",outcome=\"client_error\"} 1\n").unwrap();
    assert!(a < b && b < c);
    assert!(text.contains(
        "http_request_duration_millis_bucket{route=\"/\",outcome=\"server_error\",le=\"10000\"} 0\n"
    ));
    assert!(text.contains(
        "http_request_duration_millis_bucket{route=\"/\",outcome=\"server_error\",le=\"+Inf\"} 1\n"
    ));
    assert!(!text.contains("route=\"/health\""));
    assert_eq!(text.lines().count(), 27);
    assert_eq!(r.render(), text);
}

#[test]
fn rendering_changes_nothing() {
    let mut r = MetricsRecorder::new();
    r.record(Route::Metrics, OutcomeClass::Success, 2);
    let before = r.render();
    let _ = export_metrics(&r);
    let _ = export_metrics(&r);
    assert_eq!(r.count(Route::Metrics, OutcomeClass::Success), 1);
    assert_eq!(r.render(), before);
}

#[test]
fn counter_line_grows_by_one_with_each_request() {
    let mut r = MetricsRecorder::new();
    for n in 1..=12u64 {
        r.record(Route::Health, OutcomeClass::Success, 1);
        let line = format!("http_requests_total{{route=\"/health\",outcome=\"success\"}} {}\n", n);
        assert!(r.render().contains(&line));
    }
}

#[test]
fn every_way_a_request_ends_is_recorded_once() {
    let mut r = MetricsRecorder::new();
    assert_eq!(finish_request(&mut r, Route::Root, Completion::Responded(200), 100, 130), 200);
    assert_eq!(r.count(Route::Root, OutcomeClass::Success), 1);
    assert_eq!(r.total_millis(Route::Root, OutcomeClass::Success), 30);

    assert_eq!(finish_request(&mut r, Route::Root, Completion::Responded(400), 100, 101), 400);
    assert_eq!(r.count(Route::Root, OutcomeClass::ClientError), 1);

    assert_eq!(finish_request(&mut r, Route::Root, Completion::Faulted, 100, 105), 500);
    assert_eq!(r.count(Route::Root, OutcomeClass::ServerError), 1);
    assert_eq!(r.total_millis(Route::Root, OutcomeClass::ServerError), 5);

    assert_eq!(finish_request(&mut r, Route::Root, Completion::TimedOut, 100, 10_100), 408);
    assert_eq!(r.count(Route::Root, OutcomeClass::ClientError), 2);
    assert_eq!(r.total_millis(Route::Root, OutcomeClass::ClientError), 10_001);

    assert_eq!(finish_request(&mut r, Route::Unmatched, Completion::Responded(404), 9, 3), 404);
    assert_eq!(r.count(Route::Unmatched, OutcomeClass::ClientError), 1);
    assert_eq!(r.total_millis(Route::Unmatched, OutcomeClass::ClientError), 0);
    assert_eq!(r.count(Route::Root, OutcomeClass::Success), 1);
}
