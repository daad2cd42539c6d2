use service_runtime::provider::TracerProvider;
use service_runtime::trace::{Span, SpanId, TraceId};

fn closed_span(header: Option<&[u8]>) -> service_runtime::trace::ClosedSpan {
    Span::for_request(header, TraceId::new(9).unwrap(), SpanId::new(8).unwrap(), 0).close(1)
}

#[test]
fn endpoint_makes_an_exporting_provider() {
    let p = TracerProvider::from_environment(Some(String::from("http://collector:4317")));
    assert!(p.exports());
    assert_eq!(p.endpoint(), Some("http://collector:4317"));
    assert!(!p.is_shut_down());
}

#[test]
fn missing_or_empty_endpoint_makes_a_no_op_provider() {
    let p = TracerProvider::from_environment(None);
    assert!(!p.exports());
    assert_eq!(p.endpoint(), None);
    let p = TracerProvider::from_environment(Some(String::new()));
    assert!(!p.exports());
    assert_eq!(p.endpoint(), None);
    assert!(!p.is_shut_down());
}

#[test]
fn exporting_provider_flushes_on_the_first_shutdown_only() {
    let mut p = TracerProvider::from_environment(Some(String::from("http://collector:4317")));
    assert!(p.shutdown());
    assert!(p.is_shut_down());
    assert!(p.exports());
    assert!(!p.shutdown());
    assert!(!p.shutdown());
    assert!(p.is_shut_down());
}

#[test]
fn no_op_provider_tolerates_shutdown() {
    let mut p = TracerProvider::from_environment(None);
    assert!(!p.shutdown());
    assert!(p.is_shut_down());
    assert!(!p.shutdown());
}

#[test]
fn only_an_open_exporting_provider_takes_sampled_spans() {
    let sampled = closed_span(None);
    let unsampled =
        closed_span(Some(b"00-0af7651916cd43dd8448eb211c80319c-b7ad6b7169203331-00"));
    assert!(sampled.sampled);
    assert!(!unsampled.sampled);

    let no_op = TracerProvider::from_environment(None);
    assert!(!no_op.takes(&sampled));
    assert!(!no_op.takes(&unsampled));

    let mut exporting = TracerProvider::from_environment(Some(String::from("http://c")));
    assert!(exporting.takes(&sampled));
    assert!(!exporting.takes(&unsampled));
    exporting.shutdown();
    assert!(!exporting.takes(&sampled));
}
