use opentracing::{
    Fields, FinishedSpan, MockSpan, MockSpanContext, NoopSpan, NoopSpanContext, Span,
    SpanContext, TagValue,
};

fn pair(k: &str, v: &str) -> (String, String) {
    (k.to_string(), v.to_string())
}

#[test]
fn get_items() {
    let context = MockSpanContext::new(vec![pair("key", "value")]);
    let items: Vec<(String, String)> = context.baggage_items();
    assert_eq!(items, [pair("key", "value")])
}

#[test]
fn test_map_baggage() {
    let ctx = MockSpanContext::new(vec![pair("key", "value")]);
    let mut iter = ctx.baggage_items().into_iter();
    assert_eq!(Some(pair("key", "value")), iter.next());
    assert_eq!(None, iter.next());
}

#[test]
fn test_empty_baggage() {
    let ctx = NoopSpanContext::default();
    assert_eq!(None, ctx.baggage_items().into_iter().next());
}

#[test]
fn context_built_with_a_repeated_key_keeps_the_last_value() {
    let ctx = MockSpanContext::new(vec![pair("key", "value"), pair("other", "x"), pair("key", "new")]);
    let items = ctx.baggage_items();
    assert_eq!(items, vec![pair("key", "new"), pair("other", "x")]);
}

#[test]
fn baggage_reinsert_replaces_the_value() {
    let mut span = MockSpan::new("op".to_string(), MockSpanContext::new(Vec::new()));
    span.set_baggage_item("key", "value".to_string());
    assert_eq!(span.context().baggage_items(), vec![pair("key", "value")]);
    span.set_baggage_item("key", "other".to_string());
    assert_eq!(span.context().baggage_items(), vec![pair("key", "other")]);
}

#[test]
fn tag_set_get_unset() {
    let mut span = MockSpan::new("op".to_string(), MockSpanContext::new(Vec::new()));
    assert_eq!(None, span.tag("k"));
    span.set_tag("k", TagValue::Bool(true));
    assert_eq!(Some(&TagValue::Bool(true)), span.tag("k"));
    span.set_tag("k", TagValue::I32(7));
    assert_eq!(Some(&TagValue::I32(7)), span.tag("k"));
    span.set_tag("other", TagValue::NoValue);
    span.unset_tag("k");
    assert_eq!(None, span.tag("k"));
    assert_eq!(Some(&TagValue::NoValue), span.tag("other"));
    span.unset_tag("missing");
    assert_eq!(Some(&TagValue::NoValue), span.tag("other"));
}

#[test]
fn baggage_set_get_unset() {
    let mut span = MockSpan::new("op".to_string(), MockSpanContext::new(vec![pair("a", "1")]));
    assert_eq!(Some(&"1".to_string()), span.baggage_item("a"));
    assert_eq!(None, span.baggage_item("k"));
    span.set_baggage_item("k", "v".to_string());
    assert_eq!(Some(&"v".to_string()), span.baggage_item("k"));
    span.unset_baggage_item("k");
    assert_eq!(None, span.baggage_item("k"));
    assert_eq!(Some(&"1".to_string()), span.baggage_item("a"));
}

#[test]
fn operation_name_reads_back() {
    let mut span = MockSpan::new("first".to_string(), MockSpanContext::new(Vec::new()));
    assert_eq!("first", span.operation_name().as_str());
    span.set_operation_name("second");
    assert_eq!("second", span.operation_name().as_str());
    span.set_operation_name("");
    assert_eq!("", span.operation_name().as_str());
}

#[test]
fn logs_are_kept_in_order() {
    let mut span = MockSpan::new("op".to_string(), MockSpanContext::new(Vec::new()));
    span.log_at(5, "started".to_string());
    span.log_at(9, "done".to_string());
    span.log("later".to_string());
    let logs = span.log_records();
    assert_eq!(3, logs.len());
    assert_eq!(5, logs[0].timestamp);
    assert_eq!(9, logs[1].timestamp);
    assert!(logs[2].timestamp > 0);
    assert_eq!(
        vec![(Fields::Event.as_str().to_string(), TagValue::String("started".to_string()))],
        logs[0].fields
    );
    assert_eq!(
        vec![("event".to_string(), TagValue::String("later".to_string()))],
        logs[2].fields
    );
}

#[test]
fn finishing_keeps_the_baggage() {
    let mut span = MockSpan::new("op".to_string(), MockSpanContext::new(Vec::new()));
    span.set_baggage_item("key", "value".to_string());
    let finished = span.finish_at(42);
    assert_eq!(finished.context().baggage_items(), vec![pair("key", "value")]);
    let other = MockSpan::new("op".to_string(), MockSpanContext::new(vec![pair("a", "b")]));
    let finished = other.finish();
    assert_eq!(finished.context().baggage_items(), vec![pair("a", "b")]);
}

#[test]
fn finished_span_holds_its_context() {
    let finished = FinishedSpan::new(MockSpanContext::new(vec![pair("x", "y")]));
    assert_eq!(finished.context().baggage_items(), vec![pair("x", "y")]);
}

#[test]
fn noop_span_keeps_nothing() {
    let mut span = NoopSpan::new();
    span.set_tag("k", TagValue::U64(1));
    span.set_baggage_item("k", "v".to_string());
    span.log("event".to_string());
    span.log_at(3, "event".to_string());
    assert_eq!("NoopSpan", span.operation_name().as_str());
    span.set_operation_name("renamed");
    assert_eq!(None, span.tag("k"));
    assert_eq!(None, span.baggage_item("k"));
    assert_eq!("renamed", span.operation_name().as_str());
    assert!(span.context().baggage_items().is_empty());
    let finished = span.finish();
    assert!(finished.context().baggage_items().is_empty());
    let finished = NoopSpan::new().finish_at(10);
    assert!(finished.context().baggage_items().is_empty());
}
