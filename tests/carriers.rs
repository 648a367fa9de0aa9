use opentracing::{PropagationError, TextMapCarrier, TextMapReader, TextMapWriter};
use std::cell::Cell;

fn carrier_ab() -> TextMapCarrier {
    let mut carrier = TextMapCarrier::new();
    carrier.set("a", "1");
    carrier.set("b", "2");
    carrier
}

#[test]
fn visitor_sees_each_pair_once() {
    let carrier = carrier_ab();
    let seen: std::cell::RefCell<Vec<(String, String)>> = std::cell::RefCell::new(Vec::new());
    let visitor = |k: &str, v: &str| {
        seen.borrow_mut().push((k.to_string(), v.to_string()));
        None
    };
    assert_eq!(None, carrier.foreach_key(&visitor));
    let mut pairs = seen.into_inner();
    pairs.sort();
    assert_eq!(
        pairs,
        vec![("a".to_string(), "1".to_string()), ("b".to_string(), "2".to_string())]
    );
}

#[test]
fn visitor_error_on_first_pair_stops_enumeration() {
    let carrier = carrier_ab();
    let calls = Cell::new(0);
    let visitor = |_k: &str, _v: &str| {
        calls.set(calls.get() + 1);
        Some(PropagationError::InvalidCarrier)
    };
    assert_eq!(Some(PropagationError::InvalidCarrier), carrier.foreach_key(&visitor));
    assert_eq!(1, calls.get());
}

#[test]
fn visitor_error_on_second_pair_is_returned() {
    let carrier = carrier_ab();
    let calls = Cell::new(0);
    let visitor = |k: &str, _v: &str| {
        calls.set(calls.get() + 1);
        if k == "b" {
            Some(PropagationError::SpanContextCorrupted)
        } else {
            None
        }
    };
    assert_eq!(Some(PropagationError::SpanContextCorrupted), carrier.foreach_key(&visitor));
    assert_eq!(2, calls.get());
}

#[test]
fn empty_carrier_visits_nothing() {
    let carrier = TextMapCarrier::new();
    let calls = Cell::new(0);
    let visitor = |_k: &str, _v: &str| {
        calls.set(calls.get() + 1);
        Some(PropagationError::SpanContextNotFound)
    };
    assert_eq!(None, carrier.foreach_key(&visitor));
    assert_eq!(0, calls.get());
}

#[test]
fn writer_set_replaces_the_value() {
    let mut carrier = carrier_ab();
    carrier.set("a", "3");
    let seen: std::cell::RefCell<Vec<(String, String)>> = std::cell::RefCell::new(Vec::new());
    let visitor = |k: &str, v: &str| {
        seen.borrow_mut().push((k.to_string(), v.to_string()));
        None
    };
    assert_eq!(None, carrier.visit_in_order(&visitor));
    assert_eq!(
        seen.into_inner(),
        vec![("a".to_string(), "3".to_string()), ("b".to_string(), "2".to_string())]
    );
}

#[test]
fn every_propagation_error_is_distinct() {
    let all = [
        PropagationError::UnsupportedFormat,
        PropagationError::SpanContextNotFound,
        PropagationError::InvalidSpanContext,
        PropagationError::InvalidCarrier,
        PropagationError::SpanContextCorrupted,
    ];
    for (i, a) in all.iter().enumerate() {
        for (j, b) in all.iter().enumerate() {
            assert_eq!(i == j, a == b);
        }
    }
}
