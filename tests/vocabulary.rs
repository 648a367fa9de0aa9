use opentracing::{
    Fields, ParseFieldsError, ParseReferencesError, ParseTagsError, References, TagValue, Tags,
};
use std::str::FromStr;

const ALL_TAGS: [Tags; 21] = [
    Tags::SpanKindClient,
    Tags::SpanKindServer,
    Tags::SpanKindProducer,
    Tags::SpanKindConsumer,
    Tags::HttpUrl,
    Tags::HttpStatus,
    Tags::HttpMethod,
    Tags::PeerHostIpv4,
    Tags::PeerHostIpv6,
    Tags::PeerService,
    Tags::PeerHostname,
    Tags::PeerPort,
    Tags::SamplingPriority,
    Tags::SpanKind,
    Tags::Component,
    Tags::Error,
    Tags::DbType,
    Tags::DbInstance,
    Tags::DbUser,
    Tags::DbStatement,
    Tags::MessageBusDestination,
];

const ALL_FIELDS: [Fields; 5] = [
    Fields::ErrorKind,
    Fields::ErrorObject,
    Fields::Event,
    Fields::Message,
    Fields::Stack,
];

#[test]
fn test_field_as_str() {
    assert_eq!("error.kind", Fields::ErrorKind.as_str());
    assert_eq!("error.object", Fields::ErrorObject.as_str());
    assert_eq!("event", Fields::Event.as_str());
    assert_eq!("message", Fields::Message.as_str());
    assert_eq!("stack", Fields::Stack.as_str());
}

#[test]
fn test_field_as_string() {
    assert_eq!(String::from("error.kind"), Fields::ErrorKind.to_string());
}

#[test]
fn test_field_from_string() {
    assert_eq!(Ok(Fields::Event), Fields::from_str("event"));
    assert_eq!(Ok(Fields::Message), "message".parse());
    assert_eq!(
        Err(ParseFieldsError::UnknownField),
        Fields::from_str("some_other_field")
    );
}

#[test]
fn test_reference_as_str() {
    assert_eq!("child_of", References::ChildOf.as_str());
    assert_eq!("follows_from", References::FollowsFrom.as_str());
}

#[test]
fn test_reference_as_string() {
    assert_eq!(String::from("child_of"), References::ChildOf.to_string());
    assert_eq!(
        String::from("follows_from"),
        References::FollowsFrom.to_string()
    );
}

#[test]
fn test_reference_from_string() {
    assert_eq!(Ok(References::ChildOf), References::from_str("child_of"));
    assert_eq!(Ok(References::FollowsFrom), "follows_from".parse());
    assert_eq!(
        Err(ParseReferencesError::UnknownReference),
        References::from_str("some_other_field")
    );
}

#[test]
fn test_tag_as_str() {
    assert_eq!("client", Tags::SpanKindClient.as_str());
}

#[test]
fn test_tag_as_string() {
    assert_eq!(String::from("client"), Tags::SpanKindClient.to_string());
}

#[test]
fn test_tag_from_string() {
    assert_eq!(Ok(Tags::Error), Tags::from_str("error"));
    assert_eq!(Ok(Tags::PeerHostIpv4), "peer.ipv4".parse());
    assert_eq!(
        Err(ParseTagsError::UnknownTag),
        Tags::from_str("some_other_field")
    );
}

#[test]
fn every_tag_round_trips() {
    for t in ALL_TAGS.iter() {
        assert_eq!(Ok(*t), Tags::parse(t.as_str()));
        assert_eq!(t.as_str(), t.to_string());
    }
}

#[test]
fn every_field_round_trips() {
    for f in ALL_FIELDS.iter() {
        assert_eq!(Ok(*f), Fields::parse(f.as_str()));
    }
}

#[test]
fn every_reference_round_trips() {
    for r in [References::ChildOf, References::FollowsFrom].iter() {
        assert_eq!(Ok(*r), References::parse(r.as_str()));
    }
}

#[test]
fn tag_names_match_the_canonical_table() {
    let names: Vec<&str> = ALL_TAGS.iter().map(|t| t.as_str()).collect();
    assert_eq!(
        names,
        vec![
            "client",
            "server",
            "producer",
            "consumer",
            "http.url",
            "http.status_code",
            "http.method",
            "peer.ipv4",
            "peer.ipv6",
            "peer.service",
            "peer.hostname",
            "peer.port",
            "sampling.priority",
            "span.kind",
            "component",
            "error",
            "db.type",
            "db.instance",
            "db.user",
            "db.statement",
            "message_bus.destination",
        ]
    );
}

#[test]
fn unknown_names_are_rejected_by_every_registry() {
    assert_eq!(Err(ParseTagsError::UnknownTag), Tags::parse("not-a-real-key"));
    assert_eq!(Err(ParseFieldsError::UnknownField), Fields::parse("not-a-real-key"));
    assert_eq!(
        Err(ParseReferencesError::UnknownReference),
        References::parse("not-a-real-key")
    );
}

#[test]
fn parsing_is_exact() {
    assert_eq!(Err(ParseTagsError::UnknownTag), Tags::parse(""));
    assert_eq!(Err(ParseTagsError::UnknownTag), Tags::parse("Client"));
    assert_eq!(Err(ParseTagsError::UnknownTag), Tags::parse("client "));
    assert_eq!(Err(ParseTagsError::UnknownTag), Tags::parse("peer.ipv"));
    assert_eq!(Err(ParseFieldsError::UnknownField), Fields::parse("error"));
    assert_eq!(Err(ParseReferencesError::UnknownReference), References::parse("child"));
}

#[test]
fn parse_errors_describe_themselves() {
    assert_eq!("Unknown Tag", ParseTagsError::UnknownTag.description());
    assert_eq!("Unknown Field", ParseFieldsError::UnknownField.description());
    assert_eq!(
        "Unknown Reference",
        ParseReferencesError::UnknownReference.description()
    );
}

#[test]
fn tag_values_compare_by_kind_and_value() {
    assert_eq!(TagValue::String("a".to_string()), TagValue::String("a".to_string()));
    assert_ne!(TagValue::String("a".to_string()), TagValue::String("b".to_string()));
    assert_eq!(TagValue::I64(-3), TagValue::I64(-3));
    assert_ne!(TagValue::I32(1), TagValue::U32(1));
    assert_ne!(TagValue::Bool(true), TagValue::NoValue);
    assert_eq!(TagValue::NoValue, TagValue::NoValue);
    assert_eq!(TagValue::U64(u64::MAX), TagValue::U64(u64::MAX));
}
