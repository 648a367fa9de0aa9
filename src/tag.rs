use vstd::prelude::*;
use vstd::string::StringExecFns;
use crate::text::str_eq;

verus! {

/// The span tags recommended for recording semantic information about a span.
#[derive(Clone, Copy, PartialEq, Eq, Structural, PartialOrd, Ord, Debug, Hash)]
pub enum Tags {
    /// The span represents the client side of a call.
    SpanKindClient,
    /// The span represents the server side of a call.
    SpanKindServer,
    /// The span represents the producer of a message.
    SpanKindProducer,
    /// The span represents the consumer of a message.
    SpanKindConsumer,
    /// The URL of the request.
    HttpUrl,
    /// The HTTP status code of the response.
    HttpStatus,
    /// The HTTP method of the request.
    HttpMethod,
    /// The IPv4 host address of the peer.
    PeerHostIpv4,
    /// The IPv6 host address of the peer.
    PeerHostIpv6,
    /// The service name of the peer.
    PeerService,
    /// The host name of the peer.
    PeerHostname,
    /// The port number of the peer.
    PeerPort,
    /// The priority of sampling this span.
    SamplingPriority,
    /// The relationship between spans, such as client or server.
    SpanKind,
    /// The module, library or package that is instrumented.
    Component,
    /// Whether the span ended in an error state.
    Error,
    /// The type of database.
    DbType,
    /// The instance name of the database.
    DbInstance,
    /// The user name of the database.
    DbUser,
    /// A database statement for the given database type.
    DbStatement,
    /// An address at which messages can be exchanged.
    MessageBusDestination,
}

/// The error of parsing a string that names no tag.
#[derive(Clone, Copy, PartialEq, Eq, Structural, PartialOrd, Ord, Debug, Hash)]
pub enum ParseTagsError {
    /// The string is not the canonical name of any tag.
    UnknownTag,
}

/// The canonical name of a tag.
pub open spec fn tag_name(t: Tags) -> Seq<char> {
    match t {
        Tags::SpanKindClient => "client"@,
        Tags::SpanKindServer => "server"@,
        Tags::SpanKindProducer => "producer"@,
        Tags::SpanKindConsumer => "consumer"@,
        Tags::HttpUrl => "http.url"@,
        Tags::HttpStatus => "http.status_code"@,
        Tags::HttpMethod => "http.method"@,
        Tags::PeerHostIpv4 => "peer.ipv4"@,
        Tags::PeerHostIpv6 => "peer.ipv6"@,
        Tags::PeerService => "peer.service"@,
        Tags::PeerHostname => "peer.hostname"@,
        Tags::PeerPort => "peer.port"@,
        Tags::SamplingPriority => "sampling.priority"@,
        Tags::SpanKind => "span.kind"@,
        Tags::Component => "component"@,
        Tags::Error => "error"@,
        Tags::DbType => "db.type"@,
        Tags::DbInstance => "db.instance"@,
        Tags::DbUser => "db.user"@,
        Tags::DbStatement => "db.statement"@,
        Tags::MessageBusDestination => "message_bus.destination"@,
    }
}

/// What parsing `s` yields: the tag whose canonical name is `s`.
pub open spec fn parse_tag(s: Seq<char>) -> Result<Tags, ParseTagsError> {
    if exists|t: Tags| tag_name(t) == s {
        Ok(choose|t: Tags| tag_name(t) == s)
    } else {
        Err(ParseTagsError::UnknownTag)
    }
}

/// No two tags share a canonical name.
pub proof fn lemma_tag_names_distinct(a: Tags, b: Tags)
    requires
        tag_name(a) == tag_name(b),
    ensures
        a == b,
{
    reveal_strlit("client");
    assert("client"@.len() == 6 && "client"@[0] == 'c' && "client"@[5] == 't');
    reveal_strlit("server");
    assert("server"@.len() == 6 && "server"@[0] == 's' && "server"@[5] == 'r');
    reveal_strlit("producer");
    assert("producer"@.len() == 8 && "producer"@[0] == 'p' && "producer"@[5] == 'c');
    reveal_strlit("consumer");
    assert("consumer"@.len() == 8 && "consumer"@[0] == 'c' && "consumer"@[5] == 'm');
    reveal_strlit("http.url");
    assert("http.url"@.len() == 8 && "http.url"@[0] == 'h' && "http.url"@[5] == 'u');
    reveal_strlit("http.status_code");
    assert("http.status_code"@.len() == 16 && "http.status_code"@[0] == 'h' && "http.status_code"@[5] == 's' && "http.status_code"@[8] == 't');
    reveal_strlit("http.method");
    assert("http.method"@.len() == 11 && "http.method"@[0] == 'h' && "http.method"@[5] == 'm' && "http.method"@[8] == 'h');
    reveal_strlit("peer.ipv4");
    assert("peer.ipv4"@.len() == 9 && "peer.ipv4"@[0] == 'p' && "peer.ipv4"@[5] == 'i' && "peer.ipv4"@[8] == '4');
    reveal_strlit("peer.ipv6");
    assert("peer.ipv6"@.len() == 9 && "peer.ipv6"@[0] == 'p' && "peer.ipv6"@[5] == 'i' && "peer.ipv6"@[8] == '6');
    reveal_strlit("peer.service");
    assert("peer.service"@.len() == 12 && "peer.service"@[0] == 'p' && "peer.service"@[5] == 's' && "peer.service"@[8] == 'v');
    reveal_strlit("peer.hostname");
    assert("peer.hostname"@.len() == 13 && "peer.hostname"@[0] == 'p' && "peer.hostname"@[5] == 'h' && "peer.hostname"@[8] == 't');
    reveal_strlit("peer.port");
    assert("peer.port"@.len() == 9 && "peer.port"@[0] == 'p' && "peer.port"@[5] == 'p' && "peer.port"@[8] == 't');
    reveal_strlit("sampling.priority");
    assert("sampling.priority"@.len() == 17 && "sampling.priority"@[0] == 's' && "sampling.priority"@[5] == 'i' && "sampling.priority"@[8] == '.');
    reveal_strlit("span.kind");
    assert("span.kind"@.len() == 9 && "span.kind"@[0] == 's' && "span.kind"@[5] == 'k' && "span.kind"@[8] == 'd');
    reveal_strlit("component");
    assert("component"@.len() == 9 && "component"@[0] == 'c' && "component"@[5] == 'n' && "component"@[8] == 't');
    reveal_strlit("error");
    assert("error"@.len() == 5 && "error"@[0] == 'e');
    reveal_strlit("db.type");
    assert("db.type"@.len() == 7 && "db.type"@[0] == 'd' && "db.type"@[5] == 'p');
    reveal_strlit("db.instance");
    assert("db.instance"@.len() == 11 && "db.instance"@[0] == 'd' && "db.instance"@[5] == 's' && "db.instance"@[8] == 'n');
    reveal_strlit("db.user");
    assert("db.user"@.len() == 7 && "db.user"@[0] == 'd' && "db.user"@[5] == 'e');
    reveal_strlit("db.statement");
    assert("db.statement"@.len() == 12 && "db.statement"@[0] == 'd' && "db.statement"@[5] == 'a' && "db.statement"@[8] == 'm');
    reveal_strlit("message_bus.destination");
    assert("message_bus.destination"@.len() == 23 && "message_bus.destination"@[0] == 'm' && "message_bus.destination"@[5] == 'g' && "message_bus.destination"@[8] == 'b');
}

/// Parsing the canonical name of a tag gives that tag back.
pub proof fn lemma_tag_round_trip(t: Tags)
    ensures
        parse_tag(tag_name(t)) == Ok::<Tags, ParseTagsError>(t),
{
    let c = choose|c: Tags| tag_name(c) == tag_name(t);
    lemma_tag_names_distinct(c, t);
}

impl Tags {
    /// The canonical name of this tag.
    pub fn as_str(&self) -> (r: &'static str)
        ensures
            r@ == tag_name(*self),
    {
        match *self {
            Tags::SpanKindClient => "client",
            Tags::SpanKindServer => "server",
            Tags::SpanKindProducer => "producer",
            Tags::SpanKindConsumer => "consumer",
            Tags::HttpUrl => "http.url",
            Tags::HttpStatus => "http.status_code",
            Tags::HttpMethod => "http.method",
            Tags::PeerHostIpv4 => "peer.ipv4",
            Tags::PeerHostIpv6 => "peer.ipv6",
            Tags::PeerService => "peer.service",
            Tags::PeerHostname => "peer.hostname",
            Tags::PeerPort => "peer.port",
            Tags::SamplingPriority => "sampling.priority",
            Tags::SpanKind => "span.kind",
            Tags::Component => "component",
            Tags::Error => "error",
            Tags::DbType => "db.type",
            Tags::DbInstance => "db.instance",
            Tags::DbUser => "db.user",
            Tags::DbStatement => "db.statement",
            Tags::MessageBusDestination => "message_bus.destination",
        }
    }

    /// The canonical name of this tag, as an owned string.
    pub fn to_string(&self) -> (r: String)
        ensures
            r@ == tag_name(*self),
    {
        String::from_str(self.as_str())
    }

    /// The tag whose canonical name is `s`.
    pub fn parse(s: &str) -> (r: Result<Tags, ParseTagsError>)
        ensures
            r == parse_tag(s@),
    {
        let r = if str_eq(s, "client") {
            Ok(Tags::SpanKindClient)
        } else if str_eq(s, "server") {
            Ok(Tags::SpanKindServer)
        } else if str_eq(s, "producer") {
            Ok(Tags::SpanKindProducer)
        } else if str_eq(s, "consumer") {
            Ok(Tags::SpanKindConsumer)
        } else if str_eq(s, "http.url") {
            Ok(Tags::HttpUrl)
        } else if str_eq(s, "http.status_code") {
            Ok(Tags::HttpStatus)
        } else if str_eq(s, "http.method") {
            Ok(Tags::HttpMethod)
        } else if str_eq(s, "peer.ipv4") {
            Ok(Tags::PeerHostIpv4)
        } else if str_eq(s, "peer.ipv6") {
            Ok(Tags::PeerHostIpv6)
        } else if str_eq(s, "peer.service") {
            Ok(Tags::PeerService)
        } else if str_eq(s, "peer.hostname") {
            Ok(Tags::PeerHostname)
        } else if str_eq(s, "peer.port") {
            Ok(Tags::PeerPort)
        } else if str_eq(s, "sampling.priority") {
            Ok(Tags::SamplingPriority)
        } else if str_eq(s, "span.kind") {
            Ok(Tags::SpanKind)
        } else if str_eq(s, "component") {
            Ok(Tags::Component)
        } else if str_eq(s, "error") {
            Ok(Tags::Error)
        } else if str_eq(s, "db.type") {
            Ok(Tags::DbType)
        } else if str_eq(s, "db.instance") {
            Ok(Tags::DbInstance)
        } else if str_eq(s, "db.user") {
            Ok(Tags::DbUser)
        } else if str_eq(s, "db.statement") {
            Ok(Tags::DbStatement)
        } else if str_eq(s, "message_bus.destination") {
            Ok(Tags::MessageBusDestination)
        } else {
            Err(ParseTagsError::UnknownTag)
        };
        proof {
            match r {
                Ok(t) => lemma_tag_round_trip(t),
                Err(_) => {
                    assert forall|t: Tags| #[trigger] tag_name(t) != s@ by {}
                },
            }
        }
        r
    }
}

impl std::str::FromStr for Tags {
    type Err = ParseTagsError;

    fn from_str(s: &str) -> (r: Result<Tags, ParseTagsError>)
        ensures
            r == parse_tag(s@),
    {
        Tags::parse(s)
    }
}

impl ParseTagsError {
    /// A short description of the error.
    pub fn description(&self) -> (r: &'static str)
        ensures
            r@ == "Unknown Tag"@,
    {
        "Unknown Tag"
    }
}

/// A value attached to a tag key.
#[derive(Clone, Debug)]
pub enum TagValue {
    /// A string.
    String(String),
    /// A boolean.
    Bool(bool),
    /// A signed 32-bit integer.
    I32(i32),
    /// An unsigned 32-bit integer.
    U32(u32),
    /// A signed 64-bit integer.
    I64(i64),
    /// An unsigned 64-bit integer.
    U64(u64),
    /// A tag that carries no value.
    NoValue,
}

/// Whether two tag values are of the same kind and hold the same value.
pub open spec fn tag_values_equal(a: TagValue, b: TagValue) -> bool {
    match (a, b) {
        (TagValue::String(x), TagValue::String(y)) => x@ == y@,
        (TagValue::Bool(x), TagValue::Bool(y)) => x == y,
        (TagValue::I32(x), TagValue::I32(y)) => x == y,
        (TagValue::U32(x), TagValue::U32(y)) => x == y,
        (TagValue::I64(x), TagValue::I64(y)) => x == y,
        (TagValue::U64(x), TagValue::U64(y)) => x == y,
        (TagValue::NoValue, TagValue::NoValue) => true,
        _ => false,
    }
}

impl PartialEq for TagValue {
    fn eq(&self, other: &TagValue) -> (r: bool) {
        match (self, other) {
            (TagValue::String(x), TagValue::String(y)) => *x == *y,
            (TagValue::Bool(x), TagValue::Bool(y)) => *x == *y,
            (TagValue::I32(x), TagValue::I32(y)) => *x == *y,
            (TagValue::U32(x), TagValue::U32(y)) => *x == *y,
            (TagValue::I64(x), TagValue::I64(y)) => *x == *y,
            (TagValue::U64(x), TagValue::U64(y)) => *x == *y,
            (TagValue::NoValue, TagValue::NoValue) => true,
            _ => false,
        }
    }
}

impl vstd::std_specs::cmp::PartialEqSpecImpl for TagValue {
    open spec fn obeys_eq_spec() -> bool {
        true
    }

    open spec fn eq_spec(&self, other: &TagValue) -> bool {
        tag_values_equal(*self, *other)
    }
}

} // verus!
