use vstd::prelude::*;
use vstd::string::StringExecFns;
use crate::text::str_eq;

verus! {

/// The log fields recommended for recording more about a logged event.
#[derive(Clone, Copy, PartialEq, Eq, Structural, PartialOrd, Ord, Debug, Hash)]
pub enum Fields {
    /// The type or kind of an error, for logs whose event is an error.
    ErrorKind,
    /// The error object itself.
    ErrorObject,
    /// A stable identifier for a notable moment in the lifetime of a span.
    Event,
    /// A concise, human-readable, one-line message explaining the event.
    Message,
    /// A stack trace in platform-conventional format.
    Stack,
}

/// The error of parsing a string that names no log field.
#[derive(Clone, Copy, PartialEq, Eq, Structural, PartialOrd, Ord, Debug, Hash)]
pub enum ParseFieldsError {
    /// The string is not the canonical name of any log field.
    UnknownField,
}

/// The canonical name of a log field.
pub open spec fn field_name(t: Fields) -> Seq<char> {
    match t {
        Fields::ErrorKind => "error.kind"@,
        Fields::ErrorObject => "error.object"@,
        Fields::Event => "event"@,
        Fields::Message => "message"@,
        Fields::Stack => "stack"@,
    }
}

/// What parsing `s` yields: the log field whose canonical name is `s`.
pub open spec fn parse_field(s: Seq<char>) -> Result<Fields, ParseFieldsError> {
    if exists|t: Fields| field_name(t) == s {
        Ok(choose|t: Fields| field_name(t) == s)
    } else {
        Err(ParseFieldsError::UnknownField)
    }
}

/// No two log fields share a canonical name.
pub proof fn lemma_field_names_distinct(a: Fields, b: Fields)
    requires
        field_name(a) == field_name(b),
    ensures
        a == b,
{
    reveal_strlit("error.kind");
    assert("error.kind"@.len() == 10 && "error.kind"@[0] == 'e');
    reveal_strlit("error.object");
    assert("error.object"@.len() == 12 && "error.object"@[0] == 'e');
    reveal_strlit("event");
    assert("event"@.len() == 5 && "event"@[0] == 'e');
    reveal_strlit("message");
    assert("message"@.len() == 7 && "message"@[0] == 'm');
    reveal_strlit("stack");
    assert("stack"@.len() == 5 && "stack"@[0] == 's');
}

/// Parsing the canonical name of a log field gives that log field back.
pub proof fn lemma_field_round_trip(t: Fields)
    ensures
        parse_field(field_name(t)) == Ok::<Fields, ParseFieldsError>(t),
{
    let c = choose|c: Fields| field_name(c) == field_name(t);
    lemma_field_names_distinct(c, t);
}

impl Fields {
    /// The canonical name of this log field.
    pub fn as_str(&self) -> (r: &'static str)
        ensures
            r@ == field_name(*self),
    {
        match *self {
            Fields::ErrorKind => "error.kind",
            Fields::ErrorObject => "error.object",
            Fields::Event => "event",
            Fields::Message => "message",
            Fields::Stack => "stack",
        }
    }

    /// The canonical name of this log field, as an owned string.
    pub fn to_string(&self) -> (r: String)
        ensures
            r@ == field_name(*self),
    {
        String::from_str(self.as_str())
    }

    /// The log field whose canonical name is `s`.
    pub fn parse(s: &str) -> (r: Result<Fields, ParseFieldsError>)
        ensures
            r == parse_field(s@),
    {
        let r = if str_eq(s, "error.kind") {
            Ok(Fields::ErrorKind)
        } else if str_eq(s, "error.object") {
            Ok(Fields::ErrorObject)
        } else if str_eq(s, "event") {
            Ok(Fields::Event)
        } else if str_eq(s, "message") {
            Ok(Fields::Message)
        } else if str_eq(s, "stack") {
            Ok(Fields::Stack)
        } else {
            Err(ParseFieldsError::UnknownField)
        };
        proof {
            match r {
                Ok(t) => lemma_field_round_trip(t),
                Err(_) => {
                    assert forall|t: Fields| #[trigger] field_name(t) != s@ by {}
                },
            }
        }
        r
    }
}

impl std::str::FromStr for Fields {
    type Err = ParseFieldsError;

    fn from_str(s: &str) -> (r: Result<Fields, ParseFieldsError>)
        ensures
            r == parse_field(s@),
    {
        Fields::parse(s)
    }
}

impl ParseFieldsError {
    /// A short description of the error.
    pub fn description(&self) -> (r: &'static str)
        ensures
            r@ == "Unknown Field"@,
    {
        "Unknown Field"
    }
}

} // verus!
