use vstd::prelude::*;
use vstd::string::StringExecFns;
use crate::text::str_eq;

verus! {

/// The kinds of causal reference that one span can hold to another.
#[derive(Clone, Copy, PartialEq, Eq, Structural, PartialOrd, Ord, Debug, Hash)]
pub enum References {
    /// The parent span depends on the child span's result.
    ChildOf,
    /// The span is causally related to the other one but does not block on it.
    FollowsFrom,
}

/// The error of parsing a string that names no reference kind.
#[derive(Clone, Copy, PartialEq, Eq, Structural, PartialOrd, Ord, Debug, Hash)]
pub enum ParseReferencesError {
    /// The string is not the canonical name of any reference kind.
    UnknownReference,
}

/// The canonical name of a reference kind.
pub open spec fn reference_name(r: References) -> Seq<char> {
    match r {
        References::ChildOf => "child_of"@,
        References::FollowsFrom => "follows_from"@,
    }
}

/// What parsing `s` yields: the reference kind whose canonical name is `s`.
pub open spec fn parse_reference(s: Seq<char>) -> Result<References, ParseReferencesError> {
    if exists|t: References| reference_name(t) == s {
        Ok(choose|t: References| reference_name(t) == s)
    } else {
        Err(ParseReferencesError::UnknownReference)
    }
}

/// No two reference kinds share a canonical name.
pub proof fn lemma_reference_names_distinct(a: References, b: References)
    requires
        reference_name(a) == reference_name(b),
    ensures
        a == b,
{
    reveal_strlit("child_of");
    reveal_strlit("follows_from");
    assert("child_of"@.len() != "follows_from"@.len());
}

/// Parsing the canonical name of a reference kind gives that reference kind back.
pub proof fn lemma_reference_round_trip(t: References)
    ensures
        parse_reference(reference_name(t)) == Ok::<References, ParseReferencesError>(t),
{
    let c = choose|c: References| reference_name(c) == reference_name(t);
    lemma_reference_names_distinct(c, t);
}

impl References {
    /// The canonical name of this reference kind.
    pub fn as_str(&self) -> (r: &'static str)
        ensures
            r@ == reference_name(*self),
    {
        match *self {
            References::ChildOf => "child_of",
            References::FollowsFrom => "follows_from",
        }
    }

    /// The canonical name of this reference kind, as an owned string.
    pub fn to_string(&self) -> (r: String)
        ensures
            r@ == reference_name(*self),
    {
        String::from_str(self.as_str())
    }

    /// The reference kind whose canonical name is `s`.
    pub fn parse(s: &str) -> (r: Result<References, ParseReferencesError>)
        ensures
            r == parse_reference(s@),
    {
        let r = if str_eq(s, "child_of") {
            Ok(References::ChildOf)
        } else if str_eq(s, "follows_from") {
            Ok(References::FollowsFrom)
        } else {
            Err(ParseReferencesError::UnknownReference)
        };
        proof {
            match r {
                Ok(t) => lemma_reference_round_trip(t),
                Err(_) => {
                    assert forall|t: References| #[trigger] reference_name(t) != s@ by {}
                },
            }
        }
        r
    }
}

impl std::str::FromStr for References {
    type Err = ParseReferencesError;

    fn from_str(s: &str) -> (r: Result<References, ParseReferencesError>)
        ensures
            r == parse_reference(s@),
    {
        References::parse(s)
    }
}

impl ParseReferencesError {
    /// A short description of the error.
    pub fn description(&self) -> (r: &'static str)
        ensures
            r@ == "Unknown Reference"@,
    {
        "Unknown Reference"
    }
}

} // verus!
