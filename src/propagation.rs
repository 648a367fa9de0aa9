use vstd::prelude::*;
use vstd::string::StringExecFns;
use crate::string_map::{entries_map, keys_unique, lemma_entry_in_map, StringMap};

verus! {

/// Why a span context could not be injected into or extracted from a carrier.
#[derive(Clone, Copy, PartialEq, Eq, Structural, Debug, Hash)]
pub enum PropagationError {
    /// The carrier encoding asked for is not implemented.
    UnsupportedFormat,
    /// The carrier holds no span context, as is expected for a root span.
    SpanContextNotFound,
    /// The carrier holds a span context that is not valid.
    InvalidSpanContext,
    /// The carrier itself is malformed.
    InvalidCarrier,
    /// The carrier holds a span context that cannot be decoded.
    SpanContextCorrupted,
}

/// The outcome of visiting a carrier entry: `None` to go on, or the error
/// that stops the enumeration.
pub type PropagationOption = Option<PropagationError>;

/// Whether `visitor`, called on some strings that read `key` and `value`,
/// may return `out`.
pub open spec fn visit_gives<F: Fn(&str, &str) -> PropagationOption>(
    visitor: F,
    key: Seq<char>,
    value: Seq<char>,
    out: PropagationOption,
) -> bool {
    exists|k: &str, v: &str| k@ == key && v@ == value && #[trigger] visitor.ensures((k, v), out)
}

/// Read access to a text carrier of string keys and string values, from which
/// a span context is extracted.
pub trait TextMapReader {
    /// The entries that the carrier holds.
    spec fn incoming(&self) -> Map<Seq<char>, Seq<char>>;

    /// Calls `visitor` on each entry. Where the visitor returns an error the
    /// enumeration stops and that error is returned; else `None`.
    fn foreach_key<F: Fn(&str, &str) -> PropagationOption>(&self, visitor: &F) -> (r: PropagationOption)
        requires
            forall|k: &str, v: &str| #[trigger] visitor.requires((k, v)),
        ensures
            r is None ==> forall|key: Seq<char>| #[trigger] self.incoming().contains_key(key)
                ==> visit_gives(*visitor, key, self.incoming()[key], None),
            r is Some ==> exists|key: Seq<char>| #[trigger] self.incoming().contains_key(key)
                && visit_gives(*visitor, key, self.incoming()[key], r),
    ;
}

/// Write access to a text carrier of string keys and string values, into
/// which a span context is injected.
pub trait TextMapWriter {
    /// The entries that the carrier holds.
    spec fn outgoing(&self) -> Map<Seq<char>, Seq<char>>;

    /// Sets the entry `key` to `value`, replacing any earlier one.
    fn set(&mut self, key: &str, value: &str)
        ensures
            final(self).outgoing() == old(self).outgoing().insert(key@, value@),
    ;
}

/// A carrier that keeps its entries in memory, in the order in which their
/// keys were first set.
pub struct TextMapCarrier {
    map: StringMap<String>,
}

impl TextMapCarrier {
    /// A carrier with no entries.
    pub fn new() -> (r: TextMapCarrier)
        ensures
            r.incoming() == Map::<Seq<char>, Seq<char>>::empty(),
            r.outgoing() == Map::<Seq<char>, Seq<char>>::empty(),
    {
        let r = TextMapCarrier { map: StringMap::new() };
        assert(r.map@.map_values(|s: String| s@) =~= Map::<Seq<char>, Seq<char>>::empty());
        r
    }

    /// The entries as pairs, in the order in which they are visited.
    pub closed spec fn pairs(&self) -> Seq<(String, String)> {
        self.map.entries()
    }

    /// Calls `visitor` on each entry in turn, and stops at the first error
    /// that it returns, which it returns in turn.
    pub fn visit_in_order<F: Fn(&str, &str) -> PropagationOption>(&self, visitor: &F) -> (r: PropagationOption)
        requires
            forall|k: &str, v: &str| #[trigger] visitor.requires((k, v)),
        ensures
            keys_unique(self.pairs()),
            match r {
                None => forall|i: int| 0 <= i < self.pairs().len()
                    ==> visit_gives(*visitor, #[trigger] self.pairs()[i].0@, self.pairs()[i].1@, None),
                Some(_) => exists|i: int| 0 <= i < self.pairs().len()
                    && (forall|j: int| 0 <= j < i
                        ==> visit_gives(*visitor, #[trigger] self.pairs()[j].0@, self.pairs()[j].1@, None))
                    && visit_gives(*visitor, self.pairs()[i].0@, self.pairs()[i].1@, r),
            },
    {
        let n = self.map.len();
        let mut i: usize = 0;
        while i < n
            invariant
                n == self.pairs().len(),
                keys_unique(self.pairs()),
                0 <= i <= n,
                forall|k: &str, v: &str| #[trigger] visitor.requires((k, v)),
                forall|j: int| 0 <= j < i
                    ==> visit_gives(*visitor, #[trigger] self.pairs()[j].0@, self.pairs()[j].1@, None),
            decreases n - i,
        {
            let entry = self.map.entry(i);
            let key = entry.0.as_str();
            let value = entry.1.as_str();
            let out = visitor(key, value);
            assert(visitor.ensures((key, value), out));
            if out.is_some() {
                return out;
            }
            i += 1;
        }
        None
    }
}

impl TextMapReader for TextMapCarrier {
    closed spec fn incoming(&self) -> Map<Seq<char>, Seq<char>> {
        self.map@.map_values(|s: String| s@)
    }

    fn foreach_key<F: Fn(&str, &str) -> PropagationOption>(&self, visitor: &F) -> (r: PropagationOption) {
        let r = self.visit_in_order(visitor);
        proof {
            let s = self.pairs();
            if r is None {
                assert forall|key: Seq<char>| #[trigger] self.incoming().contains_key(key)
                    implies visit_gives(*visitor, key, self.incoming()[key], None) by {
                    let i = choose|i: int| 0 <= i < s.len() && s[i].0@ == key;
                    lemma_entry_in_map(s, i);
                    assert(visit_gives(*visitor, s[i].0@, s[i].1@, None));
                }
            } else {
                let i = choose|i: int| 0 <= i < s.len()
                    && (forall|j: int| 0 <= j < i
                        ==> visit_gives(*visitor, #[trigger] s[j].0@, s[j].1@, None))
                    && visit_gives(*visitor, s[i].0@, s[i].1@, r);
                lemma_entry_in_map(s, i);
                assert(self.incoming().contains_key(s[i].0@));
            }
        }
        r
    }
}

impl TextMapWriter for TextMapCarrier {
    closed spec fn outgoing(&self) -> Map<Seq<char>, Seq<char>> {
        self.map@.map_values(|s: String| s@)
    }

    fn set(&mut self, key: &str, value: &str) {
        self.map.insert(String::from_str(key), String::from_str(value));
        assert(self.outgoing() =~= old(self).outgoing().insert(key@, value@));
    }
}

} // verus!
