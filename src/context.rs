use vstd::prelude::*;
use crate::string_map::{entries_map, keys_unique};

verus! {

/// Whether `items` lists each entry of `baggage` exactly once.
pub open spec fn lists_baggage(items: Seq<(String, String)>, baggage: Map<Seq<char>, String>) -> bool {
    keys_unique(items) && entries_map(items) == baggage
}

/// The state of a span that propagates to descendant spans and across
/// process boundaries: its baggage, string keys to string values.
pub trait SpanContext {
    /// The baggage: each key to its value.
    spec fn baggage(&self) -> Map<Seq<char>, String>;

    /// The baggage items as key/value pairs, each key once, in no particular order.
    fn baggage_items(&self) -> (r: Vec<(String, String)>)
        ensures
            lists_baggage(r@, self.baggage()),
    ;
}

} // verus!
