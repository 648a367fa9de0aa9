use vstd::prelude::*;
use vstd::string::StringExecFns;
use crate::context::SpanContext;
use crate::span::{FinishedSpan, LogRecord, Span};
use crate::string_map::entries_map;
use crate::tag::TagValue;

verus! {

/// A span context that carries no baggage.
pub struct NoopSpanContext {}

impl Default for NoopSpanContext {
    fn default() -> (r: NoopSpanContext)
        ensures
            r.baggage() == Map::<Seq<char>, String>::empty(),
    {
        NoopSpanContext {}
    }
}

impl SpanContext for NoopSpanContext {
    open spec fn baggage(&self) -> Map<Seq<char>, String> {
        Map::empty()
    }

    fn baggage_items(&self) -> (r: Vec<(String, String)>)
        ensures
            r@.len() == 0,
    {
        let r: Vec<(String, String)> = Vec::new();
        assert(entries_map(r@) =~= Map::<Seq<char>, String>::empty());
        r
    }
}

/// A span that keeps nothing but its operation name: tags, baggage and logs
/// are dropped.
pub struct NoopSpan {
    ctx: NoopSpanContext,
    op_name: String,
}

impl NoopSpan {
    /// A span with an empty context, named `NoopSpan`.
    pub fn new() -> (r: NoopSpan)
        ensures
            !r.records(),
            r.tags() == Map::<Seq<char>, TagValue>::empty(),
            r.baggage() == Map::<Seq<char>, String>::empty(),
            r.operation() == "NoopSpan"@,
            r.logs() == Seq::<LogRecord>::empty(),
    {
        NoopSpan { ctx: NoopSpanContext::default(), op_name: String::from_str("NoopSpan") }
    }
}

impl Span for NoopSpan {
    type Context = NoopSpanContext;

    open spec fn records(&self) -> bool {
        false
    }

    open spec fn tags(&self) -> Map<Seq<char>, TagValue> {
        Map::empty()
    }

    open spec fn baggage(&self) -> Map<Seq<char>, String> {
        Map::empty()
    }

    closed spec fn operation(&self) -> Seq<char> {
        self.op_name@
    }

    open spec fn logs(&self) -> Seq<LogRecord> {
        Seq::empty()
    }

    fn context(&self) -> (r: &NoopSpanContext) {
        &self.ctx
    }

    fn set_tag(&mut self, key: &str, value: TagValue) {
    }

    fn unset_tag(&mut self, key: &str) {
        assert(Map::<Seq<char>, TagValue>::empty().remove(key@) =~= Map::<Seq<char>, TagValue>::empty());
    }

    fn tag(&self, key: &str) -> (r: Option<&TagValue>)
        ensures
            r is None,
    {
        None
    }

    fn log(&mut self, event: String) {
    }

    fn log_at(&mut self, timestamp: u64, event: String) {
    }

    fn set_baggage_item(&mut self, key: &str, value: String) {
    }

    fn unset_baggage_item(&mut self, key: &str) {
        assert(Map::<Seq<char>, String>::empty().remove(key@) =~= Map::<Seq<char>, String>::empty());
    }

    fn baggage_item(&self, key: &str) -> (r: Option<&String>)
        ensures
            r is None,
    {
        None
    }

    fn set_operation_name(&mut self, name: &str) {
        self.op_name = String::from_str(name);
    }

    fn operation_name(&self) -> (r: &String) {
        &self.op_name
    }

    fn finish(self) -> (r: FinishedSpan<NoopSpanContext>)
        ensures
            r.held().baggage() == Map::<Seq<char>, String>::empty(),
    {
        self.finish_at(0)
    }

    fn finish_at(self, timestamp: u64) -> (r: FinishedSpan<NoopSpanContext>)
        ensures
            r.held().baggage() == Map::<Seq<char>, String>::empty(),
    {
        FinishedSpan::new(self.ctx)
    }
}

} // verus!
