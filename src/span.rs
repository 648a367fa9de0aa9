use vstd::prelude::*;
use crate::context::SpanContext;
use crate::field::{field_name, Fields};
use crate::tag::TagValue;

verus! {

/// A timestamped record of structured fields logged on a span.
pub struct LogRecord {
    /// When the record was made.
    pub timestamp: u64,
    /// The fields, each a key and a value.
    pub fields: Vec<(String, TagValue)>,
}

/// What finishing a span with explicit options records.
pub struct FinishSpanOptions {
    /// When the span finished.
    pub finish_time: u64,
    /// Log records to add to the span as it finishes.
    pub log_records: Vec<LogRecord>,
}

/// Whether `r` records the single field `event` with the value `event`.
pub open spec fn records_event(r: LogRecord, event: String) -> bool {
    &&& r.fields@.len() == 1
    &&& r.fields@[0].0@ == field_name(Fields::Event)
    &&& r.fields@[0].1 == TagValue::String(event)
}

/// Whether `after` is `before` with one record of `event` appended.
pub open spec fn appends_event(before: Seq<LogRecord>, after: Seq<LogRecord>, event: String) -> bool {
    &&& after.len() == before.len() + 1
    &&& after.drop_last() == before
    &&& records_event(after.last(), event)
}

impl LogRecord {
    /// A record of `event` under the field key `event`, made at `timestamp`.
    pub fn event(timestamp: u64, event: String) -> (r: LogRecord)
        ensures
            r.timestamp == timestamp,
            records_event(r, event),
    {
        let mut fields: Vec<(String, TagValue)> = Vec::new();
        fields.push((Fields::Event.to_string(), TagValue::String(event)));
        LogRecord { timestamp, fields }
    }
}

/// Whether `after` is `before` with the tag `key` set to `value`, where the
/// span keeps its tags, and is `before` unchanged where it does not.
/// This is what `Span::set_tag` ensures of the span before and after.
pub open spec fn sets_tag<S: Span>(before: S, after: S, key: Seq<char>, value: TagValue) -> bool {
    &&& after.records() == before.records()
    &&& after.tags() == if before.records() { before.tags().insert(key, value) } else { before.tags() }
    &&& after.baggage() == before.baggage()
    &&& after.operation() == before.operation()
    &&& after.logs() == before.logs()
}

/// Whether `after` is `before` with no tag `key`.
/// This is what `Span::unset_tag` ensures of the span before and after.
pub open spec fn unsets_tag<S: Span>(before: S, after: S, key: Seq<char>) -> bool {
    &&& after.records() == before.records()
    &&& after.tags() == before.tags().remove(key)
    &&& after.baggage() == before.baggage()
    &&& after.operation() == before.operation()
    &&& after.logs() == before.logs()
}

/// Whether `after` is `before` with the baggage item `key` set to `value`,
/// where the span keeps its baggage, and is `before` unchanged where it does not.
/// This is what `Span::set_baggage_item` ensures of the span before and after.
pub open spec fn sets_baggage<S: Span>(before: S, after: S, key: Seq<char>, value: String) -> bool {
    &&& after.records() == before.records()
    &&& after.baggage() == if before.records() { before.baggage().insert(key, value) } else { before.baggage() }
    &&& after.tags() == before.tags()
    &&& after.operation() == before.operation()
    &&& after.logs() == before.logs()
}

/// Whether `after` is `before` with no baggage item `key`.
/// This is what `Span::unset_baggage_item` ensures of the span before and after.
pub open spec fn unsets_baggage<S: Span>(before: S, after: S, key: Seq<char>) -> bool {
    &&& after.records() == before.records()
    &&& after.baggage() == before.baggage().remove(key)
    &&& after.tags() == before.tags()
    &&& after.operation() == before.operation()
    &&& after.logs() == before.logs()
}

/// Whether `after` is `before` with one record of `event` appended, where the
/// span keeps its logs, and is `before` unchanged where it does not.
/// This is what `Span::log` ensures of the span before and after.
pub open spec fn logs_event<S: Span>(before: S, after: S, event: String) -> bool {
    &&& after.records() == before.records()
    &&& if before.records() {
        appends_event(before.logs(), after.logs(), event)
    } else {
        after.logs() == before.logs()
    }
    &&& after.tags() == before.tags()
    &&& after.baggage() == before.baggage()
    &&& after.operation() == before.operation()
}

/// Whether `value` is what a lookup of `key` in `map` returns.
pub open spec fn looked_up<T>(map: Map<Seq<char>, T>, key: Seq<char>, value: Option<&T>) -> bool {
    match value {
        Some(v) => map.contains_key(key) && *v == map[key],
        None => !map.contains_key(key),
    }
}

/// A named, timed unit of work: tags, baggage, an operation name and log
/// records, until it is finished. Finishing takes the span by value, so a
/// finished span cannot be changed or finished again.
pub trait Span: Sized {
    /// The context that the span carries.
    type Context: SpanContext;

    /// Whether the span keeps the tags, baggage items and log records set on
    /// it; one that does not drops them.
    spec fn records(&self) -> bool;

    /// The tags: each key to its value.
    spec fn tags(&self) -> Map<Seq<char>, TagValue>;

    /// The baggage, which is that of the span's context.
    spec fn baggage(&self) -> Map<Seq<char>, String>;

    /// The name of the operation that the span stands for.
    spec fn operation(&self) -> Seq<char>;

    /// The log records, oldest first.
    spec fn logs(&self) -> Seq<LogRecord>;

    /// The span's context.
    fn context(&self) -> (r: &Self::Context)
        ensures
            r.baggage() == self.baggage(),
    ;

    /// Sets the tag `key` to `value`.
    fn set_tag(&mut self, key: &str, value: TagValue)
        ensures
            final(self).records() == old(self).records(),
            final(self).tags() == if old(self).records() { old(self).tags().insert(key@, value) } else { old(self).tags() },
            final(self).baggage() == old(self).baggage(),
            final(self).operation() == old(self).operation(),
            final(self).logs() == old(self).logs(),
    ;

    /// Removes the tag `key`, if there is one.
    fn unset_tag(&mut self, key: &str)
        ensures
            final(self).records() == old(self).records(),
            final(self).tags() == old(self).tags().remove(key@),
            final(self).baggage() == old(self).baggage(),
            final(self).operation() == old(self).operation(),
            final(self).logs() == old(self).logs(),
    ;

    /// The value of the tag `key`, if it is set.
    fn tag(&self, key: &str) -> (r: Option<&TagValue>)
        ensures
            looked_up(self.tags(), key@, r),
    ;

    /// Records `event` at the current wall-clock time.
    fn log(&mut self, event: String)
        ensures
            final(self).records() == old(self).records(),
            if old(self).records() { appends_event(old(self).logs(), final(self).logs(), event) } else { final(self).logs() == old(self).logs() },
            final(self).tags() == old(self).tags(),
            final(self).baggage() == old(self).baggage(),
            final(self).operation() == old(self).operation(),
    ;

    /// Records `event` at `timestamp`.
    fn log_at(&mut self, timestamp: u64, event: String)
        ensures
            final(self).records() == old(self).records(),
            if old(self).records() { appends_event(old(self).logs(), final(self).logs(), event) } else { final(self).logs() == old(self).logs() },
            final(self).tags() == old(self).tags(),
            final(self).baggage() == old(self).baggage(),
            final(self).operation() == old(self).operation(),
            old(self).records() ==> final(self).logs().last().timestamp == timestamp,
    ;

    /// Sets the baggage item `key` to `value`.
    fn set_baggage_item(&mut self, key: &str, value: String)
        ensures
            final(self).records() == old(self).records(),
            final(self).baggage() == if old(self).records() { old(self).baggage().insert(key@, value) } else { old(self).baggage() },
            final(self).tags() == old(self).tags(),
            final(self).operation() == old(self).operation(),
            final(self).logs() == old(self).logs(),
    ;

    /// Removes the baggage item `key`, if there is one.
    fn unset_baggage_item(&mut self, key: &str)
        ensures
            final(self).records() == old(self).records(),
            final(self).baggage() == old(self).baggage().remove(key@),
            final(self).tags() == old(self).tags(),
            final(self).operation() == old(self).operation(),
            final(self).logs() == old(self).logs(),
    ;

    /// The value of the baggage item `key`, if it is set.
    fn baggage_item(&self, key: &str) -> (r: Option<&String>)
        ensures
            looked_up(self.baggage(), key@, r),
    ;

    /// Names the operation `name`.
    fn set_operation_name(&mut self, name: &str)
        ensures
            final(self).operation() == name@,
            final(self).records() == old(self).records(),
            final(self).tags() == old(self).tags(),
            final(self).baggage() == old(self).baggage(),
            final(self).logs() == old(self).logs(),
    ;

    /// The name of the operation.
    fn operation_name(&self) -> (r: &String)
        ensures
            r@ == self.operation(),
    ;

    /// Finishes the span at the current wall-clock time.
    fn finish(self) -> (r: FinishedSpan<Self::Context>)
        ensures
            r.held().baggage() == self.baggage(),
    ;

    /// Finishes the span at `timestamp`.
    fn finish_at(self, timestamp: u64) -> (r: FinishedSpan<Self::Context>)
        ensures
            r.held().baggage() == self.baggage(),
    ;
}

/// On a span that keeps its tags, a tag that is set reads back as the value
/// set, and once it is unset it reads as absent; other tags are untouched.
pub proof fn lemma_tag_symmetry<S: Span>(before: S, set: S, unset: S, key: Seq<char>, other: Seq<char>, value: TagValue)
    requires
        before.records(),
        sets_tag(before, set, key, value),
        unsets_tag(set, unset, key),
        other != key,
    ensures
        set.tags().contains_key(key),
        set.tags()[key] == value,
        !unset.tags().contains_key(key),
        unset.tags().contains_key(other) == before.tags().contains_key(other),
        before.tags().contains_key(other) ==> unset.tags()[other] == before.tags()[other],
{
}

/// On a span that keeps its baggage, a baggage item that is set reads back
/// as the value set, and once it is unset it reads as absent; other items are
/// untouched.
pub proof fn lemma_baggage_symmetry<S: Span>(before: S, set: S, unset: S, key: Seq<char>, other: Seq<char>, value: String)
    requires
        before.records(),
        sets_baggage(before, set, key, value),
        unsets_baggage(set, unset, key),
        other != key,
    ensures
        set.baggage().contains_key(key),
        set.baggage()[key] == value,
        !unset.baggage().contains_key(key),
        unset.baggage().contains_key(other) == before.baggage().contains_key(other),
        before.baggage().contains_key(other) ==> unset.baggage()[other] == before.baggage()[other],
{
}

/// On a span that keeps nothing, no sequence of settings and logs makes a
/// tag, a baggage item or a log record appear.
pub proof fn lemma_dropping_span_stays_empty<S: Span>(before: S, after: S, key: Seq<char>, tag: TagValue, item: String, event: String)
    requires
        !before.records(),
        sets_tag(before, after, key, tag) || sets_baggage(before, after, key, item) || logs_event(before, after, event),
    ensures
        !after.records(),
        after.tags() == before.tags(),
        after.baggage() == before.baggage(),
        after.logs() == before.logs(),
{
}

/// What is left of a span once it is finished: its context, and nothing
/// that could change it.
pub struct FinishedSpan<C> {
    context: C,
}

impl<C: SpanContext> FinishedSpan<C> {
    /// The context that the finished span holds.
    pub closed spec fn held(&self) -> C {
        self.context
    }

    /// A finished span that holds `context`.
    pub fn new(context: C) -> (r: FinishedSpan<C>)
        ensures
            r.held() == context,
    {
        FinishedSpan { context }
    }

    /// The context of the finished span.
    pub fn context(&self) -> (r: &C)
        ensures
            *r == self.held(),
    {
        &self.context
    }
}

} // verus!
