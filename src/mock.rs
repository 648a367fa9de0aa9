use vstd::prelude::*;
use vstd::string::StringExecFns;
use crate::context::{lists_baggage, SpanContext};
use crate::span::{FinishedSpan, LogRecord, Span};
use crate::string_map::{lemma_single_entry, StringMap};
use crate::tag::TagValue;

verus! {

/// The baggage that a list of pairs gives when each pair is set in turn:
/// where a key comes twice, the later value wins.
pub open spec fn baggage_of(pairs: Seq<(String, String)>) -> Map<Seq<char>, String>
    decreases pairs.len(),
{
    if pairs.len() == 0 {
        Map::empty()
    } else {
        baggage_of(pairs.drop_last()).insert(pairs.last().0@, pairs.last().1)
    }
}

/// A span context that keeps its baggage in memory.
pub struct MockSpanContext {
    baggage: StringMap<String>,
}

impl MockSpanContext {
    /// A context whose baggage is set from `baggage`, pair by pair.
    pub fn new(baggage: Vec<(String, String)>) -> (r: MockSpanContext)
        ensures
            r.baggage() == baggage_of(baggage@),
    {
        let ghost pairs = baggage@;
        let mut rest = baggage;
        let mut map: StringMap<String> = StringMap::new();
        assert(pairs.take(0) =~= Seq::<(String, String)>::empty());
        assert(pairs.skip(0) =~= pairs);
        while rest.len() > 0
            invariant
                rest@.len() <= pairs.len(),
                rest@ == pairs.skip(pairs.len() - rest@.len()),
                map@ == baggage_of(pairs.take(pairs.len() - rest@.len())),
            decreases rest@.len(),
        {
            let ghost done = pairs.len() - rest@.len();
            let (key, value) = rest.remove(0);
            assert(pairs[done] == (key, value));
            map.insert(key, value);
            assert(pairs.take(done + 1).drop_last() =~= pairs.take(done));
            assert(rest@ =~= pairs.skip(done + 1));
        }
        assert(pairs.take(pairs.len() as int) =~= pairs);
        MockSpanContext { baggage: map }
    }
}

impl SpanContext for MockSpanContext {
    closed spec fn baggage(&self) -> Map<Seq<char>, String> {
        self.baggage@
    }

    fn baggage_items(&self) -> (r: Vec<(String, String)>) {
        let n = self.baggage.len();
        let mut r: Vec<(String, String)> = Vec::new();
        let mut i: usize = 0;
        while i < n
            invariant
                n == self.baggage.entries().len(),
                0 <= i <= n,
                r@ == self.baggage.entries().take(i as int),
            decreases n - i,
        {
            let entry = self.baggage.entry(i);
            r.push((entry.0.clone(), entry.1.clone()));
            assert(r@ =~= self.baggage.entries().take(i + 1));
            i += 1;
        }
        assert(r@ =~= self.baggage.entries());
        r
    }
}

/// Relies on std::time::SystemTime::now: the current wall-clock time, read
/// as microseconds since the Unix epoch, or `None` where the clock is set
/// before the epoch.
#[verifier::external_body]
fn micros_since_epoch() -> (r: Option<u128>) {
    match std::time::SystemTime::now().duration_since(std::time::UNIX_EPOCH) {
        Ok(elapsed) => Some(elapsed.as_micros()),
        Err(_) => None,
    }
}

/// A timestamp for the current time: the microseconds since the Unix epoch,
/// held at `u64::MAX` beyond it, and 0 for a clock set before the epoch.
fn wall_clock_micros() -> (r: u64) {
    match micros_since_epoch() {
        Some(micros) => {
            if micros <= u64::MAX as u128 {
                micros as u64
            } else {
                u64::MAX
            }
        },
        None => 0,
    }
}

/// A span that keeps what is set on it in memory: tags, baggage in its
/// context, an operation name and log records.
pub struct MockSpan {
    ctx: MockSpanContext,
    tags: StringMap<TagValue>,
    op_name: String,
    logs: Vec<LogRecord>,
}

impl MockSpan {
    /// An open span named `operation_name`, carrying `context`, with no tags
    /// and no log records.
    pub fn new(operation_name: String, context: MockSpanContext) -> (r: MockSpan)
        ensures
            r.records(),
            r.tags() == Map::<Seq<char>, TagValue>::empty(),
            r.baggage() == context.baggage(),
            r.operation() == operation_name@,
            r.logs() == Seq::<LogRecord>::empty(),
    {
        MockSpan { ctx: context, tags: StringMap::new(), op_name: operation_name, logs: Vec::new() }
    }

    /// The log records, oldest first.
    pub fn log_records(&self) -> (r: &Vec<LogRecord>)
        ensures
            r@ == self.logs(),
    {
        &self.logs
    }
}

impl Span for MockSpan {
    type Context = MockSpanContext;

    open spec fn records(&self) -> bool {
        true
    }

    closed spec fn tags(&self) -> Map<Seq<char>, TagValue> {
        self.tags@
    }

    closed spec fn baggage(&self) -> Map<Seq<char>, String> {
        self.ctx.baggage()
    }

    closed spec fn operation(&self) -> Seq<char> {
        self.op_name@
    }

    closed spec fn logs(&self) -> Seq<LogRecord> {
        self.logs@
    }

    fn context(&self) -> (r: &MockSpanContext) {
        &self.ctx
    }

    fn set_tag(&mut self, key: &str, value: TagValue)
    {
        self.tags.insert(String::from_str(key), value);
        assert(self.tags@.remove(key@) =~= old(self).tags@.remove(key@));
    }

    fn unset_tag(&mut self, key: &str) {
        self.tags.remove(key);
    }

    fn tag(&self, key: &str) -> (r: Option<&TagValue>) {
        self.tags.get(key)
    }

    fn log(&mut self, event: String)
    {
        self.log_at(wall_clock_micros(), event);
    }

    fn log_at(&mut self, timestamp: u64, event: String)
    {
        let record = LogRecord::event(timestamp, event);
        self.logs.push(record);
        assert(self.logs@.drop_last() =~= old(self).logs@);
    }

    fn set_baggage_item(&mut self, key: &str, value: String)
    {
        self.ctx.baggage.insert(String::from_str(key), value);
        assert(self.ctx.baggage@.remove(key@) =~= old(self).ctx.baggage@.remove(key@));
    }

    fn unset_baggage_item(&mut self, key: &str) {
        self.ctx.baggage.remove(key);
    }

    fn baggage_item(&self, key: &str) -> (r: Option<&String>) {
        self.ctx.baggage.get(key)
    }

    fn set_operation_name(&mut self, name: &str)
    {
        self.op_name = String::from_str(name);
    }

    fn operation_name(&self) -> (r: &String) {
        &self.op_name
    }

    fn finish(self) -> (r: FinishedSpan<MockSpanContext>) {
        self.finish_at(wall_clock_micros())
    }

    fn finish_at(self, timestamp: u64) -> (r: FinishedSpan<MockSpanContext>) {
        FinishedSpan::new(self.ctx)
    }
}

/// Baggage that holds one key is listed as exactly that one pair; setting
/// the key again replaces its value, and the listing is still one pair.
pub proof fn lemma_baggage_last_write_wins(
    once: Seq<(String, String)>,
    twice: Seq<(String, String)>,
    key: Seq<char>,
    first: String,
    second: String,
)
    requires
        lists_baggage(once, Map::<Seq<char>, String>::empty().insert(key, first)),
        lists_baggage(twice, Map::<Seq<char>, String>::empty().insert(key, first).insert(key, second)),
    ensures
        once.len() == 1,
        once[0].0@ == key,
        once[0].1 == first,
        twice.len() == 1,
        twice[0].0@ == key,
        twice[0].1 == second,
{
    lemma_single_entry(once, key, first);
    assert(Map::<Seq<char>, String>::empty().insert(key, first).insert(key, second)
        =~= Map::<Seq<char>, String>::empty().insert(key, second));
    lemma_single_entry(twice, key, second);
}

} // verus!
