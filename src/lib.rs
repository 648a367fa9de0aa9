//! A vendor-neutral tracing instrumentation interface: the canonical tag, log
//! field and reference vocabularies, the span and span context capabilities,
//! and the text-map carrier protocol used to propagate a context.

mod text;

pub mod context;
pub mod field;
pub mod mock;
pub mod noop;
pub mod propagation;
pub mod reference;
pub mod span;
pub mod string_map;
pub mod tag;

pub use context::SpanContext;
pub use field::{Fields, ParseFieldsError};
pub use mock::{MockSpan, MockSpanContext};
pub use noop::{NoopSpan, NoopSpanContext};
pub use propagation::{PropagationError, PropagationOption, TextMapCarrier, TextMapReader, TextMapWriter};
pub use reference::{ParseReferencesError, References};
pub use span::{FinishSpanOptions, FinishedSpan, LogRecord, Span};
pub use tag::{ParseTagsError, TagValue, Tags};
