//! Runtime of a call tracer: per-thread nesting depth, a per-thread view of
//! the source files, and a renderer that highlights what changed between two
//! consecutive trace lines.

pub mod event;
pub mod state;
pub mod highlight;
pub mod wrapper;

pub use event::{Class, Pos};
pub use event::{decimal_string, depth_label, specifier_text};
pub use state::{LineError, SourceFile, StateView, ThreadState};
pub use highlight::{Ink, Segment, Span, SpanKind, Trend, depth_trend, highlight, highlight_specifiers, render_line};
pub use wrapper::{Wrapper, WrapperView, statement};
