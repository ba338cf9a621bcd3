//! In-place terminal log updating.
//!
//! A `LogUpdate` repeatedly overwrites the last rendered block of text in a
//! terminal instead of appending new lines.  It tracks how many terminal
//! lines the previous render occupied and emits the matching ANSI erase
//! sequence before each new write, hides the cursor while it is alive, and
//! guarantees that the cursor is shown again when it is done or dropped.

pub mod escapes;
pub mod sink;
pub mod updater;

pub use escapes::count_newlines;
pub use sink::ByteSink;
pub use sink::MemSink;
pub use sink::SinkError;
pub use sink::StdoutSink;
pub use updater::LogUpdate;
