//! Utilities for keeping a running count of bytes moved through a stream.
//!
//! The `Counter` trait describes types that count things. Two decorators
//! implement it: `ReadCounter`, which wraps a byte source and counts the
//! bytes read through it, and `WriteCounter`, which wraps a byte sink and
//! counts the bytes written through it. Both pass data and errors through
//! unchanged; they only observe quantity.

mod counter;
mod mem;
mod read;
mod stream;
mod write;

pub use counter::lemma_count_accumulates;
pub use counter::sum_of;
pub use counter::Counter;
pub use mem::FailingStream;
pub use mem::MemReader;
pub use read::ReadCounter;
pub use stream::ByteSink;
pub use stream::ByteSource;
pub use stream::StreamError;
pub use write::WriteCounter;
