//! A write-buffering library: items are accumulated in a buffer and flushed in
//! batches to a caller-supplied sink, triggered either by a row-count
//! threshold or by an elapsed-time deadline (optionally jittered).

pub mod error;
pub mod inserter;
pub mod quantities;
pub mod sink;
pub mod ticks;

pub use error::InserterError;
pub use inserter::Inserter;
pub use quantities::Quantities;
pub use sink::BatchSink;
pub use sink::CommitObserver;
pub use ticks::Ticks;
