//! Scripted fault injection for byte streams.
//!
//! A wrapper owns a stream and a script of [`PartialOp`]s. Each read, write or
//! flush consumes one scripted operation, which lets the call through, caps the
//! number of bytes it may move, or replaces it by an injected error. A script
//! that has run out lets everything through.

pub mod op;
pub mod script;
pub mod source;
pub mod stream;
pub mod memory;
pub mod intercept;
pub mod notify;
pub mod write;
pub mod async_write;
pub mod read;
pub mod laws;
pub mod runs;

pub use async_write::PartialAsyncWrite;
pub use notify::{Notifier, NotifyCount, Silent};
pub use op::{Fault, FaultKind, Operation, PartialOp};
pub use read::PartialRead;
pub use script::{make_ops, OpSource, Script};
pub use source::{OpList, Repeat};
pub use stream::{AsyncByteSink, ByteSink, ByteSource, Readiness};
pub use write::PartialWrite;
