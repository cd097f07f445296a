//! The streams that a wrapper can stand in front of.
//!
//! Each trait describes a stream by relations between its state before a call,
//! its state after it and what the call reported. A stream that says nothing
//! about itself keeps the relations as they are declared here, which allow
//! everything; the wrappers' contracts then state what was handed to the
//! stream, and that its answer came back as it was.

use vstd::prelude::*;

verus! {

/// A stream that accepts bytes.
pub trait ByteSink: Sized {
    /// The stream's own error.
    type Error;

    /// Whether one `write` of `data` can take the stream from `pre` to `post`
    /// and report `result`.
    open spec fn wrote(
        pre: Self,
        data: Seq<u8>,
        post: Self,
        result: Result<usize, Self::Error>,
    ) -> bool {
        true
    }

    /// Whether one `flush` can take the stream from `pre` to `post` and report
    /// `result`.
    open spec fn flushed(pre: Self, post: Self, result: Result<(), Self::Error>) -> bool {
        true
    }

    /// Offers `data` to the stream, which reports how many leading bytes it
    /// took.
    fn write(&mut self, data: &[u8]) -> (result: Result<usize, Self::Error>)
        ensures
            Self::wrote(*old(self), data@, *final(self), result),
    ;

    /// Pushes buffered bytes on to their destination.
    fn flush(&mut self) -> (result: Result<(), Self::Error>)
        ensures
            Self::flushed(*old(self), *final(self), result),
    ;
}

/// Whether a stream has finished shutting down.
#[derive(Clone, Copy, Debug, PartialEq, Eq, Structural, Hash)]
pub enum Readiness {
    /// The shutdown is complete.
    Ready,
    /// The shutdown is under way; ask again later.
    NotReady,
}

/// A sink that can be shut down without blocking.
pub trait AsyncByteSink: ByteSink {
    /// Whether one `shutdown` can take the stream from `pre` to `post` and
    /// report `result`.
    open spec fn shut(pre: Self, post: Self, result: Result<Readiness, Self::Error>) -> bool {
        true
    }

    /// Starts or continues the stream's shutdown.
    fn shutdown(&mut self) -> (result: Result<Readiness, Self::Error>)
        ensures
            Self::shut(*old(self), *final(self), result),
    ;
}

/// A stream that gives bytes.
pub trait ByteSource: Sized {
    /// The stream's own error.
    type Error;

    /// Whether one `read` into a buffer that held `before` can take the stream
    /// from `pre` to `post`, leave `after` in the buffer and report `result`.
    open spec fn filled(
        pre: Self,
        before: Seq<u8>,
        post: Self,
        after: Seq<u8>,
        result: Result<usize, Self::Error>,
    ) -> bool {
        true
    }

    /// Reads into `buf`, at most as many bytes as it holds, and reports how
    /// many leading bytes of it were filled.
    fn read(&mut self, buf: &mut [u8]) -> (result: Result<usize, Self::Error>)
        ensures
            final(buf)@.len() == old(buf)@.len(),
            Self::filled(*old(self), old(buf)@, *final(self), final(buf)@, result),
    ;
}

} // verus!
