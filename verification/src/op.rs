//! Scripted operations and the decisions they stand for.

use vstd::prelude::*;

verus! {

/// The category of an injected error.
#[derive(Clone, Copy, Debug, PartialEq, Eq, Structural, Hash)]
pub enum FaultKind {
    /// The operation would block; the caller is expected to try again.
    WouldBlock,
    /// The operation was interrupted and can be retried at once.
    Interrupted,
    /// The operation ran out of time.
    TimedOut,
    /// The other end of the stream went away.
    BrokenPipe,
    /// The stream ended before the operation was complete.
    UnexpectedEof,
    /// Any other failure.
    Other,
}

/// One scripted decision, applied to one call on a wrapped stream.
#[derive(Clone, Copy, Debug, PartialEq, Eq, Structural, Hash)]
pub enum PartialOp {
    /// Let at most this many bytes through.
    Limited(usize),
    /// Let the call through as it is.
    Unlimited,
    /// Fail the call with an injected error of this kind.
    Fail(FaultKind),
}

/// The call that an injected error stood in for.
#[derive(Clone, Copy, Debug, PartialEq, Eq, Structural, Hash)]
pub enum Operation {
    Read,
    Write,
    Flush,
}

/// What a call reports when it fails: an error made up by the wrapper, or the
/// wrapped stream's own error, untouched.
#[derive(Debug)]
pub enum Fault<E> {
    /// An error that the script asked for. The stream was not called.
    Injected { kind: FaultKind, during: Operation },
    /// An error that the wrapped stream returned.
    Stream(E),
}

/// The error that a scripted item puts in place of the call, if it does.
/// A script that has run out injects nothing.
pub open spec fn injected(op: Option<PartialOp>) -> Option<FaultKind> {
    match op {
        Some(PartialOp::Fail(kind)) => Some(kind),
        _ => None,
    }
}

/// The smaller of a limit and a length.
pub open spec fn at_most(limit: usize, len: nat) -> nat {
    if limit <= len {
        limit as nat
    } else {
        len
    }
}

/// How many bytes of a request for `len` bytes are handed on to the stream:
/// all of them, or the limit where the operation sets a lower one.
pub open spec fn forwarded_len(op: Option<PartialOp>, len: nat) -> nat {
    match op {
        Some(PartialOp::Limited(n)) => at_most(n, len),
        _ => len,
    }
}

/// Whether a failed call has to ask its task to be polled again: only an
/// injected would-block error does.
pub open spec fn wants_wakeup(op: Option<PartialOp>) -> bool {
    op == Some(PartialOp::Fail(FaultKind::WouldBlock))
}

/// What the wrapped stream itself reported, if it was called at all.
pub open spec fn stream_result<T, E>(result: Result<T, Fault<E>>) -> Option<Result<T, E>> {
    match result {
        Ok(value) => Some(Ok(value)),
        Err(Fault::Stream(error)) => Some(Err(error)),
        Err(Fault::Injected { .. }) => None,
    }
}

/// The text that goes with an error injected into `during`.
pub open spec fn fault_message(during: Operation) -> Seq<char> {
    match during {
        Operation::Read => "error during read, generated by partial-io"@,
        Operation::Write => "error during write, generated by partial-io"@,
        Operation::Flush => "error during flush, generated by partial-io"@,
    }
}

impl Operation {
    /// The fixed text that marks an error as injected into this operation.
    pub fn message(self) -> (text: &'static str)
        ensures
            text@ == fault_message(self),
    {
        match self {
            Operation::Read => "error during read, generated by partial-io",
            Operation::Write => "error during write, generated by partial-io",
            Operation::Flush => "error during flush, generated by partial-io",
        }
    }
}

impl PartialOp {
    /// Whether the call fails with an injected would-block error.
    pub fn retryable(op: Option<PartialOp>) -> (wake: bool)
        ensures
            wake == wants_wakeup(op),
    {
        match op {
            Some(PartialOp::Fail(FaultKind::WouldBlock)) => true,
            _ => false,
        }
    }
}

impl<E> Fault<E> {
    /// Wraps what the stream reported, success or its own error.
    pub fn from_stream<T>(reported: Result<T, E>) -> (result: Result<T, Fault<E>>)
        ensures
            stream_result(result) == Some(reported),
    {
        match reported {
            Ok(value) => Ok(value),
            Err(error) => Err(Fault::Stream(error)),
        }
    }

    /// Whether the wrapper made this error up.
    pub fn is_injected(&self) -> (yes: bool)
        ensures
            yes == (*self is Injected),
    {
        match self {
            Fault::Injected { .. } => true,
            Fault::Stream(_) => false,
        }
    }

    /// The fixed text of an injected error; none for an error of the stream.
    pub fn message(&self) -> (text: Option<&'static str>)
        ensures
            match *self {
                Fault::Injected { during, .. } => text is Some && text.unwrap()@ == fault_message(
                    during,
                ),
                Fault::Stream(_) => text is None,
            },
    {
        match self {
            Fault::Injected { during, .. } => Some(during.message()),
            Fault::Stream(_) => None,
        }
    }

    /// The category of an injected error; none for an error of the stream.
    pub fn kind(&self) -> (kind: Option<FaultKind>)
        ensures
            kind == (match *self {
                Fault::Injected { kind, .. } => Some(kind),
                Fault::Stream(_) => None,
            }),
    {
        match self {
            Fault::Injected { kind, .. } => Some(*kind),
            Fault::Stream(_) => None,
        }
    }
}

} // verus!
