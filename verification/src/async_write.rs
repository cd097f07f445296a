//! A writer wrapper for tasks: it breaks writes up as a script says, and has
//! the task polled again after an injected would-block error.

use vstd::prelude::*;
use crate::intercept::{apply_flush, apply_write, flush_applied, write_applied};
use crate::notify::Notifier;
use crate::op::{stream_result, wants_wakeup, Fault, PartialOp};
use crate::script::{OpSource, Script};
use crate::stream::{AsyncByteSink, ByteSink, Readiness};

verus! {

/// A wrapper that treats `write` and `flush` as [`crate::write::PartialWrite`]
/// does, and that notifies its task when a `write` fails with an injected
/// would-block error. A `flush` never notifies, and a shutdown goes to the
/// stream without a look at the script.
pub struct PartialAsyncWrite<W, S, N> {
    inner: W,
    ops: Script<S>,
    notifier: N,
}

/// Whether a call that did or did not ask for a wake-up can take the notifier
/// from `pre` to `post`: one `notify` where it did, none where it did not.
pub open spec fn notified_if<N: Notifier>(wanted: bool, pre: N, post: N) -> bool {
    if wanted {
        N::notified(pre, post)
    } else {
        post == pre
    }
}

impl<W: AsyncByteSink, S: OpSource, N: Notifier> PartialAsyncWrite<W, S, N> {
    /// The wrapped stream.
    pub closed spec fn stream(self) -> W {
        self.inner
    }

    /// The script, at the operation that the next call will consume.
    pub closed spec fn script(self) -> Script<S> {
        self.ops
    }

    /// The notifier.
    pub closed spec fn notifier(self) -> N {
        self.notifier
    }

    /// Wraps `inner`, with `ops` as the script and `notifier` to reach the
    /// scheduler.
    pub fn new(inner: W, ops: S, notifier: N) -> (wrapper: Self)
        ensures
            wrapper.stream() == inner,
            wrapper.script().starts_at(ops),
            wrapper.notifier() == notifier,
    {
        PartialAsyncWrite { inner, ops: Script::new(ops), notifier }
    }

    /// Replaces the script by `ops`. What was left of the old one is dropped:
    /// the next call consumes the first operation of `ops`.
    pub fn set_ops(&mut self, ops: S) -> (wrapper: &mut Self)
        ensures
            wrapper.stream() == old(self).stream(),
            wrapper.notifier() == old(self).notifier(),
            wrapper.script().starts_at(ops),
            *final(self) == *final(wrapper),
    {
        self.ops = Script::new(ops);
        self
    }

    /// The wrapped stream.
    pub fn get_ref(&self) -> (inner: &W)
        ensures
            *inner == self.stream(),
    {
        &self.inner
    }

    /// The wrapped stream, to use directly. The script and the notifier stay
    /// as they are.
    pub fn get_mut(&mut self) -> (inner: &mut W)
        ensures
            *inner == old(self).stream(),
            final(self).stream() == *final(inner),
            final(self).script() == old(self).script(),
            final(self).notifier() == old(self).notifier(),
    {
        &mut self.inner
    }

    /// Takes the wrapper apart and gives the stream back.
    pub fn into_inner(self) -> (inner: W)
        ensures
            inner == self.stream(),
    {
        self.inner
    }

    /// The notifier.
    pub fn get_notifier(&self) -> (notifier: &N)
        ensures
            *notifier == self.notifier(),
    {
        &self.notifier
    }
}

impl<W: AsyncByteSink, S: OpSource, N: Notifier> ByteSink for PartialAsyncWrite<W, S, N> {
    type Error = Fault<W::Error>;

    /// A write consumes one operation of the script and applies it; the task
    /// is notified if and only if the operation injects a would-block error.
    open spec fn wrote(
        pre: Self,
        data: Seq<u8>,
        post: Self,
        result: Result<usize, Fault<W::Error>>,
    ) -> bool {
        exists|op: Option<PartialOp>|
            {
                &&& #[trigger] Script::stepped(pre.script(), post.script(), op)
                &&& write_applied(op, pre.stream(), data, post.stream(), result)
                &&& notified_if(wants_wakeup(op), pre.notifier(), post.notifier())
            }
    }

    /// A flush consumes one operation of the script and applies it; the task
    /// is never notified.
    open spec fn flushed(pre: Self, post: Self, result: Result<(), Fault<W::Error>>) -> bool {
        &&& post.notifier() == pre.notifier()
        &&& exists|op: Option<PartialOp>|
            {
                &&& #[trigger] Script::stepped(pre.script(), post.script(), op)
                &&& flush_applied(op, pre.stream(), post.stream(), result)
            }
    }

    fn write(&mut self, data: &[u8]) -> (result: Result<usize, Fault<W::Error>>) {
        let op = self.ops.next();
        if PartialOp::retryable(op) {
            self.notifier.notify();
        }
        let result = apply_write(op, &mut self.inner, data);
        assert(Script::stepped(old(self).script(), self.script(), op));
        result
    }

    fn flush(&mut self) -> (result: Result<(), Fault<W::Error>>) {
        let op = self.ops.next();
        let result = apply_flush(op, &mut self.inner);
        assert(Script::stepped(old(self).script(), self.script(), op));
        result
    }
}

impl<W: AsyncByteSink, S: OpSource, N: Notifier> AsyncByteSink for PartialAsyncWrite<W, S, N> {
    /// A shutdown is the stream's own: the script and the notifier stay as
    /// they are, and the stream's answer comes back as it is.
    open spec fn shut(pre: Self, post: Self, result: Result<Readiness, Fault<W::Error>>) -> bool {
        &&& post.script() == pre.script()
        &&& post.notifier() == pre.notifier()
        &&& match stream_result(result) {
            Some(reported) => W::shut(pre.stream(), post.stream(), reported),
            None => false,
        }
    }

    fn shutdown(&mut self) -> (result: Result<Readiness, Fault<W::Error>>) {
        Fault::from_stream(self.inner.shutdown())
    }
}

} // verus!
