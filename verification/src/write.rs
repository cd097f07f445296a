//! A writer wrapper that breaks writes up as a script says.

use vstd::prelude::*;
use crate::intercept::{apply_flush, apply_write, flush_applied, write_applied};
use crate::op::{Fault, PartialOp};
use crate::script::{make_ops, OpSource, Script};
use crate::stream::ByteSink;

verus! {

/// A wrapper that lets each `write` and `flush` of the stream it owns go
/// through, go through in part, or fail, as the next operation of its script
/// says.
pub struct PartialWrite<W, S> {
    inner: W,
    ops: Script<S>,
}

impl<W: ByteSink, S: OpSource> PartialWrite<W, S> {
    /// The wrapped stream.
    pub closed spec fn stream(self) -> W {
        self.inner
    }

    /// The script, at the operation that the next call will consume.
    pub closed spec fn script(self) -> Script<S> {
        self.ops
    }

    /// Wraps `inner`, with `ops` as the script.
    pub fn new(inner: W, ops: S) -> (wrapper: Self)
        ensures
            wrapper.stream() == inner,
            wrapper.script().starts_at(ops),
    {
        PartialWrite { inner, ops: make_ops(ops) }
    }

    /// Replaces the script by `ops`. What was left of the old one is dropped:
    /// the next call consumes the first operation of `ops`.
    pub fn set_ops(&mut self, ops: S) -> (wrapper: &mut Self)
        ensures
            wrapper.stream() == old(self).stream(),
            wrapper.script().starts_at(ops),
            *final(self) == *final(wrapper),
    {
        self.ops = make_ops(ops);
        self
    }

    /// The wrapped stream.
    pub fn get_ref(&self) -> (inner: &W)
        ensures
            *inner == self.stream(),
    {
        &self.inner
    }

    /// The wrapped stream, to use directly. The script stays where it is.
    pub fn get_mut(&mut self) -> (inner: &mut W)
        ensures
            *inner == old(self).stream(),
            final(self).stream() == *final(inner),
            final(self).script() == old(self).script(),
    {
        &mut self.inner
    }

    /// Takes the wrapper apart and gives the stream back.
    pub fn into_inner(self) -> (inner: W)
        ensures
            inner == self.stream(),
    {
        self.inner
    }
}

impl<W: ByteSink, S: OpSource> ByteSink for PartialWrite<W, S> {
    type Error = Fault<W::Error>;

    /// A write consumes one operation of the script and applies it.
    open spec fn wrote(
        pre: Self,
        data: Seq<u8>,
        post: Self,
        result: Result<usize, Fault<W::Error>>,
    ) -> bool {
        exists|op: Option<PartialOp>|
            {
                &&& #[trigger] Script::stepped(pre.script(), post.script(), op)
                &&& write_applied(op, pre.stream(), data, post.stream(), result)
            }
    }

    /// A flush consumes one operation of the script and applies it.
    open spec fn flushed(pre: Self, post: Self, result: Result<(), Fault<W::Error>>) -> bool {
        exists|op: Option<PartialOp>|
            {
                &&& #[trigger] Script::stepped(pre.script(), post.script(), op)
                &&& flush_applied(op, pre.stream(), post.stream(), result)
            }
    }

    fn write(&mut self, data: &[u8]) -> (result: Result<usize, Fault<W::Error>>) {
        let op = self.ops.next();
        let result = apply_write(op, &mut self.inner, data);
        assert(Script::stepped(old(self).script(), self.script(), op));
        result
    }

    fn flush(&mut self) -> (result: Result<(), Fault<W::Error>>) {
        let op = self.ops.next();
        let result = apply_flush(op, &mut self.inner);
        assert(Script::stepped(old(self).script(), self.script(), op));
        result
    }
}

} // verus!
