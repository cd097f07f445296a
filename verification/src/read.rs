//! A reader wrapper that breaks reads up as a script says.

use vstd::prelude::*;
use crate::intercept::{apply_read, read_applied};
use crate::op::{Fault, PartialOp};
use crate::script::{make_ops, OpSource, Script};
use crate::stream::ByteSource;

verus! {

/// A wrapper that lets each `read` of the stream it owns go through, go
/// through with a smaller buffer, or fail, as the next operation of its script
/// says.
pub struct PartialRead<R, S> {
    inner: R,
    ops: Script<S>,
}

impl<R: ByteSource, S: OpSource> PartialRead<R, S> {
    /// The wrapped stream.
    pub closed spec fn stream(self) -> R {
        self.inner
    }

    /// The script, at the operation that the next call will consume.
    pub closed spec fn script(self) -> Script<S> {
        self.ops
    }

    /// Wraps `inner`, with `ops` as the script.
    pub fn new(inner: R, ops: S) -> (wrapper: Self)
        ensures
            wrapper.stream() == inner,
            wrapper.script().starts_at(ops),
    {
        PartialRead { inner, ops: make_ops(ops) }
    }

    /// Replaces the script by `ops`. What was left of the old one is dropped:
    /// the next call consumes the first operation of `ops`.
    pub fn set_ops(&mut self, ops: S) -> (wrapper: &mut Self)
        ensures
            wrapper.stream() == old(self).stream(),
            wrapper.script().starts_at(ops),
            *final(self) == *final(wrapper),
    {
        self.ops = make_ops(ops);
        self
    }

    /// The wrapped stream.
    pub fn get_ref(&self) -> (inner: &R)
        ensures
            *inner == self.stream(),
    {
        &self.inner
    }

    /// The wrapped stream, to use directly. The script stays where it is.
    pub fn get_mut(&mut self) -> (inner: &mut R)
        ensures
            *inner == old(self).stream(),
            final(self).stream() == *final(inner),
            final(self).script() == old(self).script(),
    {
        &mut self.inner
    }

    /// Takes the wrapper apart and gives the stream back.
    pub fn into_inner(self) -> (inner: R)
        ensures
            inner == self.stream(),
    {
        self.inner
    }
}

impl<R: ByteSource, S: OpSource> ByteSource for PartialRead<R, S> {
    type Error = Fault<R::Error>;

    /// A read consumes one operation of the script and applies it.
    open spec fn filled(
        pre: Self,
        before: Seq<u8>,
        post: Self,
        after: Seq<u8>,
        result: Result<usize, Fault<R::Error>>,
    ) -> bool {
        exists|op: Option<PartialOp>|
            {
                &&& #[trigger] Script::stepped(pre.script(), post.script(), op)
                &&& read_applied(op, pre.stream(), before, post.stream(), after, result)
            }
    }

    fn read(&mut self, buf: &mut [u8]) -> (result: Result<usize, Fault<R::Error>>) {
        let op = self.ops.next();
        let result = apply_read(op, &mut self.inner, buf);
        assert(Script::stepped(old(self).script(), self.script(), op));
        result
    }
}

} // verus!
