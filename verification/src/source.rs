//! Ready-made sources of scripted operations.

use vstd::prelude::*;
use crate::op::PartialOp;
use crate::script::OpSource;

verus! {

/// A finite source: the operations of a list, first to last, then nothing.
pub struct OpList {
    ops: Vec<PartialOp>,
    taken: usize,
}

impl OpList {
    /// The operations that are still to come, in order.
    pub closed spec fn remaining(self) -> Seq<PartialOp> {
        if self.taken <= self.ops@.len() {
            self.ops@.skip(self.taken as int)
        } else {
            Seq::empty()
        }
    }

    /// A source that hands out `ops` in order.
    pub fn new(ops: Vec<PartialOp>) -> (list: Self)
        ensures
            list.remaining() == ops@,
    {
        OpList { ops, taken: 0 }
    }
}

impl OpSource for OpList {
    open spec fn yields(pre: Self, post: Self, op: Option<PartialOp>) -> bool {
        if pre.remaining().len() > 0 {
            op == Some(pre.remaining()[0]) && post.remaining() == pre.remaining().drop_first()
        } else {
            op is None && post.remaining() == pre.remaining()
        }
    }

    fn next_op(&mut self) -> (op: Option<PartialOp>) {
        if self.taken < self.ops.len() {
            let op = self.ops[self.taken];
            self.taken += 1;
            assert(self.remaining() =~= old(self).remaining().drop_first());
            Some(op)
        } else {
            assert(old(self).remaining() =~= Seq::empty());
            None
        }
    }
}

/// An endless source: the same operation, every time.
pub struct Repeat {
    pub op: PartialOp,
}

impl Repeat {
    /// A source that hands out `op` for ever.
    pub fn new(op: PartialOp) -> (source: Self)
        ensures
            source.op == op,
    {
        Repeat { op }
    }
}

impl OpSource for Repeat {
    open spec fn yields(pre: Self, post: Self, op: Option<PartialOp>) -> bool {
        op == Some(pre.op) && post == pre
    }

    fn next_op(&mut self) -> (op: Option<PartialOp>) {
        Some(self.op)
    }
}

} // verus!
