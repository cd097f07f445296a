//! Scripts: where a wrapper gets its next operation from.

use vstd::prelude::*;
use crate::op::PartialOp;

verus! {

/// A producer of scripted operations, finite or endless.
///
/// A source may answer `None` and later produce operations again; [`Script`]
/// is what stops asking.
pub trait OpSource: Sized {
    /// Whether one call of `next_op` can take the source from `pre` to `post`
    /// and hand out `op`. A source that says nothing here allows everything.
    open spec fn yields(pre: Self, post: Self, op: Option<PartialOp>) -> bool {
        true
    }

    /// Hands out the next operation, or `None` when there is none now.
    fn next_op(&mut self) -> (op: Option<PartialOp>)
        ensures
            Self::yields(*old(self), *final(self), op),
    ;
}

/// A source with the rule that its end is final: once the source has answered
/// `None` it is never asked again, and every later operation is `None`.
pub struct Script<S> {
    source: S,
    exhausted: bool,
}

impl<S: OpSource> Script<S> {
    /// The source as it stands.
    pub closed spec fn source(self) -> S {
        self.source
    }

    /// Whether the source has run out before.
    pub closed spec fn is_exhausted(self) -> bool {
        self.exhausted
    }

    /// Whether the script stands at the first operation of `source`.
    pub open spec fn starts_at(self, source: S) -> bool {
        self.source() == source && !self.is_exhausted()
    }

    /// Whether one call of `next` can take the script from `pre` to `post` and
    /// hand out `op`.
    pub open spec fn stepped(pre: Self, post: Self, op: Option<PartialOp>) -> bool {
        if pre.is_exhausted() {
            op is None && post.is_exhausted() && post.source() == pre.source()
        } else {
            &&& S::yields(pre.source(), post.source(), op)
            &&& post.is_exhausted() == (op is None)
        }
    }

    /// Starts a script at the first operation of `source`.
    pub fn new(source: S) -> (script: Self)
        ensures
            script.starts_at(source),
    {
        Script { source, exhausted: false }
    }

    /// Hands out the next operation and moves past it. After the first `None`
    /// the source is left alone and the answer stays `None`.
    pub fn next(&mut self) -> (op: Option<PartialOp>)
        ensures
            Script::stepped(*old(self), *final(self), op),
    {
        if self.exhausted {
            None
        } else {
            let op = self.source.next_op();
            if op.is_none() {
                self.exhausted = true;
            }
            op
        }
    }
}

/// Wraps `source` into the script that a wrapper consumes.
pub fn make_ops<S: OpSource>(source: S) -> (script: Script<S>)
    ensures
        script.starts_at(source),
{
    Script::new(source)
}

} // verus!
