//! How a wrapper asks for its task to be polled again.

use vstd::prelude::*;

verus! {

/// The way to tell a scheduler that the current task should be polled again.
///
/// An injected would-block error stands for no real event, so nothing else
/// would ever wake the task that received it.
pub trait Notifier: Sized {
    /// Whether one `notify` can take the notifier from `pre` to `post`. A
    /// notifier that says nothing here allows everything.
    open spec fn notified(pre: Self, post: Self) -> bool {
        true
    }

    /// Asks for the current task to be polled again.
    fn notify(&mut self)
        ensures
            Self::notified(*old(self), *final(self)),
    ;
}

/// The notifier for callers that are no task: it does nothing.
#[derive(Clone, Copy, Debug, PartialEq, Eq, Structural)]
pub struct Silent;

impl Notifier for Silent {
    open spec fn notified(pre: Self, post: Self) -> bool {
        post == pre
    }

    fn notify(&mut self) {
    }
}

/// A notifier that counts how often it was asked, up to `u64::MAX`.
#[derive(Clone, Copy, Debug, PartialEq, Eq, Structural)]
pub struct NotifyCount {
    pub count: u64,
}

impl NotifyCount {
    /// A counter at zero.
    pub fn new() -> (counter: Self)
        ensures
            counter.count == 0,
    {
        NotifyCount { count: 0 }
    }
}

impl Notifier for NotifyCount {
    open spec fn notified(pre: Self, post: Self) -> bool {
        post.count == if pre.count < u64::MAX { pre.count + 1 } else { pre.count as int }
    }

    fn notify(&mut self) {
        if self.count < u64::MAX {
            self.count += 1;
        }
    }
}

} // verus!
