//! What holds of every script, stream and call.

use vstd::prelude::*;
use crate::async_write::PartialAsyncWrite;
use crate::intercept::{flush_applied, read_applied, write_applied};
use crate::notify::Notifier;
use crate::op::{at_most, stream_result, Fault, FaultKind, Operation, PartialOp};
use crate::script::{OpSource, Script};
use crate::stream::{AsyncByteSink, ByteSink, ByteSource};

verus! {

/// Under `Unlimited`, or with nothing left in the script, a write is the
/// stream's own write: the same bytes go in, and the stream's state and answer
/// come out.
pub proof fn unlimited_write_is_transparent<W: ByteSink>(
    op: Option<PartialOp>,
    pre: W,
    data: Seq<u8>,
    post: W,
    result: Result<usize, Fault<W::Error>>,
)
    requires
        op is None || op == Some(PartialOp::Unlimited),
    ensures
        write_applied(op, pre, data, post, result) <==> (stream_result(result) is Some && W::wrote(
            pre,
            data,
            post,
            stream_result(result).unwrap(),
        )),
{
    assert(data.take(data.len() as int) =~= data);
}

/// A flush is the stream's own flush under every operation that injects no
/// error: `Unlimited`, `Limited` with any limit, or nothing left in the
/// script.
pub proof fn unfailing_flush_is_transparent<W: ByteSink>(
    op: Option<PartialOp>,
    pre: W,
    post: W,
    result: Result<(), Fault<W::Error>>,
)
    requires
        !(op matches Some(PartialOp::Fail(_))),
    ensures
        flush_applied(op, pre, post, result) <==> (stream_result(result) is Some && W::flushed(
            pre,
            post,
            stream_result(result).unwrap(),
        )),
{
}

/// Under `Unlimited`, or with nothing left in the script, a read is the
/// stream's own read into the whole buffer.
pub proof fn unlimited_read_is_transparent<R: ByteSource>(
    op: Option<PartialOp>,
    pre: R,
    before: Seq<u8>,
    post: R,
    after: Seq<u8>,
    result: Result<usize, Fault<R::Error>>,
)
    requires
        op is None || op == Some(PartialOp::Unlimited),
    ensures
        read_applied(op, pre, before, post, after, result) <==> (after.len() == before.len()
            && stream_result(result) is Some && R::filled(
            pre,
            before,
            post,
            after,
            stream_result(result).unwrap(),
        )),
{
    let n = before.len() as int;
    assert(before.take(n) =~= before);
    if after.len() == before.len() {
        assert(after.take(n) =~= after);
        assert(after.skip(n) =~= before.skip(n));
    }
}

/// Under `Limited(n)` the stream gets one write of the first `min(n, m)` bytes
/// of the `m` that the caller offered, and the count that the stream reports
/// is the one that the caller gets. With `n = 0` that write is empty.
pub proof fn limited_write_forwards_prefix<W: ByteSink>(
    n: usize,
    pre: W,
    data: Seq<u8>,
    post: W,
    result: Result<usize, Fault<W::Error>>,
)
    ensures
        write_applied(Some(PartialOp::Limited(n)), pre, data, post, result) <==> (stream_result(
            result,
        ) is Some && W::wrote(
            pre,
            data.take(at_most(n, data.len()) as int),
            post,
            stream_result(result).unwrap(),
        )),
        data.take(at_most(n, data.len()) as int).len() == at_most(n, data.len()),
        n == 0 ==> data.take(at_most(n, data.len()) as int) == Seq::<u8>::empty(),
{
    assert(n == 0 ==> data.take(0) =~= Seq::<u8>::empty());
}

/// Under `Limited(n)` the stream gets one read into the first `min(n, m)`
/// bytes of a buffer of `m`; the rest of the buffer is not touched.
pub proof fn limited_read_forwards_prefix<R: ByteSource>(
    n: usize,
    pre: R,
    before: Seq<u8>,
    post: R,
    after: Seq<u8>,
    result: Result<usize, Fault<R::Error>>,
)
    ensures
        read_applied(Some(PartialOp::Limited(n)), pre, before, post, after, result) <==> {
            let k = at_most(n, before.len()) as int;
            &&& stream_result(result) is Some
            &&& after.len() == before.len()
            &&& after.skip(k) == before.skip(k)
            &&& R::filled(pre, before.take(k), post, after.take(k), stream_result(result).unwrap())
        },
        before.take(at_most(n, before.len()) as int).len() == at_most(n, before.len()),
{
}

/// Under `Fail(kind)` a write fails with an injected error of that kind, and
/// the stream is as it was: it was not called.
pub proof fn failed_write_spares_stream<W: ByteSink>(
    kind: FaultKind,
    pre: W,
    data: Seq<u8>,
    post: W,
    result: Result<usize, Fault<W::Error>>,
)
    ensures
        write_applied(Some(PartialOp::Fail(kind)), pre, data, post, result) <==> (post == pre
            && result == Err::<usize, Fault<W::Error>>(
            Fault::Injected { kind, during: Operation::Write },
        )),
{
}

/// Under `Fail(kind)` a flush fails with an injected error of that kind, and
/// the stream is as it was: it was not flushed.
pub proof fn failed_flush_spares_stream<W: ByteSink>(
    kind: FaultKind,
    pre: W,
    post: W,
    result: Result<(), Fault<W::Error>>,
)
    ensures
        flush_applied(Some(PartialOp::Fail(kind)), pre, post, result) <==> (post == pre && result
            == Err::<(), Fault<W::Error>>(Fault::Injected { kind, during: Operation::Flush })),
{
}

/// Under `Fail(kind)` a read fails with an injected error of that kind, and
/// the stream and the buffer are as they were.
pub proof fn failed_read_spares_stream<R: ByteSource>(
    kind: FaultKind,
    pre: R,
    before: Seq<u8>,
    post: R,
    after: Seq<u8>,
    result: Result<usize, Fault<R::Error>>,
)
    ensures
        read_applied(Some(PartialOp::Fail(kind)), pre, before, post, after, result) <==> (post
            == pre && after == before && result == Err::<usize, Fault<R::Error>>(
            Fault::Injected { kind, during: Operation::Read },
        )),
{
}

/// Whether a script can go through `states`, one call of `next` between each
/// state and the next, and hand out `ops`.
pub open spec fn script_run<S: OpSource>(
    states: Seq<Script<S>>,
    ops: Seq<Option<PartialOp>>,
) -> bool {
    &&& states.len() == ops.len() + 1
    &&& forall|i: int|
        0 <= i < ops.len() ==> #[trigger] Script::stepped(states[i], states[i + 1], ops[i])
}

/// A script that has run out answers `None` and stays as it is: the source is
/// not asked.
pub proof fn exhausted_script_stays<S: OpSource>(
    pre: Script<S>,
    post: Script<S>,
    op: Option<PartialOp>,
)
    requires
        pre.is_exhausted(),
        Script::stepped(pre, post, op),
    ensures
        op is None,
        post.is_exhausted(),
        post.source() == pre.source(),
{
}

/// Once a script has answered `None`, every later answer is `None`, and the
/// source is never asked again, whatever it could still produce.
pub proof fn exhaustion_is_final<S: OpSource>(
    states: Seq<Script<S>>,
    ops: Seq<Option<PartialOp>>,
    first: int,
    later: int,
)
    requires
        script_run(states, ops),
        0 <= first <= later < ops.len(),
        ops[first] is None,
    ensures
        ops[later] is None,
        states[later + 1].is_exhausted(),
        states[later + 1].source() == states[first + 1].source(),
    decreases later - first,
{
    assert(Script::stepped(states[first], states[first + 1], ops[first]));
    if later > first {
        exhaustion_is_final(states, ops, first, later - 1);
        assert(Script::stepped(states[later - 1 + 1], states[later + 1], ops[later]));
    }
}

/// The first operation that a script hands out after it was set is the first
/// one of its new source, whatever the script before it had left.
pub proof fn fresh_script_starts_at_source<S: OpSource>(
    source: S,
    script: Script<S>,
    after: Script<S>,
    op: Option<PartialOp>,
)
    requires
        script.starts_at(source),
        Script::stepped(script, after, op),
    ensures
        S::yields(source, after.source(), op),
        after.is_exhausted() == (op is None),
{
}

/// A write of the task-aware writer notifies its task once if it fails with
/// an injected would-block error, and leaves the notifier alone otherwise.
pub proof fn write_notifies_on_would_block_only<W: AsyncByteSink, S: OpSource, N: Notifier>(
    pre: PartialAsyncWrite<W, S, N>,
    data: Seq<u8>,
    post: PartialAsyncWrite<W, S, N>,
    result: Result<usize, Fault<W::Error>>,
)
    requires
        PartialAsyncWrite::wrote(pre, data, post, result),
    ensures
        if result == Err::<usize, Fault<W::Error>>(
            Fault::Injected { kind: FaultKind::WouldBlock, during: Operation::Write },
        ) {
            N::notified(pre.notifier(), post.notifier()) && post.stream() == pre.stream()
        } else {
            post.notifier() == pre.notifier()
        },
{
}

/// A flush of the task-aware writer never notifies its task, whatever error
/// it fails with.
pub proof fn flush_never_notifies<W: AsyncByteSink, S: OpSource, N: Notifier>(
    pre: PartialAsyncWrite<W, S, N>,
    post: PartialAsyncWrite<W, S, N>,
    result: Result<(), Fault<W::Error>>,
)
    requires
        PartialAsyncWrite::flushed(pre, post, result),
    ensures
        post.notifier() == pre.notifier(),
{
}

} // verus!
