//! Runs: what holds of a wrapper over any number of calls.

use vstd::prelude::*;
use crate::intercept::{flush_applied, read_applied, write_applied};
use crate::laws::{
    unfailing_flush_is_transparent, unlimited_read_is_transparent, unlimited_write_is_transparent,
};
use crate::op::{stream_result, Fault, PartialOp};
use crate::script::{OpSource, Script};
use crate::source::{OpList, Repeat};
use crate::read::PartialRead;
use crate::stream::{ByteSink, ByteSource};
use crate::write::PartialWrite;

verus! {

/// One call on a sink.
pub ghost enum SinkCall {
    Write(Seq<u8>),
    Flush,
}

/// What one call on a sink reported.
pub ghost enum SinkReply<E> {
    Wrote(Result<usize, E>),
    Flushed(Result<(), E>),
}

/// Whether `call` can take the stream from `pre` to `post` and report `reply`.
pub open spec fn sink_step<W: ByteSink>(
    pre: W,
    call: SinkCall,
    post: W,
    reply: SinkReply<W::Error>,
) -> bool {
    match call {
        SinkCall::Write(data) => reply matches SinkReply::Wrote(result) && W::wrote(
            pre,
            data,
            post,
            result,
        ),
        SinkCall::Flush => reply matches SinkReply::Flushed(result) && W::flushed(
            pre,
            post,
            result,
        ),
    }
}

/// Whether the stream can go through `states`, one call of `calls` between
/// each state and the next, and report `replies`.
pub open spec fn sink_run<W: ByteSink>(
    states: Seq<W>,
    calls: Seq<SinkCall>,
    replies: Seq<SinkReply<W::Error>>,
) -> bool {
    &&& states.len() == calls.len() + 1
    &&& replies.len() == calls.len()
    &&& forall|i: int|
        0 <= i < calls.len() ==> #[trigger] sink_step(
            states[i],
            calls[i],
            states[i + 1],
            replies[i],
        )
}

/// What the wrapped stream itself reported, if it was called at all.
pub open spec fn stream_reply<E>(reply: SinkReply<Fault<E>>) -> Option<SinkReply<E>> {
    match reply {
        SinkReply::Wrote(result) => match stream_result(result) {
            Some(reported) => Some(SinkReply::Wrote(reported)),
            None => None,
        },
        SinkReply::Flushed(result) => match stream_result(result) {
            Some(reported) => Some(SinkReply::Flushed(reported)),
            None => None,
        },
    }
}

/// Whether `calm` holds only of sources that hand out nothing but
/// `Unlimited` for as long as they hand out anything: a source of which it
/// holds answers `Unlimited` or `None`, and it still holds afterwards.
pub open spec fn keeps_unlimited<S: OpSource>(calm: spec_fn(S) -> bool) -> bool {
    forall|pre: S, post: S, op: Option<PartialOp>|
        calm(pre) && #[trigger] S::yields(pre, post, op) ==> calm(post) && (op is None || op
            == Some(PartialOp::Unlimited))
}

/// Whether a script is one that cannot alter a call: it has run out, or its
/// source is calm.
pub open spec fn is_idle<S: OpSource>(script: Script<S>, calm: spec_fn(S) -> bool) -> bool {
    script.is_exhausted() || calm(script.source())
}

/// The sources that repeat `Unlimited`.
pub open spec fn repeats_unlimited() -> spec_fn(Repeat) -> bool {
    |source: Repeat| source.op == PartialOp::Unlimited
}

/// The lists with nothing but `Unlimited` left in them.
pub open spec fn lists_unlimited() -> spec_fn(OpList) -> bool {
    |source: OpList|
        forall|i: int|
            0 <= i < source.remaining().len() ==> #[trigger] source.remaining()[i]
                == PartialOp::Unlimited
}

/// A source that repeats `Unlimited` hands out nothing else.
pub proof fn repeated_unlimited_is_calm()
    ensures
        keeps_unlimited(repeats_unlimited()),
{
}

/// A list with nothing but `Unlimited` left hands out nothing else. The empty
/// list is one of them.
pub proof fn unlimited_list_is_calm()
    ensures
        keeps_unlimited(lists_unlimited()),
{
    let calm = lists_unlimited();
    assert forall|pre: OpList, post: OpList, op: Option<PartialOp>|
        calm(pre) && #[trigger] OpList::yields(pre, post, op) implies calm(post) && (op is None
        || op == Some(PartialOp::Unlimited)) by {
        if pre.remaining().len() > 0 {
            assert(pre.remaining()[0] == PartialOp::Unlimited);
            assert forall|i: int| 0 <= i < post.remaining().len() implies #[trigger] post.remaining()[i]
                == PartialOp::Unlimited by {
                assert(post.remaining()[i] == pre.remaining()[i + 1]);
            }
        }
    }
}

/// A call on a writer with an idle script is the same call on its stream, and
/// leaves the script idle.
pub proof fn idle_step_is_transparent<W: ByteSink, S: OpSource>(
    pre: PartialWrite<W, S>,
    call: SinkCall,
    post: PartialWrite<W, S>,
    reply: SinkReply<Fault<W::Error>>,
    calm: spec_fn(S) -> bool,
)
    requires
        keeps_unlimited(calm),
        is_idle(pre.script(), calm),
        sink_step(pre, call, post, reply),
    ensures
        is_idle(post.script(), calm),
        stream_reply(reply) is Some,
        sink_step(pre.stream(), call, post.stream(), stream_reply(reply).unwrap()),
{
    match call {
        SinkCall::Write(data) => {
            let result = reply->Wrote_0;
            let op = choose|op: Option<PartialOp>|
                {
                    &&& #[trigger] Script::stepped(pre.script(), post.script(), op)
                    &&& write_applied(op, pre.stream(), data, post.stream(), result)
                };
            unlimited_write_is_transparent(op, pre.stream(), data, post.stream(), result);
        },
        SinkCall::Flush => {
            let result = reply->Flushed_0;
            let op = choose|op: Option<PartialOp>|
                {
                    &&& #[trigger] Script::stepped(pre.script(), post.script(), op)
                    &&& flush_applied(op, pre.stream(), post.stream(), result)
                };
            unfailing_flush_is_transparent(op, pre.stream(), post.stream(), result);
        },
    }
}

/// Along a run that starts with an idle script, the script is idle at every
/// state.
pub proof fn idle_run_stays_idle<W: ByteSink, S: OpSource>(
    wrappers: Seq<PartialWrite<W, S>>,
    calls: Seq<SinkCall>,
    replies: Seq<SinkReply<Fault<W::Error>>>,
    calm: spec_fn(S) -> bool,
    at: int,
)
    requires
        keeps_unlimited(calm),
        sink_run(wrappers, calls, replies),
        is_idle(wrappers[0].script(), calm),
        0 <= at <= calls.len(),
    ensures
        is_idle(wrappers[at].script(), calm),
    decreases at,
{
    if at > 0 {
        idle_run_stays_idle(wrappers, calls, replies, calm, at - 1);
        assert(sink_step(wrappers[at - 1], calls[at - 1], wrappers[at - 1 + 1], replies[at - 1]));
        idle_step_is_transparent(
            wrappers[at - 1],
            calls[at - 1],
            wrappers[at],
            replies[at - 1],
            calm,
        );
    }
}

/// A writer whose script is idle cannot be told from its stream: over any
/// sequence of writes and flushes no call fails with an injected error, and
/// the stream goes through the same calls, with the same bytes, and reports
/// what the caller gets.
pub proof fn idle_writer_is_transparent<W: ByteSink, S: OpSource>(
    wrappers: Seq<PartialWrite<W, S>>,
    calls: Seq<SinkCall>,
    replies: Seq<SinkReply<Fault<W::Error>>>,
    calm: spec_fn(S) -> bool,
)
    requires
        keeps_unlimited(calm),
        sink_run(wrappers, calls, replies),
        is_idle(wrappers[0].script(), calm),
    ensures
        forall|i: int| 0 <= i < replies.len() ==> stream_reply(#[trigger] replies[i]) is Some,
        sink_run(
            wrappers.map_values(|w: PartialWrite<W, S>| w.stream()),
            calls,
            replies.map_values(|r: SinkReply<Fault<W::Error>>| stream_reply(r).unwrap()),
        ),
{
    let streams = wrappers.map_values(|w: PartialWrite<W, S>| w.stream());
    let reported = replies.map_values(|r: SinkReply<Fault<W::Error>>| stream_reply(r).unwrap());
    assert forall|i: int| 0 <= i < calls.len() implies stream_reply(#[trigger] replies[i])
        is Some && sink_step(streams[i], calls[i], streams[i + 1], reported[i]) by {
        idle_run_stays_idle(wrappers, calls, replies, calm, i);
        assert(sink_step(wrappers[i], calls[i], wrappers[i + 1], replies[i]));
        idle_step_is_transparent(wrappers[i], calls[i], wrappers[i + 1], replies[i], calm);
    }
    assert forall|i: int| 0 <= i < calls.len() implies #[trigger] sink_step(
        streams[i],
        calls[i],
        streams[i + 1],
        reported[i],
    ) by {
        assert(stream_reply(replies[i]) is Some);
    }
}

/// Whether one `read` into each buffer of `before` can take the stream
/// through `states`, leave the buffers as `after` and report `results`.
pub open spec fn source_run<R: ByteSource>(
    states: Seq<R>,
    before: Seq<Seq<u8>>,
    after: Seq<Seq<u8>>,
    results: Seq<Result<usize, R::Error>>,
) -> bool {
    &&& states.len() == before.len() + 1
    &&& after.len() == before.len()
    &&& results.len() == before.len()
    &&& forall|i: int| 0 <= i < before.len() ==> (#[trigger] after[i]).len() == before[i].len()
    &&& forall|i: int|
        0 <= i < before.len() ==> #[trigger] R::filled(
            states[i],
            before[i],
            states[i + 1],
            after[i],
            results[i],
        )
}

/// A read on a reader with an idle script is the same read on its stream, and
/// leaves the script idle.
pub proof fn idle_read_is_transparent<R: ByteSource, S: OpSource>(
    pre: PartialRead<R, S>,
    before: Seq<u8>,
    post: PartialRead<R, S>,
    after: Seq<u8>,
    result: Result<usize, Fault<R::Error>>,
    calm: spec_fn(S) -> bool,
)
    requires
        keeps_unlimited(calm),
        is_idle(pre.script(), calm),
        PartialRead::filled(pre, before, post, after, result),
    ensures
        is_idle(post.script(), calm),
        after.len() == before.len(),
        stream_result(result) is Some,
        R::filled(pre.stream(), before, post.stream(), after, stream_result(result).unwrap()),
{
    let op = choose|op: Option<PartialOp>|
        {
            &&& #[trigger] Script::stepped(pre.script(), post.script(), op)
            &&& read_applied(op, pre.stream(), before, post.stream(), after, result)
        };
    unlimited_read_is_transparent(op, pre.stream(), before, post.stream(), after, result);
}

/// Along a run of reads that starts with an idle script, the script is idle
/// at every state.
pub proof fn idle_reads_stay_idle<R: ByteSource, S: OpSource>(
    wrappers: Seq<PartialRead<R, S>>,
    before: Seq<Seq<u8>>,
    after: Seq<Seq<u8>>,
    results: Seq<Result<usize, Fault<R::Error>>>,
    calm: spec_fn(S) -> bool,
    at: int,
)
    requires
        keeps_unlimited(calm),
        source_run(wrappers, before, after, results),
        is_idle(wrappers[0].script(), calm),
        0 <= at <= before.len(),
    ensures
        is_idle(wrappers[at].script(), calm),
    decreases at,
{
    if at > 0 {
        idle_reads_stay_idle(wrappers, before, after, results, calm, at - 1);
        assert(PartialRead::filled(
            wrappers[at - 1],
            before[at - 1],
            wrappers[at - 1 + 1],
            after[at - 1],
            results[at - 1],
        ));
        idle_read_is_transparent(
            wrappers[at - 1],
            before[at - 1],
            wrappers[at],
            after[at - 1],
            results[at - 1],
            calm,
        );
    }
}

/// A reader whose script is idle cannot be told from its stream: over any
/// sequence of reads no call fails with an injected error, and the stream goes
/// through the same reads, fills the same buffers with the same bytes, and
/// reports what the caller gets.
pub proof fn idle_reader_is_transparent<R: ByteSource, S: OpSource>(
    wrappers: Seq<PartialRead<R, S>>,
    before: Seq<Seq<u8>>,
    after: Seq<Seq<u8>>,
    results: Seq<Result<usize, Fault<R::Error>>>,
    calm: spec_fn(S) -> bool,
)
    requires
        keeps_unlimited(calm),
        source_run(wrappers, before, after, results),
        is_idle(wrappers[0].script(), calm),
    ensures
        forall|i: int| 0 <= i < results.len() ==> stream_result(#[trigger] results[i]) is Some,
        source_run(
            wrappers.map_values(|w: PartialRead<R, S>| w.stream()),
            before,
            after,
            results.map_values(|r: Result<usize, Fault<R::Error>>| stream_result(r).unwrap()),
        ),
{
    let streams = wrappers.map_values(|w: PartialRead<R, S>| w.stream());
    let reported = results.map_values(
        |r: Result<usize, Fault<R::Error>>| stream_result(r).unwrap(),
    );
    assert forall|i: int| 0 <= i < before.len() implies stream_result(#[trigger] results[i])
        is Some && after[i].len() == before[i].len() && R::filled(
        streams[i],
        before[i],
        streams[i + 1],
        after[i],
        reported[i],
    ) by {
        idle_reads_stay_idle(wrappers, before, after, results, calm, i);
        assert(PartialRead::filled(
            wrappers[i],
            before[i],
            wrappers[i + 1],
            after[i],
            results[i],
        ));
        idle_read_is_transparent(
            wrappers[i],
            before[i],
            wrappers[i + 1],
            after[i],
            results[i],
            calm,
        );
    }
    assert forall|i: int| 0 <= i < before.len() implies #[trigger] R::filled(
        streams[i],
        before[i],
        streams[i + 1],
        after[i],
        reported[i],
    ) by {
        assert(stream_result(results[i]) is Some);
    }
}

} // verus!
