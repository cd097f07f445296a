//! One scripted operation applied to one call: the rule that every wrapper
//! follows.

use vstd::prelude::*;
use vstd::slice::slice_subrange;
use crate::op::{forwarded_len, injected, stream_result, Fault, Operation, PartialOp};
use crate::stream::{ByteSink, ByteSource};

verus! {

/// Whether a `write` of `data` under `op` can take the stream from `pre` to
/// `post` and report `result`.
///
/// An injected error leaves the stream as it was. Otherwise the stream got one
/// `write` of the leading bytes that the operation lets through, and `result`
/// is what it reported.
pub open spec fn write_applied<W: ByteSink>(
    op: Option<PartialOp>,
    pre: W,
    data: Seq<u8>,
    post: W,
    result: Result<usize, Fault<W::Error>>,
) -> bool {
    match injected(op) {
        Some(kind) => {
            &&& post == pre
            &&& result == Err::<usize, Fault<W::Error>>(
                Fault::Injected { kind, during: Operation::Write },
            )
        },
        None => match stream_result(result) {
            Some(reported) => W::wrote(
                pre,
                data.take(forwarded_len(op, data.len()) as int),
                post,
                reported,
            ),
            None => false,
        },
    }
}

/// Whether a `flush` under `op` can take the stream from `pre` to `post` and
/// report `result`.
///
/// An injected error leaves the stream as it was. Otherwise the stream got one
/// `flush`, whatever limit the operation names, and `result` is what it
/// reported.
pub open spec fn flush_applied<W: ByteSink>(
    op: Option<PartialOp>,
    pre: W,
    post: W,
    result: Result<(), Fault<W::Error>>,
) -> bool {
    match injected(op) {
        Some(kind) => {
            &&& post == pre
            &&& result == Err::<(), Fault<W::Error>>(
                Fault::Injected { kind, during: Operation::Flush },
            )
        },
        None => match stream_result(result) {
            Some(reported) => W::flushed(pre, post, reported),
            None => false,
        },
    }
}

/// Whether a `read` under `op` into a buffer that held `before` can take the
/// stream from `pre` to `post`, leave `after` in the buffer and report
/// `result`.
///
/// An injected error leaves the stream and the buffer as they were. Otherwise
/// the stream got one `read` into the leading part of the buffer that the
/// operation lets through, the rest of the buffer is as it was, and `result`
/// is what the stream reported.
pub open spec fn read_applied<R: ByteSource>(
    op: Option<PartialOp>,
    pre: R,
    before: Seq<u8>,
    post: R,
    after: Seq<u8>,
    result: Result<usize, Fault<R::Error>>,
) -> bool {
    match injected(op) {
        Some(kind) => {
            &&& post == pre
            &&& after == before
            &&& result == Err::<usize, Fault<R::Error>>(
                Fault::Injected { kind, during: Operation::Read },
            )
        },
        None => {
            let n = forwarded_len(op, before.len()) as int;
            match stream_result(result) {
                Some(reported) => {
                    &&& after.len() == before.len()
                    &&& after.skip(n) == before.skip(n)
                    &&& R::filled(pre, before.take(n), post, after.take(n), reported)
                },
                None => false,
            }
        },
    }
}

/// Writes `data` to `inner` as `op` decides.
pub fn apply_write<W: ByteSink>(op: Option<PartialOp>, inner: &mut W, data: &[u8]) -> (result:
    Result<usize, Fault<W::Error>>)
    ensures
        write_applied(op, *old(inner), data@, *final(inner), result),
{
    match op {
        Some(PartialOp::Limited(n)) => {
            let len: usize = if n <= data.len() { n } else { data.len() };
            Fault::from_stream(inner.write(slice_subrange(data, 0, len)))
        },
        Some(PartialOp::Fail(kind)) => Err(Fault::Injected { kind, during: Operation::Write }),
        Some(PartialOp::Unlimited) | None => {
            assert(data@.take(data@.len() as int) =~= data@);
            Fault::from_stream(inner.write(data))
        },
    }
}

/// Flushes `inner` unless `op` injects an error.
pub fn apply_flush<W: ByteSink>(op: Option<PartialOp>, inner: &mut W) -> (result: Result<
    (),
    Fault<W::Error>,
>)
    ensures
        flush_applied(op, *old(inner), *final(inner), result),
{
    match op {
        Some(PartialOp::Fail(kind)) => Err(Fault::Injected { kind, during: Operation::Flush }),
        _ => Fault::from_stream(inner.flush()),
    }
}

/// Reads from `inner` into `buf` as `op` decides.
pub fn apply_read<R: ByteSource>(op: Option<PartialOp>, inner: &mut R, buf: &mut [u8]) -> (result:
    Result<usize, Fault<R::Error>>)
    ensures
        final(buf)@.len() == old(buf)@.len(),
        read_applied(op, *old(inner), old(buf)@, *final(inner), final(buf)@, result),
{
    match op {
        Some(PartialOp::Limited(n)) => {
            let len: usize = if n <= buf.len() { n } else { buf.len() };
            let ghost before = buf@;
            let (head, rest) = buf.split_at_mut(len);
            let reported = inner.read(head);
            let ghost filled = head@;
            let ghost kept = rest@;
            proof {
                assert(before.take(len as int) =~= before.subrange(0, len as int));
                assert(kept =~= before.skip(len as int));
                assert(buf@ == filled + kept);
                assert(buf@.take(len as int) =~= filled);
                assert(buf@.skip(len as int) =~= kept);
            }
            Fault::from_stream(reported)
        },
        Some(PartialOp::Fail(kind)) => Err(Fault::Injected { kind, during: Operation::Read }),
        Some(PartialOp::Unlimited) | None => {
            let ghost before = buf@;
            let reported = inner.read(buf);
            proof {
                let n = before.len() as int;
                assert(before.take(n) =~= before);
                assert(buf@.take(n) =~= buf@);
                assert(buf@.skip(n) =~= before.skip(n));
            }
            Fault::from_stream(reported)
        },
    }
}

} // verus!
