use partial_io::memory::MemorySink;
use partial_io::{
    AsyncByteSink, ByteSink, Fault, FaultKind, Notifier, NotifyCount, OpList, Operation,
    PartialAsyncWrite, PartialOp, Readiness, Repeat, Silent,
};

/// A sink that counts its calls and needs two shutdown calls to finish.
struct SlowClose {
    writes: usize,
    flushes: usize,
    shutdowns: usize,
    fail_shutdown: bool,
}

impl SlowClose {
    fn new() -> Self {
        SlowClose { writes: 0, flushes: 0, shutdowns: 0, fail_shutdown: false }
    }
}

impl ByteSink for SlowClose {
    type Error = &'static str;

    fn write(&mut self, data: &[u8]) -> Result<usize, &'static str> {
        self.writes += 1;
        Ok(data.len())
    }

    fn flush(&mut self) -> Result<(), &'static str> {
        self.flushes += 1;
        Ok(())
    }
}

impl AsyncByteSink for SlowClose {
    fn shutdown(&mut self) -> Result<Readiness, &'static str> {
        self.shutdowns += 1;
        if self.fail_shutdown {
            Err("cannot close")
        } else if self.shutdowns < 2 {
            Ok(Readiness::NotReady)
        } else {
            Ok(Readiness::Ready)
        }
    }
}

/// A notifier that remembers the order of its calls among other events.
struct Journal {
    events: Vec<&'static str>,
}

impl Notifier for Journal {
    fn notify(&mut self) {
        self.events.push("notify");
    }
}

fn injected_kind<T, E>(result: Result<T, Fault<E>>) -> Option<(FaultKind, Operation)> {
    match result {
        Err(Fault::Injected { kind, during }) => Some((kind, during)),
        _ => None,
    }
}

#[test]
fn would_block_write_notifies_then_limited_write_goes_through() {
    let ops = OpList::new(vec![PartialOp::Fail(FaultKind::WouldBlock), PartialOp::Limited(2)]);
    let mut writer = PartialAsyncWrite::new(MemorySink::new(), ops, NotifyCount::new());
    let data = [1u8, 2, 3, 4];

    let first = writer.write(&data);
    assert_eq!(injected_kind(first), Some((FaultKind::WouldBlock, Operation::Write)));
    assert!(writer.get_ref().contents().is_empty());
    assert_eq!(writer.get_notifier().count, 1);

    let second = writer.write(&data);
    assert_eq!(second.ok(), Some(2));
    assert_eq!(writer.get_ref().contents(), &vec![1u8, 2]);
    assert_eq!(writer.get_notifier().count, 1);
}

#[test]
fn retried_writes_drain_the_buffer() {
    let ops = OpList::new(vec![PartialOp::Fail(FaultKind::WouldBlock), PartialOp::Limited(2)]);
    let mut writer = PartialAsyncWrite::new(MemorySink::new(), ops, NotifyCount::new());
    let data = [1u8, 2, 3, 4];
    let mut sent = 0;
    while sent < data.len() {
        match writer.write(&data[sent..]) {
            Ok(n) => sent += n,
            Err(fault) => assert_eq!(fault.kind(), Some(FaultKind::WouldBlock)),
        }
    }
    assert_eq!(writer.get_notifier().count, 1);
    assert_eq!(writer.into_inner().contents(), &vec![1u8, 2, 3, 4]);
}

#[test]
fn only_would_block_notifies() {
    let kinds = [
        FaultKind::Interrupted,
        FaultKind::TimedOut,
        FaultKind::BrokenPipe,
        FaultKind::UnexpectedEof,
        FaultKind::Other,
    ];
    for kind in kinds.iter() {
        let ops = Repeat::new(PartialOp::Fail(*kind));
        let mut writer = PartialAsyncWrite::new(SlowClose::new(), ops, NotifyCount::new());
        assert_eq!(injected_kind(writer.write(&[1])), Some((*kind, Operation::Write)));
        assert_eq!(writer.get_notifier().count, 0);
        assert_eq!(writer.get_ref().writes, 0);
    }
    let ops = OpList::new(vec![PartialOp::Unlimited, PartialOp::Limited(0), PartialOp::Limited(3)]);
    let mut writer = PartialAsyncWrite::new(SlowClose::new(), ops, NotifyCount::new());
    for _ in 0..5 {
        assert!(writer.write(&[1, 2]).is_ok());
    }
    assert_eq!(writer.get_notifier().count, 0);
    assert_eq!(writer.get_ref().writes, 5);
}

#[test]
fn every_would_block_write_notifies_once() {
    let ops = Repeat::new(PartialOp::Fail(FaultKind::WouldBlock));
    let mut writer = PartialAsyncWrite::new(SlowClose::new(), ops, NotifyCount::new());
    for expected in 1..=3u64 {
        assert!(writer.write(&[1]).is_err());
        assert_eq!(writer.get_notifier().count, expected);
    }
    assert_eq!(writer.get_ref().writes, 0);
}

#[test]
fn would_block_flush_does_not_notify() {
    let ops = Repeat::new(PartialOp::Fail(FaultKind::WouldBlock));
    let mut writer = PartialAsyncWrite::new(SlowClose::new(), ops, NotifyCount::new());
    let result = writer.flush();
    assert_eq!(injected_kind(result), Some((FaultKind::WouldBlock, Operation::Flush)));
    assert_eq!(writer.get_notifier().count, 0);
    assert_eq!(writer.get_ref().flushes, 0);
}

#[test]
fn interrupted_flush_is_not_forwarded() {
    let ops = OpList::new(vec![PartialOp::Fail(FaultKind::Interrupted)]);
    let mut writer = PartialAsyncWrite::new(SlowClose::new(), ops, Silent);
    let result = writer.flush();
    assert_eq!(injected_kind(result), Some((FaultKind::Interrupted, Operation::Flush)));
    assert_eq!(writer.get_ref().flushes, 0);
    assert!(writer.flush().is_ok());
    assert_eq!(writer.get_ref().flushes, 1);
}

#[test]
fn shutdown_goes_to_the_stream_and_skips_the_script() {
    let ops = OpList::new(vec![PartialOp::Fail(FaultKind::Other), PartialOp::Limited(1)]);
    let mut writer = PartialAsyncWrite::new(SlowClose::new(), ops, NotifyCount::new());
    assert_eq!(writer.shutdown().ok(), Some(Readiness::NotReady));
    assert_eq!(writer.shutdown().ok(), Some(Readiness::Ready));
    assert_eq!(writer.get_ref().shutdowns, 2);
    assert_eq!(writer.get_notifier().count, 0);
    // The script is still at its first operation.
    assert_eq!(injected_kind(writer.write(&[1, 2])), Some((FaultKind::Other, Operation::Write)));
    assert_eq!(writer.write(&[1, 2]).ok(), Some(1));
}

#[test]
fn shutdown_error_is_the_streams_own() {
    let mut sink = SlowClose::new();
    sink.fail_shutdown = true;
    let mut writer = PartialAsyncWrite::new(sink, Repeat::new(PartialOp::Unlimited), Silent);
    match writer.shutdown() {
        Err(Fault::Stream(message)) => assert_eq!(message, "cannot close"),
        _ => panic!("expected the stream's error"),
    }
}

#[test]
fn memory_sink_shuts_down_at_once() {
    let mut writer = PartialAsyncWrite::new(MemorySink::new(), OpList::new(Vec::new()), Silent);
    assert_eq!(writer.write(&[5, 6]).ok(), Some(2));
    assert_eq!(writer.shutdown().ok(), Some(Readiness::Ready));
    assert_eq!(writer.get_ref().contents(), &vec![5u8, 6]);
}

#[test]
fn a_notifier_of_the_caller_is_called() {
    let ops = OpList::new(vec![
        PartialOp::Fail(FaultKind::WouldBlock),
        PartialOp::Unlimited,
        PartialOp::Fail(FaultKind::WouldBlock),
    ]);
    let journal = Journal { events: Vec::new() };
    let mut writer = PartialAsyncWrite::new(MemorySink::new(), ops, journal);
    assert!(writer.write(&[1]).is_err());
    assert!(writer.write(&[1]).is_ok());
    assert!(writer.write(&[2]).is_err());
    assert!(writer.write(&[2]).is_ok());
    assert_eq!(writer.get_notifier().events, vec!["notify", "notify"]);
    assert_eq!(writer.get_ref().contents(), &vec![1u8, 2]);
}

#[test]
fn notify_count_stops_at_its_maximum() {
    let mut counter = NotifyCount { count: u64::MAX - 1 };
    counter.notify();
    assert_eq!(counter.count, u64::MAX);
    counter.notify();
    assert_eq!(counter.count, u64::MAX);
}

#[test]
fn async_accessors_leave_script_and_notifier_alone() {
    let ops = OpList::new(vec![PartialOp::Limited(1)]);
    let mut writer = PartialAsyncWrite::new(MemorySink::new(), ops, NotifyCount::new());
    assert_eq!(writer.get_mut().write(&[7, 8]).ok(), Some(2));
    assert_eq!(writer.get_notifier().count, 0);
    assert_eq!(writer.write(&[1, 2]).ok(), Some(1));
    assert_eq!(writer.into_inner().contents(), &vec![7u8, 8, 1]);
}

#[test]
fn async_set_ops_drops_what_was_left() {
    let ops = OpList::new(vec![PartialOp::Limited(1), PartialOp::Fail(FaultKind::Other)]);
    let mut writer = PartialAsyncWrite::new(MemorySink::new(), ops, NotifyCount::new());
    assert_eq!(writer.write(&[1, 2, 3]).ok(), Some(1));
    writer.set_ops(OpList::new(vec![PartialOp::Fail(FaultKind::WouldBlock), PartialOp::Limited(2)]));
    assert_eq!(injected_kind(writer.write(&[2, 3])), Some((FaultKind::WouldBlock, Operation::Write)));
    assert_eq!(writer.get_notifier().count, 1);
    assert_eq!(writer.write(&[2, 3, 4]).ok(), Some(2));
    assert_eq!(writer.write(&[4]).ok(), Some(1));
    assert_eq!(writer.get_ref().contents(), &vec![1u8, 2, 3, 4]);
}
