use partial_io::memory::MemorySink;
use partial_io::{
    make_ops, ByteSink, Fault, FaultKind, OpList, OpSource, Operation, PartialOp, PartialWrite,
    Repeat, Script,
};

/// A source that answers `None` on every second call and counts its calls.
struct Flicker {
    calls: usize,
}

impl OpSource for Flicker {
    fn next_op(&mut self) -> Option<PartialOp> {
        self.calls += 1;
        if self.calls % 2 == 0 {
            None
        } else {
            Some(PartialOp::Limited(self.calls))
        }
    }
}

#[test]
fn list_hands_out_its_operations_in_order() {
    let mut script = Script::new(OpList::new(vec![
        PartialOp::Unlimited,
        PartialOp::Limited(3),
        PartialOp::Fail(FaultKind::TimedOut),
    ]));
    assert_eq!(script.next(), Some(PartialOp::Unlimited));
    assert_eq!(script.next(), Some(PartialOp::Limited(3)));
    assert_eq!(script.next(), Some(PartialOp::Fail(FaultKind::TimedOut)));
    assert_eq!(script.next(), None);
    assert_eq!(script.next(), None);
}

#[test]
fn empty_script_is_exhausted_at_once() {
    let mut script = make_ops(OpList::new(Vec::new()));
    assert_eq!(script.next(), None);
    assert_eq!(script.next(), None);
}

#[test]
fn repeat_never_runs_out() {
    let mut script = make_ops(Repeat::new(PartialOp::Limited(1)));
    for _ in 0..1000 {
        assert_eq!(script.next(), Some(PartialOp::Limited(1)));
    }
}

#[test]
fn exhaustion_is_sticky_for_a_source_that_comes_back() {
    let mut bare = Flicker { calls: 0 };
    assert_eq!(bare.next_op(), Some(PartialOp::Limited(1)));
    assert_eq!(bare.next_op(), None);
    assert_eq!(bare.next_op(), Some(PartialOp::Limited(3)));

    let mut writer = PartialWrite::new(MemorySink::new(), Flicker { calls: 0 });
    assert_eq!(writer.write(&[1, 2, 3]).ok(), Some(1));
    // The source answers `None` here, and is never asked again.
    for _ in 0..5 {
        assert_eq!(writer.write(&[1, 2, 3]).ok(), Some(3));
    }
    assert_eq!(writer.get_ref().contents().len(), 16);
}

#[test]
fn script_stops_asking_after_the_first_none() {
    let mut script = Script::new(Flicker { calls: 0 });
    assert_eq!(script.next(), Some(PartialOp::Limited(1)));
    assert_eq!(script.next(), None);
    for _ in 0..10 {
        assert_eq!(script.next(), None);
    }
}

#[test]
fn fault_messages_are_fixed() {
    assert_eq!(Operation::Read.message(), "error during read, generated by partial-io");
    assert_eq!(Operation::Write.message(), "error during write, generated by partial-io");
    assert_eq!(Operation::Flush.message(), "error during flush, generated by partial-io");
}

#[test]
fn fault_tells_injected_from_stream() {
    let injected: Fault<String> =
        Fault::Injected { kind: FaultKind::Interrupted, during: Operation::Flush };
    assert!(injected.is_injected());
    assert_eq!(injected.kind(), Some(FaultKind::Interrupted));
    assert_eq!(injected.message(), Some("error during flush, generated by partial-io"));
    let own: Fault<String> = Fault::Stream(String::from("disk full"));
    assert!(!own.is_injected());
    assert_eq!(own.kind(), None);
    assert_eq!(own.message(), None);
}

#[test]
fn from_stream_keeps_value_and_error() {
    let ok: Result<usize, Fault<String>> = Fault::from_stream(Ok(5));
    assert_eq!(ok.ok(), Some(5));
    let err: Result<usize, Fault<String>> = Fault::from_stream(Err(String::from("gone")));
    match err {
        Err(Fault::Stream(message)) => assert_eq!(message, "gone"),
        _ => panic!("expected the stream's error"),
    }
}

#[test]
fn only_injected_would_block_is_retryable() {
    assert!(PartialOp::retryable(Some(PartialOp::Fail(FaultKind::WouldBlock))));
    assert!(!PartialOp::retryable(Some(PartialOp::Fail(FaultKind::Interrupted))));
    assert!(!PartialOp::retryable(Some(PartialOp::Fail(FaultKind::Other))));
    assert!(!PartialOp::retryable(Some(PartialOp::Limited(0))));
    assert!(!PartialOp::retryable(Some(PartialOp::Unlimited)));
    assert!(!PartialOp::retryable(None));
}
