use partial_io::intercept::{apply_flush, apply_read, apply_write};
use partial_io::memory::{MemorySink, MemorySource};
use partial_io::{ByteSink, Fault, FaultKind, Operation, PartialOp};

#[test]
fn apply_write_by_operation() {
    let data = [1u8, 2, 3, 4];
    let mut sink = MemorySink::new();
    assert_eq!(apply_write(None, &mut sink, &data).ok(), Some(4));
    assert_eq!(apply_write(Some(PartialOp::Unlimited), &mut sink, &data).ok(), Some(4));
    assert_eq!(apply_write(Some(PartialOp::Limited(3)), &mut sink, &data).ok(), Some(3));
    assert_eq!(apply_write(Some(PartialOp::Limited(4)), &mut sink, &data).ok(), Some(4));
    assert_eq!(apply_write(Some(PartialOp::Limited(5)), &mut sink, &data).ok(), Some(4));
    assert_eq!(apply_write(Some(PartialOp::Limited(0)), &mut sink, &data).ok(), Some(0));
    match apply_write(Some(PartialOp::Fail(FaultKind::BrokenPipe)), &mut sink, &data) {
        Err(Fault::Injected { kind, during }) => {
            assert_eq!(kind, FaultKind::BrokenPipe);
            assert_eq!(during, Operation::Write);
        }
        _ => panic!("expected an injected fault"),
    }
    assert_eq!(
        sink.contents(),
        &vec![1u8, 2, 3, 4, 1, 2, 3, 4, 1, 2, 3, 1, 2, 3, 4, 1, 2, 3, 4]
    );
}

#[test]
fn apply_flush_by_operation() {
    let mut sink = MemorySink::new();
    assert!(apply_flush(None, &mut sink).is_ok());
    assert!(apply_flush(Some(PartialOp::Unlimited), &mut sink).is_ok());
    assert!(apply_flush(Some(PartialOp::Limited(0)), &mut sink).is_ok());
    match apply_flush(Some(PartialOp::Fail(FaultKind::Interrupted)), &mut sink) {
        Err(Fault::Injected { kind, during }) => {
            assert_eq!(kind, FaultKind::Interrupted);
            assert_eq!(during, Operation::Flush);
        }
        _ => panic!("expected an injected fault"),
    }
    assert!(sink.contents().is_empty());
}

#[test]
fn apply_read_by_operation() {
    let mut source = MemorySource::new(vec![1, 2, 3, 4, 5, 6, 7, 8, 9]);
    let mut buf = [0u8; 3];
    assert_eq!(apply_read(Some(PartialOp::Limited(2)), &mut source, &mut buf).ok(), Some(2));
    assert_eq!(buf, [1, 2, 0]);
    assert_eq!(apply_read(Some(PartialOp::Limited(0)), &mut source, &mut buf).ok(), Some(0));
    assert_eq!(buf, [1, 2, 0]);
    assert_eq!(apply_read(Some(PartialOp::Unlimited), &mut source, &mut buf).ok(), Some(3));
    assert_eq!(buf, [3, 4, 5]);
    match apply_read(Some(PartialOp::Fail(FaultKind::TimedOut)), &mut source, &mut buf) {
        Err(Fault::Injected { kind, during }) => {
            assert_eq!(kind, FaultKind::TimedOut);
            assert_eq!(during, Operation::Read);
        }
        _ => panic!("expected an injected fault"),
    }
    assert_eq!(buf, [3, 4, 5]);
    assert_eq!(apply_read(Some(PartialOp::Limited(7)), &mut source, &mut buf).ok(), Some(3));
    assert_eq!(buf, [6, 7, 8]);
    assert_eq!(apply_read(None, &mut source, &mut buf).ok(), Some(1));
    assert_eq!(buf, [9, 7, 8]);
}

#[test]
fn memory_sink_keeps_everything() {
    let mut sink = MemorySink::new();
    assert_eq!(sink.write(&[1, 2]).ok(), Some(2));
    assert_eq!(sink.write(&[]).ok(), Some(0));
    assert!(sink.flush().is_ok());
    assert_eq!(sink.write(&[3]).ok(), Some(1));
    assert_eq!(sink.contents(), &vec![1u8, 2, 3]);
}
