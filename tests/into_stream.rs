use std::cell::Cell;

use wasm_streams::into_stream::{IntoStream, ReadOutcome};

/// A reader handle that counts the reads issued through it.
struct MockReader {
    reads: Cell<u32>,
}

impl MockReader {
    fn new() -> MockReader {
        MockReader { reads: Cell::new(0) }
    }
}

/// Issues one read through `reader`; the read is named by its number.
fn issue(reader: &MockReader) -> u32 {
    let n = reader.reads.get() + 1;
    reader.reads.set(n);
    n
}

/// Polls `s` once, the read in flight resolving at once with `outcome`.
/// Returns `None` when the poll reported end-of-sequence, else the item.
fn poll_ready(
    s: &mut IntoStream<MockReader, u32>,
    outcome: ReadOutcome<char, String>,
) -> Option<Result<char, String>> {
    match s.begin_poll(|r: &MockReader| issue(r)) {
        Some(_) => s.complete_read(outcome),
        None => None,
    }
}

/// Polls `s` once, the read in flight not resolving yet. Returns the number of
/// that read, or `None` when the poll reported end-of-sequence.
fn poll_not_ready(s: &mut IntoStream<MockReader, u32>) -> Option<u32> {
    s.begin_poll(|r: &MockReader| issue(r)).map(|op| *op)
}

fn reads_issued(s: IntoStream<MockReader, u32>) -> u32 {
    s.cancel().map(|r| r.reads.get()).unwrap_or(0)
}

#[test]
fn fresh_adapter_is_not_terminated() {
    let s: IntoStream<MockReader, u32> = IntoStream::new(MockReader::new(), true);
    assert!(!s.is_terminated());
    assert!(s.cancel_on_drop());
    let t: IntoStream<MockReader, u32> = IntoStream::new(MockReader::new(), false);
    assert!(!t.is_terminated());
    assert!(!t.cancel_on_drop());
}

#[test]
fn values_then_done() {
    let mut s = IntoStream::new(MockReader::new(), false);
    assert_eq!(poll_ready(&mut s, ReadOutcome::Chunk('A')), Some(Ok('A')));
    assert!(!s.is_terminated());
    assert_eq!(poll_ready(&mut s, ReadOutcome::Chunk('B')), Some(Ok('B')));
    assert!(!s.is_terminated());
    assert_eq!(poll_ready(&mut s, ReadOutcome::Done), None);
    assert!(s.is_terminated());
    assert_eq!(poll_ready(&mut s, ReadOutcome::Chunk('C')), None);
    assert!(s.is_terminated());
}

#[test]
fn value_then_error() {
    let mut s = IntoStream::new(MockReader::new(), true);
    assert_eq!(poll_ready(&mut s, ReadOutcome::Chunk('A')), Some(Ok('A')));
    assert_eq!(
        poll_ready(&mut s, ReadOutcome::Failed("E".to_string())),
        Some(Err("E".to_string()))
    );
    assert!(s.is_terminated());
    for _ in 0..3 {
        assert_eq!(poll_ready(&mut s, ReadOutcome::Chunk('B')), None);
        assert_eq!(poll_not_ready(&mut s), None);
    }
    assert!(s.is_terminated());
}

#[test]
fn error_on_first_read() {
    let mut s = IntoStream::new(MockReader::new(), false);
    assert_eq!(
        poll_ready(&mut s, ReadOutcome::Failed("boom".to_string())),
        Some(Err("boom".to_string()))
    );
    assert_eq!(poll_ready(&mut s, ReadOutcome::Done), None);
    assert!(s.is_terminated());
}

#[test]
fn done_on_first_read() {
    let mut s = IntoStream::new(MockReader::new(), true);
    assert_eq!(poll_ready(&mut s, ReadOutcome::Done), None);
    assert!(s.is_terminated());
    assert!(s.teardown().is_none());
}

#[test]
fn one_read_in_flight_at_a_time() {
    let mut s = IntoStream::new(MockReader::new(), false);
    // The first poll issues read 1; polls while it is unresolved issue none.
    assert_eq!(poll_not_ready(&mut s), Some(1));
    assert_eq!(poll_not_ready(&mut s), Some(1));
    assert_eq!(poll_not_ready(&mut s), Some(1));
    assert_eq!(poll_ready(&mut s, ReadOutcome::Chunk('A')), Some(Ok('A')));
    // Only once read 1 resolved is read 2 issued.
    assert_eq!(poll_not_ready(&mut s), Some(2));
    assert_eq!(poll_ready(&mut s, ReadOutcome::Chunk('B')), Some(Ok('B')));
    assert_eq!(poll_ready(&mut s, ReadOutcome::Chunk('C')), Some(Ok('C')));
    assert!(!s.is_terminated());
    assert_eq!(reads_issued(s), 3);
}

#[test]
fn no_read_before_first_poll() {
    let s: IntoStream<MockReader, u32> = IntoStream::new(MockReader::new(), false);
    assert_eq!(reads_issued(s), 0);
}

#[test]
fn pending_read_can_be_updated_in_place() {
    let mut s = IntoStream::new(MockReader::new(), false);
    if let Some(op) = s.begin_poll(|r: &MockReader| issue(r)) {
        *op = 40;
    }
    assert_eq!(s.begin_poll(|r: &MockReader| issue(r)).map(|op| *op), Some(40));
}

#[test]
fn cancel_hands_over_the_reader() {
    let mut s = IntoStream::new(MockReader::new(), false);
    assert_eq!(poll_not_ready(&mut s), Some(1));
    let reader = s.cancel();
    assert_eq!(reader.map(|r| r.reads.get()), Some(1));
}

#[test]
fn cancel_after_termination_touches_no_reader() {
    let mut s = IntoStream::new(MockReader::new(), true);
    assert_eq!(poll_ready(&mut s, ReadOutcome::Done), None);
    assert!(s.cancel().is_none());

    let mut t = IntoStream::new(MockReader::new(), true);
    assert_eq!(poll_ready(&mut t, ReadOutcome::Failed(String::new())), Some(Err(String::new())));
    assert!(t.cancel_with_reason("reason").is_none());
}

#[test]
fn cancel_with_reason_forwards_the_reason() {
    let mut s = IntoStream::new(MockReader::new(), true);
    assert_eq!(poll_ready(&mut s, ReadOutcome::Chunk('A')), Some(Ok('A')));
    let (reader, reason) = s.cancel_with_reason("no longer needed").unwrap();
    assert_eq!(reason, "no longer needed");
    assert_eq!(reader.reads.get(), 1);
}

#[test]
fn teardown_with_cancel_on_drop_cancels_once() {
    let mut s = IntoStream::new(MockReader::new(), true);
    assert_eq!(poll_not_ready(&mut s), Some(1));
    let reader = s.teardown();
    assert_eq!(reader.map(|r| r.reads.get()), Some(1));
    assert!(s.is_terminated());
    assert!(s.teardown().is_none());
    assert_eq!(poll_not_ready(&mut s), None);
}

#[test]
fn teardown_without_cancel_on_drop_cancels_nothing() {
    let mut s = IntoStream::new(MockReader::new(), false);
    assert_eq!(poll_not_ready(&mut s), Some(1));
    assert!(s.teardown().is_none());
    assert!(!s.is_terminated());
    assert_eq!(poll_not_ready(&mut s), Some(1));
    assert_eq!(reads_issued(s), 1);
}
