use bytes::Bytes;
use rb_http::batch::Batch;
use rb_http::dispatch::{AfterFailure, RetryPolicy};
use rb_http::worker::Worker;

fn ev(s: &str) -> Bytes {
    Bytes::from(s.as_bytes())
}

fn texts(v: Vec<Bytes>) -> Vec<Vec<u8>> {
    v.into_iter().map(|b| b.to_vec()).collect()
}

#[test]
fn overflow_flushes_full_batch_and_keeps_trigger_pending() {
    let mut w = Worker::new(10);
    assert!(w.on_event(ev("12345")).is_empty());
    assert!(w.on_event(ev("6789")).is_empty());
    assert!(w.on_event(ev("X")).is_empty());
    assert_eq!(w.pending_len(), 10);
    let sent = w.on_event(ev("Y"));
    assert_eq!(texts(sent), vec![b"123456789X".to_vec()]);
    assert_eq!(w.pending_len(), 1);
    assert_eq!(w.on_closed().unwrap().to_vec(), b"Y".to_vec());
}

#[test]
fn idle_timeout_flushes_single_event() {
    let mut w = Worker::new(1024);
    assert!(w.on_event(ev("hello")).is_empty());
    let flushed = w.on_idle().unwrap();
    assert_eq!(flushed.to_vec(), b"hello".to_vec());
    assert_eq!(w.pending_len(), 0);
    assert!(w.on_idle().is_none());
}

#[test]
fn idle_gap_separates_batches() {
    let mut w = Worker::new(1024);
    assert!(w.on_event(ev("ab")).is_empty());
    assert!(w.on_event(ev("cd")).is_empty());
    assert_eq!(w.on_idle().unwrap().to_vec(), b"abcd".to_vec());
    assert!(w.on_event(ev("ef")).is_empty());
    assert_eq!(w.on_closed().unwrap().to_vec(), b"ef".to_vec());
}

#[test]
fn events_within_capacity_give_one_flush_at_drain() {
    let mut w = Worker::new(100);
    for e in ["first,", "second,", "third"] {
        assert!(w.on_event(ev(e)).is_empty());
    }
    assert_eq!(w.on_closed().unwrap().to_vec(), b"first,second,third".to_vec());
    assert!(w.on_closed().is_none());
}

#[test]
fn uniform_events_flush_count_rounds_up() {
    let mut w = Worker::new(4);
    let mut sent: Vec<Vec<u8>> = Vec::new();
    for e in ["ab", "cd", "ef", "gh", "ij"] {
        sent.extend(texts(w.on_event(ev(e))));
    }
    if let Some(b) = w.on_closed() {
        sent.push(b.to_vec());
    }
    assert_eq!(sent.len(), 3);
    assert_eq!(sent, vec![b"abcd".to_vec(), b"efgh".to_vec(), b"ij".to_vec()]);
    assert!(sent.iter().all(|b| b.len() <= 4));
}

#[test]
fn oversized_event_is_sent_alone_after_pending() {
    let mut w = Worker::new(4);
    assert!(w.on_event(ev("ab")).is_empty());
    let sent = w.on_event(ev("abcdef"));
    assert_eq!(texts(sent), vec![b"ab".to_vec(), b"abcdef".to_vec()]);
    assert_eq!(w.pending_len(), 0);
}

#[test]
fn oversized_event_on_empty_batch_is_sent_alone() {
    let mut w = Worker::new(4);
    let sent = w.on_event(ev("abcdef"));
    assert_eq!(texts(sent), vec![b"abcdef".to_vec()]);
    assert!(w.on_closed().is_none());
}

#[test]
fn closing_an_empty_worker_sends_nothing() {
    let mut w = Worker::new(8);
    assert!(w.on_closed().is_none());
}

#[test]
fn empty_events_never_flush() {
    let mut w = Worker::new(0);
    assert!(w.on_event(ev("")).is_empty());
    assert!(w.on_closed().is_none());
}

#[test]
fn batch_append_reports_fit() {
    let mut b = Batch::new(6);
    assert_eq!(b.capacity(), 6);
    assert!(b.is_empty());
    assert!(b.append(&ev("abc")));
    assert!(b.append(&ev("def")));
    assert_eq!(b.len(), 6);
    assert!(!b.append(&ev("g")));
    assert_eq!(b.len(), 6);
    assert_eq!(b.drain().to_vec(), b"abcdef".to_vec());
    assert!(b.is_empty());
    assert_eq!(b.capacity(), 6);
    assert!(b.append(&ev("g")));
    assert_eq!(b.drain().to_vec(), b"g".to_vec());
}

#[test]
fn retry_policy_decisions() {
    let p = RetryPolicy::no_retry();
    assert_eq!(p.max_attempts, 1);
    assert_eq!(p.after_failure(1), AfterFailure::Drop);
    let p = RetryPolicy::new(3);
    assert_eq!(p.after_failure(1), AfterFailure::Retry);
    assert_eq!(p.after_failure(2), AfterFailure::Retry);
    assert_eq!(p.after_failure(3), AfterFailure::Drop);
    assert_eq!(RetryPolicy::new(0).after_failure(0), AfterFailure::Drop);
}
