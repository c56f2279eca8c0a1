use bytes::{BufMut, Bytes, BytesMut};
use rb_http::endpoint::ConfigError;
use rb_http::handler::{EnqueueError, Handler, HandlerState, RunError, TerminateError};
use rb_http::worker::BATCH_SIZE;

fn drain_channel(task: rb_http::handler::WorkerTask) -> Vec<Vec<u8>> {
    let mut worker = task.worker;
    let mut sent: Vec<Vec<u8>> = Vec::new();
    while let Ok(event) = task.events.recv() {
        for b in worker.on_event(event) {
            sent.push(b.to_vec());
        }
    }
    if let Some(b) = worker.on_closed() {
        sent.push(b.to_vec());
    }
    sent
}

#[test]
fn create_handler() {
    let mut handler = Handler::new().url("http://localhost:8080").unwrap();
    let task = handler.run().unwrap();

    let mut data = BytesMut::with_capacity(1024);
    data.put(&r##"{"message": "hello world"}"##);
    let data = data.freeze();
    handler.produce(data.clone()).unwrap();

    handler.terminate().unwrap();
    let sent = drain_channel(task);
    assert_eq!(sent, vec![data.to_vec()]);
}

#[test]
fn create_rejects_text_that_is_not_a_url() {
    assert!(matches!(Handler::create("not a url"), Err(ConfigError::NotAbsolute)));
}

#[test]
fn create_rejects_unparsable_uri() {
    assert!(matches!(Handler::create("http://[::1/path"), Err(ConfigError::Malformed)));
}

#[test]
fn create_accepts_absolute_url() {
    let h = Handler::create("http://localhost:8080/events").unwrap();
    assert_eq!(h.state(), HandlerState::Created);
}

#[test]
fn run_without_endpoint_is_refused() {
    let mut h = Handler::new();
    assert!(matches!(h.run(), Err(RunError::NoEndpoint)));
    assert_eq!(h.state(), HandlerState::Created);
}

#[test]
fn run_twice_is_refused() {
    let mut h = Handler::create("http://localhost:8080").unwrap();
    let _task = h.run().unwrap();
    assert!(matches!(h.run(), Err(RunError::AlreadyStarted)));
    assert_eq!(h.state(), HandlerState::Running);
}

#[test]
fn produce_before_run_is_refused() {
    let h = Handler::create("http://localhost:8080").unwrap();
    assert_eq!(h.produce(Bytes::from(&b"x"[..])), Err(EnqueueError::NotRunning));
}

#[test]
fn produce_after_terminate_is_refused() {
    let mut h = Handler::create("http://localhost:8080").unwrap();
    let _task = h.run().unwrap();
    assert_eq!(h.produce(Bytes::from(&b"a"[..])), Ok(()));
    assert_eq!(h.terminate(), Ok(()));
    assert_eq!(h.state(), HandlerState::Terminated);
    assert_eq!(h.produce(Bytes::from(&b"b"[..])), Err(EnqueueError::NotRunning));
}

#[test]
fn produce_after_worker_exit_is_reported() {
    let mut h = Handler::create("http://localhost:8080").unwrap();
    let task = h.run().unwrap();
    drop(task);
    assert_eq!(h.produce(Bytes::from(&b"a"[..])), Err(EnqueueError::WorkerGone));
}

#[test]
fn terminate_twice_is_refused() {
    let mut h = Handler::create("http://localhost:8080").unwrap();
    let _task = h.run().unwrap();
    assert_eq!(h.terminate(), Ok(()));
    assert_eq!(h.terminate(), Err(TerminateError::NotRunning));
}

#[test]
fn terminate_before_run_is_refused() {
    let mut h = Handler::create("http://localhost:8080").unwrap();
    assert_eq!(h.terminate(), Err(TerminateError::NotRunning));
    assert_eq!(h.state(), HandlerState::Created);
}

#[test]
fn terminate_flushes_everything_enqueued() {
    let mut h = Handler::create("http://localhost:8080").unwrap().batch_capacity(8);
    let task = h.run().unwrap();
    let events: Vec<&[u8]> = vec![b"abc", b"defg", b"h", b"ijklm", b"nop"];
    for e in &events {
        assert_eq!(h.produce(Bytes::from(*e)), Ok(()));
    }
    h.terminate().unwrap();
    let sent = drain_channel(task);
    assert_eq!(sent, vec![b"abcdefgh".to_vec(), b"ijklmnop".to_vec()]);
}

#[test]
fn default_capacity_is_batch_size() {
    let mut h = Handler::create("http://localhost:8080").unwrap();
    let task = h.run().unwrap();
    assert_eq!(BATCH_SIZE, 64 * 1024);
    let mut worker = task.worker;
    let big = Bytes::from(vec![7u8; BATCH_SIZE]);
    assert!(worker.on_event(big).is_empty());
    assert_eq!(worker.pending_len(), BATCH_SIZE);
    let sent = worker.on_event(Bytes::from(&b"z"[..]));
    assert_eq!(sent.len(), 1);
    assert_eq!(sent[0].len(), BATCH_SIZE);
}
