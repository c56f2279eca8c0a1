//! The handler: configured with an endpoint, started once, fed events by any
//! number of producers, and terminated once. It owns the send side of the
//! channel to the worker; closing it is the worker's signal to drain and stop.
use vstd::prelude::*;
use crate::endpoint::{ConfigError, Endpoint, has_scheme_and_host_spec, uri_parses};
use crate::worker::{Worker, BATCH_SIZE};

verus! {

#[verifier::external_type_specification]
#[verifier::external_body]
#[verifier::reject_recursive_types(T)]
pub struct ExSender<T>(std::sync::mpsc::Sender<T>);

#[verifier::external_type_specification]
#[verifier::external_body]
#[verifier::reject_recursive_types(T)]
pub struct ExReceiver<T>(std::sync::mpsc::Receiver<T>);

/// Relies on `std::sync::mpsc::channel`: a fresh unbounded channel.
#[verifier::external_body]
fn open_channel() -> (r: (std::sync::mpsc::Sender<bytes::Bytes>, std::sync::mpsc::Receiver<bytes::Bytes>))
{
    std::sync::mpsc::channel()
}

/// Relies on `Sender::send`, which fails only when the receiving side has
/// been dropped; whether it has depends on the worker, so nothing is promised.
#[verifier::external_body]
fn send_event(tx: &std::sync::mpsc::Sender<bytes::Bytes>, event: bytes::Bytes) -> (delivered: bool)
{
    tx.send(event).is_ok()
}

/// Where a handler is in its life.
#[derive(Debug, Clone, Copy, PartialEq, Eq, Structural)]
pub enum HandlerState {
    Created,
    Running,
    Terminated,
}

/// Why `run` did not start a worker.
#[derive(Debug, Clone, Copy, PartialEq, Eq, Structural)]
pub enum RunError {
    /// No endpoint was configured.
    NoEndpoint,
    /// The handler was already started.
    AlreadyStarted,
}

/// Why an event was not enqueued.
#[derive(Debug, Clone, Copy, PartialEq, Eq, Structural)]
pub enum EnqueueError {
    /// The handler is not running: not started yet, or terminated.
    NotRunning,
    /// The worker has already exited, so nobody receives the event.
    WorkerGone,
}

/// Why `terminate` did nothing.
#[derive(Debug, Clone, Copy, PartialEq, Eq, Structural)]
pub enum TerminateError {
    /// The handler is not running.
    NotRunning,
}

/// What a started handler hands to the thread that runs its worker: the
/// endpoint, the receiving side of the channel, and a fresh worker.
pub struct WorkerTask {
    pub endpoint: Endpoint,
    pub events: std::sync::mpsc::Receiver<bytes::Bytes>,
    pub worker: Worker,
}

/// The façade producers use.
pub struct Handler {
    url: Option<Endpoint>,
    capacity: usize,
    tx: Option<std::sync::mpsc::Sender<bytes::Bytes>>,
    state: HandlerState,
}

impl Handler {
    /// Where the handler is in its life.
    pub closed spec fn status(&self) -> HandlerState {
        self.state
    }

    /// The configured endpoint's text, if one is configured.
    pub closed spec fn endpoint(&self) -> Option<Seq<char>> {
        match self.url {
            Some(e) => Some(e@),
            None => None,
        }
    }

    /// The capacity of the batches its worker will make.
    pub closed spec fn cap(&self) -> nat {
        self.capacity as nat
    }

    /// The send side is open exactly while the handler runs, and the batch
    /// capacity can be allocated.
    pub closed spec fn wf(&self) -> bool {
        &&& self.tx is Some <==> self.state == HandlerState::Running
        &&& self.capacity <= isize::MAX
    }

    /// A handler that is not started, has no endpoint yet, and batches up to
    /// `BATCH_SIZE` bytes.
    pub fn new() -> (r: Handler)
        ensures
            r.wf(),
            r.status() == HandlerState::Created,
            r.endpoint() == None::<Seq<char>>,
            r.cap() == BATCH_SIZE,
    {
        Handler { url: None, capacity: BATCH_SIZE, tx: None, state: HandlerState::Created }
    }

    /// The same handler with `url` as its endpoint, or the reason `url` is
    /// not one.
    pub fn url(self, url: &str) -> (r: Result<Handler, ConfigError>)
        requires
            self.wf(),
        ensures
            r is Ok <==> (has_scheme_and_host_spec(url@) && uri_parses(url@)),
            !has_scheme_and_host_spec(url@) ==> r == Err::<Handler, _>(ConfigError::NotAbsolute),
            (has_scheme_and_host_spec(url@) && !uri_parses(url@)) ==> r == Err::<Handler, _>(
                ConfigError::Malformed,
            ),
            r matches Ok(h) ==> {
                &&& h.wf()
                &&& h.endpoint() == Some(url@)
                &&& h.status() == self.status()
                &&& h.cap() == self.cap()
            },
    {
        match Endpoint::parse(url) {
            Ok(e) => Ok(Handler { url: Some(e), ..self }),
            Err(err) => Err(err),
        }
    }

    /// A handler for `url`, not started; fails when `url` is not an endpoint.
    pub fn create(url: &str) -> (r: Result<Handler, ConfigError>)
        ensures
            r is Ok <==> (has_scheme_and_host_spec(url@) && uri_parses(url@)),
            !has_scheme_and_host_spec(url@) ==> r == Err::<Handler, _>(ConfigError::NotAbsolute),
            (has_scheme_and_host_spec(url@) && !uri_parses(url@)) ==> r == Err::<Handler, _>(
                ConfigError::Malformed,
            ),
            r matches Ok(h) ==> {
                &&& h.wf()
                &&& h.endpoint() == Some(url@)
                &&& h.status() == HandlerState::Created
                &&& h.cap() == BATCH_SIZE
            },
    {
        Handler::new().url(url)
    }

    /// The same handler, with batches of up to `capacity` bytes.
    pub fn batch_capacity(self, capacity: usize) -> (r: Handler)
        requires
            self.wf(),
            capacity <= isize::MAX,
        ensures
            r.wf(),
            r.cap() == capacity,
            r.status() == self.status(),
            r.endpoint() == self.endpoint(),
    {
        Handler { capacity, ..self }
    }

    /// Where the handler is in its life.
    pub fn state(&self) -> (r: HandlerState)
        ensures
            r == self.status(),
    {
        self.state
    }

    /// Opens the channel and hands back what the worker's thread needs. Only
    /// a handler that was created with an endpoint and not started yet starts.
    pub fn run(&mut self) -> (r: Result<WorkerTask, RunError>)
        requires
            old(self).wf(),
        ensures
            final(self).wf(),
            final(self).endpoint() == old(self).endpoint(),
            final(self).cap() == old(self).cap(),
            old(self).status() != HandlerState::Created ==> r is Err && r->Err_0
                == RunError::AlreadyStarted && *final(self) == *old(self),
            old(self).status() == HandlerState::Created && old(self).endpoint() is None ==> r is Err
                && r->Err_0 == RunError::NoEndpoint && *final(self) == *old(self),
            r is Ok <==> (old(self).status() == HandlerState::Created && old(self).endpoint() is Some),
            r matches Ok(task) ==> {
                &&& final(self).status() == HandlerState::Running
                &&& Some(task.endpoint@) == old(self).endpoint()
                &&& task.worker.wf()
                &&& task.worker.pending() == Seq::<u8>::empty()
                &&& task.worker.cap() == old(self).cap()
            },
    {
        if self.state != HandlerState::Created {
            return Err(RunError::AlreadyStarted);
        }
        match &self.url {
            None => Err(RunError::NoEndpoint),
            Some(e) => {
                let endpoint = e.duplicate();
                let (tx, rx) = open_channel();
                self.tx = Some(tx);
                self.state = HandlerState::Running;
                Ok(WorkerTask { endpoint, events: rx, worker: Worker::new(self.capacity) })
            },
        }
    }

    /// Enqueues `data` for the worker. Refused when the handler is not
    /// running; while it runs, the event is either handed to the channel or,
    /// if the worker has already exited, reported as not delivered.
    pub fn produce(&self, data: bytes::Bytes) -> (r: Result<(), EnqueueError>)
        requires
            self.wf(),
        ensures
            self.status() != HandlerState::Running ==> r == Err::<(), _>(EnqueueError::NotRunning),
            self.status() == HandlerState::Running ==> (r is Ok || r == Err::<(), _>(
                EnqueueError::WorkerGone,
            )),
    {
        match &self.tx {
            None => Err(EnqueueError::NotRunning),
            Some(tx) => {
                if send_event(tx, data) {
                    Ok(())
                } else {
                    Err(EnqueueError::WorkerGone)
                }
            },
        }
    }

    /// Closes the send side of the channel, which tells the worker to drain
    /// and stop; the handler is then terminated and accepts no more events.
    /// Only a running handler terminates.
    pub fn terminate(&mut self) -> (r: Result<(), TerminateError>)
        requires
            old(self).wf(),
        ensures
            final(self).wf(),
            final(self).endpoint() == old(self).endpoint(),
            final(self).cap() == old(self).cap(),
            r is Ok <==> old(self).status() == HandlerState::Running,
            r is Ok ==> final(self).status() == HandlerState::Terminated,
            r is Err ==> *final(self) == *old(self),
    {
        if self.state != HandlerState::Running {
            return Err(TerminateError::NotRunning);
        }
        self.tx = None;
        self.state = HandlerState::Terminated;
        Ok(())
    }
}

} // verus!
