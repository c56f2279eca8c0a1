//! An event-batching dispatcher: producers hand byte events to a channel, a
//! single worker accumulates them into batches bounded by a capacity and
//! flushes each batch as one outbound request.
pub mod buffers;
pub mod batch;
pub mod model;
pub mod worker;
pub mod endpoint;
pub mod handler;
pub mod dispatch;
