//! Verified core of a fixed-size worker pool: the work queue that carries jobs
//! from the submitter to the workers, the state machine that each worker runs,
//! and the bookkeeping that shuts the pool down.
//!
//! The threads, the lock round the queue and the waiting on it belong to the
//! runtime that drives these pieces; every decision is made here.

pub mod channel;
pub mod http;
pub mod pool;
pub mod worker;

pub use channel::{QueueModel, Received, WorkQueue};
pub use http::{response, route, Page};
pub use pool::{worker_ids, PoolCore, PoolError, PoolModel, ShutdownStep};
pub use worker::{event_of, Worker, WorkerAction, WorkerEvent, WorkerState};
