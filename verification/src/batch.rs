//! The batching engine: store, assembly and distribution, worker, manager.

pub mod batch_executor;
pub mod batch_manager;
pub mod batch_worker;
pub mod engine;
pub mod request_store;
pub mod worker_trace;
