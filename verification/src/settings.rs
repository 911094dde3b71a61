//! Configuration values, loaded once by the host and never changed.

use vstd::prelude::*;

verus! {

/// Limits of one worker's batches.
#[derive(Debug, Clone)]
pub struct BatchSettings {
    /// Largest number of data items a store admits without a flush.
    pub max_batch_size: usize,
    /// Longest time, in milliseconds, between two flushes of an idle worker.
    pub max_waiting_time_ms: u64,
}

/// The public listener.
#[derive(Debug, Clone)]
pub struct ApiSettings {
    pub target_port: u16,
}

/// The inference backend.
#[derive(Debug, Clone)]
pub struct InferenceApiSettings {
    pub target_url: String,
}

/// All configuration of the proxy.
#[derive(Debug, Clone)]
pub struct Settings {
    pub api: ApiSettings,
    pub inference_api: InferenceApiSettings,
    pub batch: BatchSettings,
}

} // verus!
