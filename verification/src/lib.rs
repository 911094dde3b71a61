//! A request-coalescing engine for an embedding-inference backend.
//!
//! Callers submit small requests; requests that share a grouping key are
//! held in a bounded store, fused into one backend request when the store
//! overflows or a flush is due, and the backend's response is cut back into
//! one slice per caller.
//!
//! The crate holds the decisions of that engine and proves them against
//! mathematical models: what a store holds, which batches a worker emits
//! for a run of events, which worker a key belongs to, which slice each
//! caller is owed. Timers, tasks and HTTP belong to the host program, which
//! feeds events in and carries batches out.
//!
//! # What is proved and what is assumed
//!
//! Every function of the crate is verified, with these exceptions, which
//! are assumed to behave as their contracts say:
//!
//! * in [`reply_channel`], tokio's one-shot channel: `channel` and
//!   `Sender::send`;
//! * in [`queue`], tokio's bounded queue: `Sender::try_send`;
//! * in [`batch::batch_manager`], `Arc::clone` of the standard library.
//!
//! The types of those crates, and `uuid::Uuid`, are opaque: values of them
//! are carried and compared in contracts, never inspected.
//!
//! Whether a reply reaches its caller, and whether a queue takes a message,
//! is decided outside this crate. The contracts therefore say which reply
//! is handed to which caller's channel, which request is offered to which
//! worker's queue, and what is reported for each answer that may come
//! back; they cannot say which answer comes back.

pub mod api;
pub mod batch;
pub mod queue;
pub mod reply_channel;
pub mod request;
pub mod settings;
