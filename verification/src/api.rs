//! What the engine needs to know of a backend endpoint.

pub mod endpoint;
