//! Verified core of a single-device garage-door status service.
//!
//! The service exposes one endpoint: GET reads the last recorded state of the
//! door, POST records a new one. The state is kept as a single row in a
//! key-value store under a fixed partition key. Everything the service
//! decides — the status codec, the request-body grammar, method dispatch,
//! response formatting, and the store contract — lives here with proved
//! contracts; a thin front end performs the actual transport and storage I/O
//! and hands this crate plain values.

pub mod handler;
pub mod json;
pub mod status;
pub mod store;
