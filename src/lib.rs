//! Unix-domain-socket source adapter: configuration, the per-record
//! transform that turns a received line into a structured event, and the
//! binding of both to the stream or datagram ingestion engine.
pub mod config;
pub mod event;
pub mod transform;
pub mod source;
