//! An awaitable, cancellation-tolerant, concurrency-safe bridge over a
//! blocking transfer engine: the request/reply channel protocol, the
//! decisions of the worker's driving loop, the error taxonomy, and the
//! two-state transfer-description builder, each with a verified contract.

pub mod actor;
pub mod client;
pub mod engine;
pub mod error;
pub mod poll;
pub mod response_handler;
