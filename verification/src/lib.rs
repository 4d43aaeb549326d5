//! Remote method invocation on trait objects, as a sans-I/O core.
//!
//! Two contexts face each other over a duplex byte transport. Each side exports
//! service objects, hands out handles to them, and calls the services of its
//! peer through proxies. This crate holds the rules of that exchange: the wire
//! format, the bookkeeping of call slots and service ids, and the decisions
//! that the background loops take. Threads, locks and transports are left to
//! the caller, who feeds events in and carries the resulting bytes out.

pub mod cbor;
pub mod codegen;
pub mod config;
pub mod context;
pub mod count;
pub mod decimal;
pub mod error;
pub mod host;
pub mod laws;
pub mod module;
pub mod packet;
pub mod pool;
pub mod port;
pub mod queue;
pub mod samples;
pub mod service;
pub mod table;
pub mod transport;
