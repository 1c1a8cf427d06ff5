//! Core of a message-ingestion bridge: a durable queue bound to a durable
//! exchange under a fixed list of routing keys, a decoder from wire
//! routing-key strings to a closed set of typed keys, and a sequential
//! dispatch loop that hands each decoded delivery to a handler and issues
//! exactly one terminal disposition (ack or nack) per delivery, in receipt
//! order. Broker I/O itself lives outside this crate; everything here is
//! the decision logic, stated and verified.

pub mod config;
pub mod dispatch;
pub mod routing;
pub mod topology;
