//! Broker-specific types and the decisions around the broker's streams.
//! Nothing outside this module needs the broker's wire formats.

pub mod account;
pub mod orders;
pub mod stream;
