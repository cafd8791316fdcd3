//! A DNS forwarding proxy's request/response engine: the transaction-ID
//! codec, the pending-request table of a multiplexing UDP upstream client,
//! the DNS-over-HTTPS framing rules and the dispatch decisions of the
//! downstream-facing resolver.

pub mod proto;
pub mod error;
pub mod pending;
pub mod doh;
pub mod resolver;
