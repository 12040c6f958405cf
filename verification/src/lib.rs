//! Packet construction and reply matching for a host and port discovery probe.
//!
//! The crate lays out IPv4 and TCP headers for a SYN probe, decides from the
//! tables of the system where a frame for a destination has to go, frames the
//! probe for the link layer, and decides whether an inbound frame is the
//! answer to a probe by testing the raw bytes against layered match criteria.
//! Every function carries a contract over the byte-level model of the wire
//! formats. Channels, clocks and the tables themselves are left to the caller.

pub mod errors;
pub mod networking;
