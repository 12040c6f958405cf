//! Wire formats, resolution, the probe builder, the reply matcher and the
//! decisions of the receive loop.

pub mod checksum;
pub mod engine;
pub mod ethernet;
pub mod ipv4;
pub mod osi_layers;
pub mod resolution;
pub mod segment;
pub mod tcp;
