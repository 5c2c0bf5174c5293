//! A multi-protocol traceroute engine: probe packets, reply classification,
//! the bounded poll for one probe and the hop-by-hop run, as pure decisions
//! over plain values.

pub mod args;
pub mod checksum;
pub mod interfaces;
pub mod packet;
pub mod protocols;
mod random;
pub mod traceroute;
