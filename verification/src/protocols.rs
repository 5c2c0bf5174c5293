//! The probe protocols and what they share.

pub mod icmp;
pub mod protocol;
pub mod tcp;
pub mod udp;
