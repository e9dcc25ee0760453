//! The ICMP header, the echo message built on it, and the checksum over both.

pub mod wire;
pub mod checksum;
pub mod header;
pub mod packet;
