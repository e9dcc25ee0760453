//! ICMP echo support: the on-wire packet format with its Internet Checksum,
//! and the bookkeeping that pairs each echo reply with the request it answers.
//!
//! Everything here is computed on plain values. Sockets, clocks and sleeping
//! are left to the caller, who hands the bytes and timestamps in.

pub mod packet;
pub mod socket;
pub mod icmp;
pub mod ping;

pub use icmp::Icmp;
pub use ping::PingBuilder;
