//! Networking: the Ethernet device record, the secure mesh, SSDP discovery and the onion
//! (SOCKS5) circuit.
pub mod ethernet;
pub mod mesh;
pub mod onion;
pub mod ssdp;
