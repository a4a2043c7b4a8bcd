//! Resolution of a network interface name to its IPv6 scope index, over a
//! snapshot of the host's interface records, and the plan of the multicast
//! probe that uses that index.
pub mod ifaddrs;
pub mod probe;
