//! Netlink request construction for `ip`-style link and route operations,
//! together with the decision logic of the network-namespace switch and
//! isolated-execution engines.
//!
//! The library builds protocol-correct request values and interprets response
//! frames; the surrounding process performs the actual socket, file and mount
//! system calls and feeds their outcomes back in as plain values.

pub mod bridge;
pub mod ipnetns;
pub mod iplink;
pub mod iproute;
pub mod netlink;
pub mod semantics;
pub mod veth;
