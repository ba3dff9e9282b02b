//! Data-plane core of a userspace network node.
//!
//! The crate models the packet-processing logic of a minimal router/bridge:
//! an address table mapping IPv4 addresses to link-layer addresses, an
//! Ethernet frame codec and acceptance filter, an ARP resolver that learns
//! from observed traffic and answers requests for locally-owned addresses,
//! and an IPv4 handler that classifies destinations as local or forwarded
//! and triggers address resolution on a miss. All decisions are pure
//! functions over plain values; capture, transmission and scheduling live
//! outside the library.

pub mod addr;
pub mod arp;
pub mod dispatch;
pub mod ethernet;
pub mod iface;
pub mod ipv4;
pub mod table;
