//! Checks on local TCP ports: whether a port is free on the loopback
//! interface, where to find a free one, and whether any of a list of
//! endpoints accepts a connection.
//!
//! The socket work itself (binding a listener, connecting a stream) is handed
//! in by the caller as a closure; this crate decides which sockets to try,
//! in what order, and what the outcomes mean.
mod port;
mod search;

pub use port::{IpVersion, Port, PortRange, Ports};
pub use search::{
    first_free_in, free_local_ipv4_port, free_local_ipv4_port_in_range, free_local_ipv6_port,
    free_local_ipv6_port_in_range, free_local_port, free_local_port_in_range, is_any_reachable,
    hands_out_free_ports, is_local_ipv4_port_free, is_local_ipv6_port_free, is_local_port_free,
    lemma_found_port_is_free, lemma_held_port_taken_on_its_family_only, mirrors_host,
    other_family, reported_free, reported_taken,
};
