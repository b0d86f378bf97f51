//! System Configuration.
pub mod sc_network_reachability;
