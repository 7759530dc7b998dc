//! The `psn_peer` flavour of the peer configuration, used by the SOCKS-port
//! based services: a role without settings, and the settings of each role
//! held beside it; and its management API.

pub mod config;
pub mod mgmt;
