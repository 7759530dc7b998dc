//! Peer discovery, broker selection and worker bookkeeping for the pSN
//! service network: the decisions of the broker and the local worker,
//! with their contracts.

pub mod text;
pub mod thirdparty;
pub mod config;
pub mod mgmt_types;
pub mod peer;
pub mod runtime;
pub mod broker;
pub mod announce;
pub mod worker;
pub mod psn_peer;
