//! The decisions of a broker: the local workers it serves and the queries
//! it forwards to them.

pub mod local_worker;
pub mod outbound;
pub mod query_forwarder;
