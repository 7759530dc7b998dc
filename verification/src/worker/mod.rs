//! The decisions of a local worker: the life cycle of its runtime and the
//! requests its public forwarder lets through.

pub mod runtime;
pub mod public_forwarder;
