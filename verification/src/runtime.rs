//! The context a peer runs in: its configuration and the peers it knows.

use vstd::prelude::*;
use crate::config::{PeerConfig, PeerRole, role_announces};
use crate::peer::PeerManager;

verus! {

/// The configuration of a running peer and the peers it knows.
#[derive(Debug)]
pub struct AsyncRuntimeContext {
    pub config: PeerConfig,
    pub peer_manager: PeerManager,
}

impl AsyncRuntimeContext {
    /// The context of a broker or local worker, which knows no peer yet.
    pub fn new(config: PeerConfig) -> (ctx: AsyncRuntimeContext)
        requires
            role_announces(config.role),
        ensures
            ctx.config == config,
            ctx.peer_manager.my_role == (match config.role {
                PeerRole::PrBroker(_) => PeerRole::PrBroker(None),
                _ => PeerRole::PrLocalWorker(None),
            }),
            ctx.peer_manager.broker.wf(),
            ctx.peer_manager.broker.peers@.len() == 0,
            ctx.peer_manager.broker.best_instance_name is None,
            ctx.peer_manager.local_worker@.len() == 0,
    {
        let peer_manager = match config.role {
            PeerRole::PrBroker(_) => PeerManager::init_for_broker(&config),
            _ => PeerManager::init_for_local_worker(&config),
        };
        AsyncRuntimeContext { config, peer_manager }
    }
}

} // verus!
