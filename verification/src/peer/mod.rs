//! Peers discovered over mDNS: their status, the broker peers a local
//! worker chooses from, and the manager that holds both kinds.

use vstd::prelude::*;

pub mod broker;
pub mod local_worker;

use crate::config::{PeerConfig, PeerRole};
use broker::BrokerPeerManager;
use local_worker::LocalPeerWorkerManager;

verus! {

/// The mDNS service type under which local workers announce themselves.
pub const SERVICE_PSN_LOCAL_WORKER: &'static str = "_psn-worker._tcp.local.";

/// The mDNS service type under which brokers announce themselves.
pub const SERVICE_PSN_BROKER: &'static str = "_psn-broker._tcp.local.";

/// The mDNS domain of the services.
pub const SERVICE_LOCAL_DOMAIN: &'static str = "local.";

/// The life-cycle status of a discovered peer.
#[derive(Clone, Copy, Debug, PartialEq, Eq, Structural)]
pub enum PeerStatus {
    Init,
    Start,
    Alive,
    Aiding,
    Dead,
}

/// A peer whose status can be set.
pub trait PeerLifecycle {
    fn set_status(&mut self, s: PeerStatus);
}

/// What the OS reports of a network interface: whether it is a loopback
/// interface, and its IPv4 address if it has one.
#[derive(Clone, Copy, Debug)]
pub struct InterfaceAddress {
    pub is_loopback: bool,
    pub ipv4: Option<[u8; 4]>,
}

/// The IPv4 addresses of the interfaces that are not loopback, in order.
pub open spec fn ipv4_addresses_of(ifaces: Seq<InterfaceAddress>) -> Seq<[u8; 4]>
    decreases ifaces.len(),
{
    if ifaces.len() == 0 {
        Seq::<[u8; 4]>::empty()
    } else {
        let rest = ipv4_addresses_of(ifaces.drop_last());
        let last = ifaces.last();
        if !last.is_loopback && last.ipv4 is Some {
            rest.push(last.ipv4->0)
        } else {
            rest
        }
    }
}

/// The IPv4 addresses under which a peer announces itself: those of its
/// interfaces that are not loopback.
pub fn ipv4_interface_addresses(ifaces: &Vec<InterfaceAddress>) -> (addrs: Vec<[u8; 4]>)
    ensures
        addrs@ == ipv4_addresses_of(ifaces@),
{
    let mut addrs: Vec<[u8; 4]> = Vec::new();
    let mut i: usize = 0;
    while i < ifaces.len()
        invariant
            i <= ifaces.len(),
            addrs@ == ipv4_addresses_of(ifaces@.take(i as int)),
        decreases ifaces.len() - i,
    {
        assert(ifaces@.take(i + 1).drop_last() =~= ifaces@.take(i as int));
        assert(ifaces@.take(i + 1).last() == ifaces@[i as int]);
        let iface = ifaces[i];
        if !iface.is_loopback {
            match iface.ipv4 {
                Some(a) => addrs.push(a),
                None => {},
            }
        }
        i = i + 1;
    }
    assert(ifaces@.take(ifaces.len() as int) =~= ifaces@);
    addrs
}

/// The peers a node knows of, by kind, and the role it plays itself.
#[derive(Debug)]
pub struct PeerManager {
    pub my_role: PeerRole,
    pub broker: BrokerPeerManager,
    pub local_worker: LocalPeerWorkerManager,
}

impl PeerManager {
    fn init(my_role: PeerRole) -> (m: PeerManager)
        ensures
            m.my_role == my_role,
            m.broker.wf(),
            m.broker.peers@.len() == 0,
            m.broker.best_instance_name is None,
            m.local_worker@.len() == 0,
    {
        PeerManager {
            my_role,
            broker: BrokerPeerManager::new(),
            local_worker: LocalPeerWorkerManager::new(),
        }
    }

    /// The peers of a broker: none known yet.
    pub fn init_for_broker(_config: &PeerConfig) -> (m: PeerManager)
        ensures
            m.my_role == PeerRole::PrBroker(None),
            m.broker.wf(),
            m.broker.peers@.len() == 0,
            m.broker.best_instance_name is None,
            m.local_worker@.len() == 0,
    {
        Self::init(PeerRole::PrBroker(None))
    }

    /// The peers of a local worker: none known yet.
    pub fn init_for_local_worker(_config: &PeerConfig) -> (m: PeerManager)
        ensures
            m.my_role == PeerRole::PrLocalWorker(None),
            m.broker.wf(),
            m.broker.peers@.len() == 0,
            m.broker.best_instance_name is None,
            m.local_worker@.len() == 0,
    {
        Self::init(PeerRole::PrLocalWorker(None))
    }
}

} // verus!
