//! Configuration of a `psn_peer` peer: the role is a plain
//! tag, and the settings of a broker or local worker are optional fields.

use vstd::prelude::*;
use crate::config::CommonConfig;
use crate::thirdparty::{is_ascii_alphanumeric, random_alphanumeric};
use crate::config::INSTANCE_ID_LEN;

verus! {

/// The mDNS service type of `psn_peer` local workers.
pub const SERVICE_PSN_LOCAL_WORKER: &'static str = "_psn-local-worker._tcp.local.";

/// The mDNS service type of the brokers.
pub const SERVICE_PSN_BROKER: &'static str = "_psn-broker._tcp.local.";

/// The role a peer plays.
#[derive(Clone, Copy, Debug, PartialEq, Eq, Structural)]
pub enum PeerRole {
    PrUndefined,
    PrLocalWorker,
    PrRemoteWorker,
    PrBroker,
}

/// Settings of a broker (environment prefix `PSN_BROKER_`).
#[derive(Clone, Debug)]
pub struct BrokerConfig {
    pub outbound_socks_port: u16,
    pub inbound_http_server_bind_address: Vec<String>,
    pub inbound_http_server_accessible_address_prefix: String,
    pub cost: u8,
}

/// Settings of a local worker (environment prefix `PSN_LW_`).
#[derive(Clone, Debug)]
pub struct LocalWorkerConfig {
    pub pruntime_address: String,
    pub forwarder_socks_port: u16,
}

/// The full configuration of a peer.
#[derive(Debug)]
pub struct PeerConfig {
    pub role: PeerRole,
    pub version: String,
    pub git_revision: String,
    pub instance_id: String,
    pub common: CommonConfig,
    pub broker: Option<BrokerConfig>,
    pub local_worker: Option<LocalWorkerConfig>,
}

/// The label of a role inside a host name.
pub open spec fn role_label(role: PeerRole) -> Seq<char> {
    match role {
        PeerRole::PrLocalWorker => "local_worker"@,
        PeerRole::PrRemoteWorker => "remote_worker"@,
        PeerRole::PrBroker => "broker"@,
        PeerRole::PrUndefined => Seq::<char>::empty(),
    }
}

impl PeerConfig {
    /// `<instance_id>.<instance_name>.<role>.psn.local`
    pub fn host_name(&self) -> (s: String)
        requires
            self.role != PeerRole::PrUndefined,
        ensures
            s@ == self.instance_id@ + "."@ + self.common.instance_name@ + "."@ + role_label(self.role)
                + ".psn.local"@,
    {
        let role = match self.role {
            PeerRole::PrLocalWorker => "local_worker",
            PeerRole::PrRemoteWorker => "remote_worker",
            PeerRole::PrBroker => "broker",
            PeerRole::PrUndefined => "",
        };
        let mut s = self.instance_id.clone();
        s.append(".");
        s.append(self.common.instance_name.as_str());
        s.append(".");
        s.append(role);
        s.append(".psn.local");
        s
    }

    /// `<instance_name>.<service type>`
    pub fn mdns_fullname(&self) -> (s: String)
        requires
            self.role == PeerRole::PrLocalWorker || self.role == PeerRole::PrBroker,
        ensures
            s@ == self.common.instance_name@ + "."@ + (if self.role == PeerRole::PrLocalWorker {
                SERVICE_PSN_LOCAL_WORKER@
            } else {
                SERVICE_PSN_BROKER@
            }),
    {
        let root = match self.role {
            PeerRole::PrLocalWorker => SERVICE_PSN_LOCAL_WORKER,
            _ => SERVICE_PSN_BROKER,
        };
        let mut s = self.common.instance_name.clone();
        s.append(".");
        s.append(root);
        s
    }

    /// Puts a configuration together from its loaded parts, with a fresh
    /// random instance id: broker settings are kept for the broker role
    /// only, local worker settings for the local worker role only; none
    /// when no settings are kept.
    pub fn build(
        role: PeerRole,
        version: String,
        git_revision: String,
        common: CommonConfig,
        broker: Option<BrokerConfig>,
        local_worker: Option<LocalWorkerConfig>,
    ) -> (c: Option<PeerConfig>)
        ensures
            (c is None) == (settings_for(role, PeerRole::PrBroker, broker) is None && settings_for(
                role,
                PeerRole::PrLocalWorker,
                local_worker,
            ) is None),
            c matches Some(c) ==> {
                &&& c.role == role
                &&& c.version == version
                &&& c.git_revision == git_revision
                &&& c.common == common
                &&& c.broker == settings_for(role, PeerRole::PrBroker, broker)
                &&& c.local_worker == settings_for(role, PeerRole::PrLocalWorker, local_worker)
                &&& c.instance_id@.len() == INSTANCE_ID_LEN
                &&& forall|i: int|
                    0 <= i < INSTANCE_ID_LEN ==> is_ascii_alphanumeric(#[trigger] c.instance_id@[i])
            },
    {
        let instance_id = random_alphanumeric(INSTANCE_ID_LEN);
        let broker = if role == PeerRole::PrBroker {
            broker
        } else {
            None
        };
        let local_worker = if role == PeerRole::PrLocalWorker {
            local_worker
        } else {
            None
        };
        if broker.is_none() && local_worker.is_none() {
            return None;
        }
        Some(PeerConfig { role, version, git_revision, instance_id, common, broker, local_worker })
    }
}

/// The settings `s` if the peer's role is `owner`, the role they belong
/// to; none otherwise.
pub open spec fn settings_for<T>(role: PeerRole, owner: PeerRole, s: Option<T>) -> Option<T> {
    if role == owner {
        s
    } else {
        None
    }
}

/// Default port of the outbound SOCKS server of a broker.
pub fn default_outbound_socks_port() -> (p: u16)
    ensures
        p == 1981,
{
    1981
}

/// Default port of the SOCKS forwarder of a local worker.
pub fn default_forwarder_socks_port() -> (p: u16)
    ensures
        p == 1982,
{
    1982
}

/// Default address of the pRuntime a local worker serves.
pub fn default_pruntime_address() -> (s: String)
    ensures
        s@ == "http://127.0.0.1:8080"@,
{
    String::from_str("http://127.0.0.1:8080")
}

} // verus!
