//! The configuration of a peer: its role, identity and the settings of the
//! broker or local worker it runs as.

use vstd::prelude::*;
use crate::peer::{SERVICE_PSN_BROKER, SERVICE_PSN_LOCAL_WORKER};
use crate::text::{split_str, split_on, string_views};
use crate::thirdparty::{is_ascii_alphanumeric, random_alphanumeric};

verus! {

/// Interval between two health checks of the known local workers, in ms.
pub const BROKER_HEALTH_CHECK_INTERVAL: u64 = 20000;

/// Missed keepalives after which a broker considers a local worker lost.
pub const BROKER_PEER_LOST_COUNT: u8 = 3;

/// Missed keepalives after which a broker considers a lost local worker dead.
pub const BROKER_PEER_DEAD_COUNT: u8 = 10;

/// Interval between two keepalives of a local worker to its broker, in ms.
pub const LOCAL_WORKER_KEEPALIVE_INTERVAL: u64 = 6000;

/// Length of the random instance id of a peer.
pub const INSTANCE_ID_LEN: usize = 16;

/// The role a peer plays, with the settings of that role once loaded.
#[derive(Clone, Debug)]
pub enum PeerRole {
    PrUndefined,
    PrLocalWorker(Option<LocalWorkerConfig>),
    PrRemoteWorker,
    PrBroker(Option<BrokerConfig>),
}

/// The full configuration of a peer.
#[derive(Clone, Debug)]
pub struct PeerConfig {
    pub role: PeerRole,
    pub version: String,
    pub git_revision: String,
    pub instance_id: String,
    pub common: CommonConfig,
}

/// Settings shared by every role (environment prefix `PSN_`).
#[derive(Clone, Debug)]
pub struct CommonConfig {
    pub instance_name: String,
    pub mgmt_port: u16,
}

/// Settings of a broker (environment prefix `PSN_BROKER_`).
#[derive(Clone, Debug)]
pub struct BrokerConfig {
    pub outbound_bind_addresses: Vec<String>,
    pub inbound_http_server_bind_address: Vec<String>,
    pub inbound_http_server_accessible_address_prefix: String,
    pub cost: u8,
    pub doh_server_addresses: Vec<String>,
    pub doh_server_port: u16,
    pub doh_server_dns_name: String,
}

/// Settings of a local worker (environment prefix `PSN_LW_`).
#[derive(Clone, Debug)]
pub struct LocalWorkerConfig {
    pub pruntime_address: String,
    pub forwarder_bind_addresses: Vec<String>,
}

/// The label of a role inside a host name.
pub open spec fn role_label(role: PeerRole) -> Seq<char> {
    match role {
        PeerRole::PrLocalWorker(_) => "local_worker"@,
        PeerRole::PrRemoteWorker => "remote_worker"@,
        PeerRole::PrBroker(_) => "broker"@,
        PeerRole::PrUndefined => Seq::<char>::empty(),
    }
}

/// Roles that have a host name.
pub open spec fn role_has_host_name(role: PeerRole) -> bool {
    !(role is PrUndefined)
}

/// Roles that announce an mDNS service.
pub open spec fn role_announces(role: PeerRole) -> bool {
    role is PrLocalWorker || role is PrBroker
}

/// The mDNS service type of an announcing role.
pub open spec fn service_root(role: PeerRole) -> Seq<char> {
    match role {
        PeerRole::PrLocalWorker(_) => SERVICE_PSN_LOCAL_WORKER@,
        _ => SERVICE_PSN_BROKER@,
    }
}

/// Roles that carry their loaded settings.
pub open spec fn role_has_config(role: PeerRole) -> bool {
    match role {
        PeerRole::PrBroker(Some(_)) => true,
        PeerRole::PrLocalWorker(Some(_)) => true,
        _ => false,
    }
}

/// `<instance_id>.<instance_name>.<role>.psn.local`
pub open spec fn host_name_of(config: PeerConfig) -> Seq<char> {
    config.instance_id@ + "."@ + config.common.instance_name@ + "."@ + role_label(config.role)
        + ".psn.local"@
}

/// `<instance_name>.<service type>`
pub open spec fn mdns_fullname_of(config: PeerConfig) -> Seq<char> {
    config.common.instance_name@ + "."@ + service_root(config.role)
}

impl PeerConfig {
    /// The mDNS host name of this peer.
    pub fn host_name(&self) -> (s: String)
        requires
            role_has_host_name(self.role),
        ensures
            s@ == host_name_of(*self),
    {
        let role = match self.role {
            PeerRole::PrLocalWorker(_) => "local_worker",
            PeerRole::PrRemoteWorker => "remote_worker",
            PeerRole::PrBroker(_) => "broker",
            PeerRole::PrUndefined => "",
        };
        let mut s = self.instance_id.clone();
        s.append(".");
        s.append(self.common.instance_name.as_str());
        s.append(".");
        s.append(role);
        s.append(".psn.local");
        s
    }

    /// The full mDNS name of this peer's service.
    pub fn mdns_fullname(&self) -> (s: String)
        requires
            role_announces(self.role),
        ensures
            s@ == mdns_fullname_of(*self),
    {
        let root = match self.role {
            PeerRole::PrLocalWorker(_) => SERVICE_PSN_LOCAL_WORKER,
            _ => SERVICE_PSN_BROKER,
        };
        let mut s = self.common.instance_name.clone();
        s.append(".");
        s.append(root);
        s
    }

    /// Puts a configuration together from its loaded parts, with a fresh
    /// random instance id of `INSTANCE_ID_LEN` ASCII letters and digits.
    pub fn build(role: PeerRole, version: String, git_revision: String, common: CommonConfig) -> (c:
        PeerConfig)
        requires
            role_has_config(role),
        ensures
            c.role == role,
            c.version == version,
            c.git_revision == git_revision,
            c.common == common,
            c.instance_id@.len() == INSTANCE_ID_LEN,
            forall|i: int|
                0 <= i < INSTANCE_ID_LEN ==> is_ascii_alphanumeric(#[trigger] c.instance_id@[i]),
    {
        let instance_id = random_alphanumeric(INSTANCE_ID_LEN);
        PeerConfig { role, version, git_revision, instance_id, common }
    }

    /// The settings of this broker.
    pub fn broker(&self) -> (b: &BrokerConfig)
        requires
            self.role matches PeerRole::PrBroker(Some(_)),
        ensures
            self.role == PeerRole::PrBroker(Some(*b)),
    {
        match &self.role {
            PeerRole::PrBroker(Some(config)) => config,
            _ => vstd::pervasive::unreached(),
        }
    }

    /// The settings of this local worker.
    pub fn local_worker(&self) -> (w: &LocalWorkerConfig)
        requires
            self.role matches PeerRole::PrLocalWorker(Some(_)),
        ensures
            self.role == PeerRole::PrLocalWorker(Some(*w)),
    {
        match &self.role {
            PeerRole::PrLocalWorker(Some(config)) => config,
            _ => vstd::pervasive::unreached(),
        }
    }
}

/// The instance name derived from a host name: its first dot-separated
/// label.
pub fn instance_name_from_hostname(hostname: &str) -> (name: String)
    ensures
        name@ == split_on(hostname@, '.')[0],
{
    let labels = split_str(hostname, '.');
    proof {
        crate::text::lemma_split_on_nonempty(hostname@, '.');
        assert(string_views(labels@)[0] == labels@[0]@);
    }
    labels[0].clone()
}

/// Default management API port.
pub fn default_mgmt_port() -> (p: u16)
    ensures
        p == 1919,
{
    1919
}

/// Default bind addresses of the outbound SOCKS servers of a broker.
pub fn default_outbound_bind_addresses() -> (v: Vec<String>)
    ensures
        string_views(v@) == seq!["0.0.0.0:1981"@],
{
    let v = vec![String::from_str("0.0.0.0:1981")];
    assert(string_views(v@) =~= seq!["0.0.0.0:1981"@]);
    v
}

/// Default bind addresses of the inbound HTTP server of a broker.
pub fn default_inbound_http_server_bind_address() -> (v: Vec<String>)
    ensures
        string_views(v@) == seq!["0.0.0.0:19810"@],
{
    let v = vec![String::from_str("0.0.0.0:19810")];
    assert(string_views(v@) =~= seq!["0.0.0.0:19810"@]);
    v
}

/// Default cost a broker announces.
pub fn default_cost() -> (c: u8)
    ensures
        c == 10,
{
    10
}

/// Default DNS-over-HTTPS servers of a broker.
pub fn default_doh_server_addresses() -> (v: Vec<String>)
    ensures
        string_views(v@) == seq![
            "8.8.8.8"@,
            "8.8.4.4"@,
            "2001:4860:4860::8888"@,
            "2001:4860:4860::8844"@,
        ],
{
    let v = vec![
        String::from_str("8.8.8.8"),
        String::from_str("8.8.4.4"),
        String::from_str("2001:4860:4860::8888"),
        String::from_str("2001:4860:4860::8844"),
    ];
    assert(string_views(v@) =~= seq![
        "8.8.8.8"@,
        "8.8.4.4"@,
        "2001:4860:4860::8888"@,
        "2001:4860:4860::8844"@,
    ]);
    v
}

/// Default port of the DNS-over-HTTPS servers.
pub fn default_doh_server_port() -> (p: u16)
    ensures
        p == 443,
{
    443
}

/// Default TLS name of the DNS-over-HTTPS servers.
pub fn default_doh_server_dns_name() -> (s: String)
    ensures
        s@ == "dns.google"@,
{
    String::from_str("dns.google")
}

/// Default address of the pRuntime a local worker serves.
pub fn default_pruntime_address() -> (s: String)
    ensures
        s@ == "http://127.0.0.1:8000"@,
{
    String::from_str("http://127.0.0.1:8000")
}

/// Default bind addresses of the public forwarder of a local worker.
pub fn default_forwarder_bind_addresses() -> (v: Vec<String>)
    ensures
        string_views(v@) == seq!["0.0.0.0:1982"@],
{
    let v = vec![String::from_str("0.0.0.0:1982")];
    assert(string_views(v@) =~= seq!["0.0.0.0:1982"@]);
    v
}

} // verus!
