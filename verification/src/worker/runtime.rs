//! The runtime of a local worker: a state machine driven by messages.
//!
//! The worker checks its pRuntime, waits for a broker, locks itself to the
//! best one, has the pRuntime's outbound traffic go through that broker,
//! and keeps the broker informed with keepalives. Each handler below takes
//! the current state and one event, updates the state, and says what is to
//! be sent or done next; the loop that receives the events, performs the
//! I/O and sends the messages lies outside this library.

use vstd::prelude::*;
use crate::mgmt_types::{LocalWorkerIdentity, MyIdentity, R_V0_LOCAL_WORKER_KEEPALIVE};
use crate::peer::broker::{BrokerPeer, ServiceRecord, ipv4_string, ipv4_text, prop_lookup};
use crate::text::{
    decimal, decimal_string, join_with, lemma_decimal_digits, lemma_split_join, lemma_u16_text_no_colon, opt_view,
    split_on, split_str, string_views, trim, trim_str, u16_text_value,
};
use crate::thirdparty::{
    http_url, is_host_char, url_host, semver_requirement_met, url_host_and_port, url_host_port,
    version_meets_requirement,
};
use crate::broker::local_worker::{
    fresh_worker, has_key, index_of_key, keepalive_effect, known_alive, lemma_with_worker_found, plain_address_taken,
    workers_wf, KnownLocalWorker, KnownLocalWorkerStatus, UnusableWorkerAddress,
};
use crate::config::LOCAL_WORKER_KEEPALIVE_INTERVAL;

verus! {

/// The pRuntime versions a local worker works with.
pub const PRUNTIME_VERSION_REQ: &'static str = ">=2.0.0";

/// Seconds a failed worker waits before it starts over.
pub const RECOVERY_DELAY_SECS: u64 = 6;

/// What a local worker reads from its pRuntime's `get_info`.
#[derive(Clone, Debug)]
pub struct PRuntimeInfo {
    pub version: String,
    pub initialized: bool,
    pub public_key: Option<String>,
}

/// What a local worker reads from its pRuntime's network configuration.
#[derive(Clone, Copy, Debug)]
pub struct NetworkStatus {
    pub public_rpc_port: Option<u32>,
}

/// Why a worker failed: the last failure reported by its broker and by its
/// pRuntime.
#[derive(Clone, Debug)]
pub struct WorkerRuntimeFailReason {
    pub broker: Option<String>,
    pub pr: Option<String>,
}

/// The life-cycle status of a local worker.
#[derive(Clone, Debug)]
pub enum WorkerRuntimeStatus {
    Starting,
    WaitingForBroker,
    PendingProvision,
    Started,
    Failed(WorkerRuntimeFailReason),
}

/// The messages that drive a local worker's runtime.
#[derive(Clone, Debug)]
pub enum WorkerRuntimeChannelMessage {
    ShouldUpdateInfo(PRuntimeInfo),
    ShouldSetPRuntimeFailed(String),
    ShouldSetBrokerFailed(String),
    ShouldUpdateStatus(WorkerRuntimeStatus),
    ShouldLockBroker(BrokerPeer),
}

/// The state of a local worker's runtime.
#[derive(Debug)]
pub struct WorkerRuntime {
    pub status: WorkerRuntimeStatus,
    pub initial_info: Option<PRuntimeInfo>,
    pub last_info: Option<PRuntimeInfo>,
    pub pr_rpc_port: u32,
    pub pruntime_hostname: String,
    pub pruntime_rpc_prefix: String,
    pub peer_browser_started: bool,
    pub public_key: Option<String>,
    pub best_broker: Option<BrokerPeer>,
    pub best_broker_name: Option<String>,
    pub best_broker_mgmt_url: Option<String>,
    pub keepalive_content: Option<LocalWorkerIdentity>,
    pub network_status: Option<NetworkStatus>,
}

impl PRuntimeInfo {
    /// A copy of this info.
    pub fn duplicate(&self) -> (c: PRuntimeInfo)
        ensures
            c == *self,
    {
        PRuntimeInfo {
            version: self.version.clone(),
            initialized: self.initialized,
            public_key: match &self.public_key {
                Some(k) => Some(k.clone()),
                None => None,
            },
        }
    }
}

impl WorkerRuntime {
    /// A runtime that is starting and knows nothing yet.
    pub fn new() -> (rt: WorkerRuntime)
        ensures
            rt.status == WorkerRuntimeStatus::Starting,
            rt.initial_info is None,
            rt.last_info is None,
            rt.pr_rpc_port == 0,
            rt.pruntime_hostname@ == Seq::<char>::empty(),
            rt.pruntime_rpc_prefix@ == Seq::<char>::empty(),
            !rt.peer_browser_started,
            rt.public_key is None,
            rt.best_broker is None,
            rt.best_broker_name is None,
            rt.best_broker_mgmt_url is None,
            rt.keepalive_content is None,
            rt.network_status is None,
    {
        WorkerRuntime {
            status: WorkerRuntimeStatus::Starting,
            initial_info: None,
            last_info: None,
            pr_rpc_port: 0,
            pruntime_hostname: String::new(),
            pruntime_rpc_prefix: String::new(),
            peer_browser_started: false,
            public_key: None,
            best_broker: None,
            best_broker_name: None,
            best_broker_mgmt_url: None,
            keepalive_content: None,
            network_status: None,
        }
    }
}


/// What follows a pRuntime info update.
#[derive(Clone, Debug)]
pub enum UpdateInfoStep {
    /// Send `ShouldSetPRuntimeFailed` with this message; the update ends.
    Fail(String),
    /// Fetch the pRuntime's network configuration and hand it to
    /// `apply_network_status`.
    FetchNetworkConfig,
    /// Wait `RECOVERY_DELAY_SECS`, then send what `recover_from_failure` says.
    Recover,
    /// Nothing more to do.
    Done,
    /// The configured pRuntime address has no host name.
    NoPRuntimeHost,
    /// The pRuntime's version is not a semantic version.
    UnparsableVersion,
}

/// What follows a status change.
#[derive(Clone, Debug)]
pub enum StatusAction {
    /// Nothing to do.
    Nothing,
    /// Start browsing for brokers, and after a moment start waiting for the
    /// best one.
    StartPeerBrowser,
    /// Stop browsing for brokers, and have the pRuntime send its outbound
    /// traffic through this proxy URL: on success the worker is `Started`,
    /// else the broker has failed.
    ProvisionPRuntime(String),
    /// The chosen broker announces no usable outbound address.
    UnusableOutboundAddress,
}

/// The message `m` is a pRuntime failure with text `text`.
pub open spec fn is_pruntime_failure(m: WorkerRuntimeChannelMessage, text: Seq<char>) -> bool {
    m matches WorkerRuntimeChannelMessage::ShouldSetPRuntimeFailed(t) && t@ == text
}

/// The step `s` is a failure with text `text`.
pub open spec fn is_fail_step(s: UpdateInfoStep, text: Seq<char>) -> bool {
    s matches UpdateInfoStep::Fail(t) && t@ == text
}

/// How a starting runtime `rt` checks a pRuntime info `info`, given the
/// host name of the configured pRuntime address and whether the pRuntime's
/// version meets `PRUNTIME_VERSION_REQ`: the result is `rt2` and `step`.
pub open spec fn starting_check(
    rt: WorkerRuntime,
    info: PRuntimeInfo,
    host: Option<Seq<char>>,
    version_ok: Option<bool>,
    rt2: WorkerRuntime,
    step: UpdateInfoStep,
) -> bool {
    match host {
        None => step is NoPRuntimeHost && rt2 == rt,
        Some(h) => {
            &&& rt2 == WorkerRuntime { pruntime_hostname: rt2.pruntime_hostname, ..rt }
            &&& rt2.pruntime_hostname@ == h
            &&& match version_ok {
                None => step is UnparsableVersion,
                Some(false) => is_fail_step(step, "pRuntime version unsupported!"@),
                Some(true) => if !info.initialized {
                    is_fail_step(step, "pRuntime not initialized!"@)
                } else {
                    step is FetchNetworkConfig
                },
            }
        },
    }
}

/// `http://<pruntime host>:<port>`
pub open spec fn rpc_prefix_of(host: Seq<char>, port: u32) -> Seq<char> {
    "http://"@ + host + ":"@ + decimal(port as nat)
}

/// How the runtime `rt` takes in the network configuration `network` of
/// its pRuntime, which reported `info`: the result is `rt2`, and `m` is the
/// message to send.
pub open spec fn network_outcome(
    rt: WorkerRuntime,
    info: PRuntimeInfo,
    network: Result<NetworkStatus, String>,
    rt2: WorkerRuntime,
    m: WorkerRuntimeChannelMessage,
) -> bool {
    match network {
        Err(e) => rt2 == WorkerRuntime { network_status: None, ..rt }
            && m == WorkerRuntimeChannelMessage::ShouldSetPRuntimeFailed(e),
        Ok(ns) => match ns.public_rpc_port {
            None => rt2 == WorkerRuntime { network_status: Some(ns), pr_rpc_port: 0, ..rt }
                && is_pruntime_failure(m, "Public port not enabled in pRuntime!"@),
            Some(p) => {
                let rt1 = WorkerRuntime {
                    network_status: Some(ns),
                    pr_rpc_port: p,
                    pruntime_rpc_prefix: rt2.pruntime_rpc_prefix,
                    ..rt
                };
                &&& rt2.pruntime_rpc_prefix@ == rpc_prefix_of(rt.pruntime_hostname@, p)
                &&& match info.public_key {
                    None => rt2 == rt1 && is_pruntime_failure(m, "pRuntime has invalid public key!"@),
                    Some(k) => rt2 == WorkerRuntime {
                        public_key: Some(k),
                        initial_info: Some(info),
                        last_info: Some(info),
                        ..rt1
                    } && m == WorkerRuntimeChannelMessage::ShouldUpdateStatus(
                        WorkerRuntimeStatus::WaitingForBroker,
                    ),
                }
            },
        },
    }
}

impl WorkerRuntime {
    /// Checks the info of the pRuntime while starting: the pRuntime's host
    /// is taken from its address (`host`), its version must meet the
    /// requirement (`version_ok`) and it must be initialized; then its
    /// network configuration is needed.
    pub fn check_starting_info(&mut self, info: &PRuntimeInfo, host: Option<String>, version_ok: Option<bool>) -> (step: UpdateInfoStep)
        ensures
            starting_check(*old(self), *info, opt_view(host), version_ok, *final(self), step),
    {
        match host {
            None => UpdateInfoStep::NoPRuntimeHost,
            Some(h) => {
                self.pruntime_hostname = h;
                match version_ok {
                    None => UpdateInfoStep::UnparsableVersion,
                    Some(false) => UpdateInfoStep::Fail(String::from_str("pRuntime version unsupported!")),
                    Some(true) => {
                        if !info.initialized {
                            UpdateInfoStep::Fail(String::from_str("pRuntime not initialized!"))
                        } else {
                            UpdateInfoStep::FetchNetworkConfig
                        }
                    },
                }
            },
        }
    }

    /// Takes in a pRuntime info. A starting runtime checks it against the
    /// pRuntime at `pruntime_address` (see `check_starting_info`); a failed
    /// one records it and is to recover; any other records it.
    pub fn begin_update_info(&mut self, info: PRuntimeInfo, pruntime_address: &str) -> (step: UpdateInfoStep)
        ensures
            match old(self).status {
                WorkerRuntimeStatus::Starting => starting_check(
                    *old(self),
                    info,
                    url_host_port(pruntime_address@).0,
                    semver_requirement_met(PRUNTIME_VERSION_REQ@, info.version@),
                    *final(self),
                    step,
                ),
                WorkerRuntimeStatus::Failed(_) => step is Recover && *final(self) == (WorkerRuntime {
                    last_info: Some(info),
                    ..*old(self)
                }),
                _ => step is Done && *final(self) == (WorkerRuntime { last_info: Some(info), ..*old(self) }),
            },
    {
        match self.status {
            WorkerRuntimeStatus::Starting => {
                let (host, _port) = url_host_and_port(pruntime_address);
                let version_ok = version_meets_requirement(PRUNTIME_VERSION_REQ, info.version.as_str());
                self.check_starting_info(&info, host, version_ok)
            },
            WorkerRuntimeStatus::Failed(_) => {
                self.last_info = Some(info);
                UpdateInfoStep::Recover
            },
            _ => {
                self.last_info = Some(info);
                UpdateInfoStep::Done
            },
        }
    }

    /// Takes in the network configuration of the pRuntime (or the error of
    /// fetching it, as text): the pRuntime must have a public RPC port and
    /// a public key, and then the worker waits for a broker.
    pub fn apply_network_status(&mut self, info: PRuntimeInfo, network: Result<NetworkStatus, String>) -> (m: WorkerRuntimeChannelMessage)
        ensures
            network_outcome(*old(self), info, network, *final(self), m),
    {
        match network {
            Err(e) => {
                self.network_status = None;
                WorkerRuntimeChannelMessage::ShouldSetPRuntimeFailed(e)
            },
            Ok(ns) => {
                self.network_status = Some(ns);
                match ns.public_rpc_port {
                    None => {
                        self.pr_rpc_port = 0;
                        WorkerRuntimeChannelMessage::ShouldSetPRuntimeFailed(
                            String::from_str("Public port not enabled in pRuntime!"),
                        )
                    },
                    Some(p) => {
                        self.pr_rpc_port = p;
                        let mut prefix = String::from_str("http://");
                        prefix.append(self.pruntime_hostname.as_str());
                        prefix.append(":");
                        let port = decimal_string(p as u64);
                        prefix.append(port.as_str());
                        self.pruntime_rpc_prefix = prefix;
                        match &info.public_key {
                            None => WorkerRuntimeChannelMessage::ShouldSetPRuntimeFailed(
                                String::from_str("pRuntime has invalid public key!"),
                            ),
                            Some(k) => {
                                self.public_key = Some(k.clone());
                                self.initial_info = Some(info.duplicate());
                                self.last_info = Some(info);
                                WorkerRuntimeChannelMessage::ShouldUpdateStatus(
                                    WorkerRuntimeStatus::WaitingForBroker,
                                )
                            },
                        }
                    },
                }
            },
        }
    }
}


/// The address under which a worker's public forwarder is reached, from
/// its first bind address `<host>:<port>`: `http://<host>:<port>`, with an
/// unspecified host (`0.0.0.0`) replaced by the worker's first IPv4
/// interface address. None when there is no bind address, it has no port,
/// or the host is unspecified and there is no interface.
pub open spec fn forwarder_address_of(binds: Seq<Seq<char>>, first_interface: Option<[u8; 4]>) -> Option<Seq<char>> {
    if binds.len() == 0 {
        None
    } else {
        let parts = split_on(binds[0], ':');
        if parts.len() < 2 {
            None
        } else if parts[0] == "0.0.0.0"@ {
            match first_interface {
                None => None,
                Some(a) => Some("http://"@ + ipv4_text(a@) + ":"@ + parts[1]),
            }
        } else {
            Some("http://"@ + parts[0] + ":"@ + parts[1])
        }
    }
}

/// The SOCKS5 proxy through which a broker announced by `info` takes
/// outbound traffic: the first of its outbound addresses (`oa`, comma
/// separated, trimmed) as `socks5://<host>:<port>`, with an unspecified host
/// (`0.0.0.0`) replaced by the broker's first address. None when there is
/// no `oa`, the address has no port, or the host is unspecified and the
/// broker has no address.
pub open spec fn proxy_url_of(info: ServiceRecord) -> Option<Seq<char>> {
    match prop_lookup(info.properties@, "oa"@) {
        None => None,
        Some(oa) => {
            let first = trim(split_on(oa, ',')[0]);
            let parts = split_on(first, ':');
            if parts.len() < 2 {
                None
            } else if parts[0] == "0.0.0.0"@ {
                if info.addresses@.len() == 0 {
                    None
                } else {
                    Some("socks5://"@ + ipv4_text(info.addresses@[0]@) + ":"@ + parts[1])
                }
            } else {
                Some("socks5://"@ + parts[0] + ":"@ + parts[1])
            }
        },
    }
}

/// Builds `<scheme><host>:<port>`.
fn scheme_host_port(scheme: &str, host: &str, port: &str) -> (s: String)
    ensures
        s@ == scheme@ + host@ + ":"@ + port@,
{
    let mut s = String::from_str(scheme);
    s.append(host);
    s.append(":");
    s.append(port);
    s
}

/// The address of a worker's public forwarder (see `forwarder_address_of`).
pub fn forwarder_address(binds: &Vec<String>, first_interface: Option<[u8; 4]>) -> (a: Option<String>)
    ensures
        opt_view(a) == forwarder_address_of(string_views(binds@), first_interface),
{
    if binds.len() == 0 {
        return None;
    }
    let parts = split_str(binds[0].as_str(), ':');
    proof {
        assert(string_views(binds@)[0] == binds@[0]@);
    }
    if parts.len() < 2 {
        return None;
    }
    proof {
        assert(string_views(parts@)[0] == parts@[0]@);
        assert(string_views(parts@)[1] == parts@[1]@);
    }
    let unspecified = String::from_str("0.0.0.0");
    if parts[0] == unspecified {
        match first_interface {
            None => None,
            Some(a) => {
                let host = ipv4_string(&a);
                Some(scheme_host_port("http://", host.as_str(), parts[1].as_str()))
            },
        }
    } else {
        Some(scheme_host_port("http://", parts[0].as_str(), parts[1].as_str()))
    }
}

/// The outbound proxy of a broker (see `proxy_url_of`).
pub fn pruntime_proxy_url(info: &ServiceRecord) -> (u: Option<String>)
    ensures
        opt_view(u) == proxy_url_of(*info),
{
    let oa = match info.get_property("oa") {
        None => {
            return None;
        },
        Some(oa) => oa,
    };
    let pieces = split_str(oa.as_str(), ',');
    proof {
        crate::text::lemma_split_on_nonempty(oa@, ',');
        assert(string_views(pieces@)[0] == pieces@[0]@);
    }
    let first = trim_str(pieces[0].as_str());
    let parts = split_str(first.as_str(), ':');
    if parts.len() < 2 {
        return None;
    }
    proof {
        assert(string_views(parts@)[0] == parts@[0]@);
        assert(string_views(parts@)[1] == parts@[1]@);
    }
    let unspecified = String::from_str("0.0.0.0");
    if parts[0] == unspecified {
        if info.addresses.len() == 0 {
            None
        } else {
            let host = ipv4_string(&info.addresses[0]);
            Some(scheme_host_port("socks5://", host.as_str(), parts[1].as_str()))
        }
    } else {
        Some(scheme_host_port("socks5://", parts[0].as_str(), parts[1].as_str()))
    }
}

/// The status a broker failure `msg` leads to, if any: a failed worker
/// records it as its broker failure unless it is the one already recorded;
/// any other worker fails with just this broker failure.
pub open spec fn broker_failure_status(status: WorkerRuntimeStatus, msg: String) -> Option<WorkerRuntimeStatus> {
    match status {
        WorkerRuntimeStatus::Failed(reason) => if reason.broker matches Some(b) && b@ == msg@ {
            None
        } else {
            Some(WorkerRuntimeStatus::Failed(WorkerRuntimeFailReason { broker: Some(msg), ..reason }))
        },
        _ => Some(WorkerRuntimeStatus::Failed(WorkerRuntimeFailReason { pr: None, broker: Some(msg) })),
    }
}

/// The status a pRuntime failure `msg` leads to, if any: a failed worker
/// records it as its pRuntime failure unless it is the one already
/// recorded; any other worker fails with just this pRuntime failure.
pub open spec fn pruntime_failure_status(status: WorkerRuntimeStatus, msg: String) -> Option<WorkerRuntimeStatus> {
    match status {
        WorkerRuntimeStatus::Failed(reason) => if reason.pr matches Some(p) && p@ == msg@ {
            None
        } else {
            Some(WorkerRuntimeStatus::Failed(WorkerRuntimeFailReason { pr: Some(msg), ..reason }))
        },
        _ => Some(WorkerRuntimeStatus::Failed(WorkerRuntimeFailReason { broker: None, pr: Some(msg) })),
    }
}

/// A copy of an optional string.
fn duplicate_opt(o: &Option<String>) -> (c: Option<String>)
    ensures
        c == *o,
{
    match o {
        Some(s) => Some(s.clone()),
        None => None,
    }
}

impl WorkerRuntime {
    /// Locks the worker to the broker `peer`: it remembers the broker and
    /// prepares the keepalive it will send it, which names the broker's
    /// instance, the worker's forwarder `address_string`, its pRuntime's
    /// public port and public key; then the pRuntime is to be provisioned.
    pub fn handle_lock_peer(&mut self, peer: BrokerPeer, address_string: String) -> (m: WorkerRuntimeChannelMessage)
        requires
            old(self).network_status matches Some(ns) && ns.public_rpc_port is Some,
            old(self).public_key is Some,
        ensures
            *final(self) == (WorkerRuntime {
                best_broker: Some(peer),
                best_broker_name: Some(peer.instance_name),
                best_broker_mgmt_url: Some(peer.mgmt_addr),
                keepalive_content: Some(
                    LocalWorkerIdentity {
                        instance_name: peer.instance_name,
                        instance_id: peer.id,
                        address_string,
                        public_port: old(self).network_status->0.public_rpc_port->0 as u16,
                        public_key: old(self).public_key->0,
                    },
                ),
                ..*old(self)
            }),
            m == WorkerRuntimeChannelMessage::ShouldUpdateStatus(WorkerRuntimeStatus::PendingProvision),
    {
        let port = match self.network_status {
            Some(ns) => match ns.public_rpc_port {
                Some(p) => p,
                None => vstd::pervasive::unreached(),
            },
            None => vstd::pervasive::unreached(),
        };
        let public_key = match &self.public_key {
            Some(k) => k.clone(),
            None => vstd::pervasive::unreached(),
        };
        let identity = LocalWorkerIdentity {
            instance_name: peer.instance_name.clone(),
            instance_id: peer.id.clone(),
            address_string,
            public_port: port as u16,
            public_key,
        };
        self.best_broker_name = Some(peer.instance_name.clone());
        self.best_broker_mgmt_url = Some(peer.mgmt_addr.clone());
        self.best_broker = Some(peer);
        self.keepalive_content = Some(identity);
        WorkerRuntimeChannelMessage::ShouldUpdateStatus(WorkerRuntimeStatus::PendingProvision)
    }

    /// Locks the worker to the broker `peer` (as `handle_lock_peer`), with
    /// the keepalive naming the worker's forwarder at the address composed
    /// from its first bind address and first interface
    /// (`forwarder_address_of`). None, and nothing changes, when no such
    /// address can be composed.
    pub fn lock_to_broker(&mut self, peer: BrokerPeer, binds: &Vec<String>, first_interface: Option<[u8; 4]>) -> (m: Option<WorkerRuntimeChannelMessage>)
        requires
            old(self).network_status matches Some(ns) && ns.public_rpc_port is Some,
            old(self).public_key is Some,
        ensures
            match forwarder_address_of(string_views(binds@), first_interface) {
                None => m is None && *final(self) == *old(self),
                Some(a) => {
                    &&& m == Some(WorkerRuntimeChannelMessage::ShouldUpdateStatus(WorkerRuntimeStatus::PendingProvision))
                    &&& final(self).keepalive_content matches Some(id) && id.address_string@ == a
                    &&& *final(self) == (WorkerRuntime {
                        best_broker: Some(peer),
                        best_broker_name: Some(peer.instance_name),
                        best_broker_mgmt_url: Some(peer.mgmt_addr),
                        keepalive_content: Some(
                            LocalWorkerIdentity {
                                instance_name: peer.instance_name,
                                instance_id: peer.id,
                                address_string: final(self).keepalive_content->0.address_string,
                                public_port: old(self).network_status->0.public_rpc_port->0 as u16,
                                public_key: old(self).public_key->0,
                            },
                        ),
                        ..*old(self)
                    })
                },
            },
    {
        match forwarder_address(binds, first_interface) {
            None => None,
            Some(address_string) => Some(self.handle_lock_peer(peer, address_string)),
        }
    }

    /// Moves to `new_status`. Waiting for a broker starts the peer browser;
    /// pending provision has the pRuntime use the chosen broker's outbound
    /// proxy.
    pub fn handle_update_status(&mut self, new_status: WorkerRuntimeStatus) -> (a: StatusAction)
        requires
            new_status is PendingProvision ==> old(self).best_broker is Some,
        ensures
            match new_status {
                WorkerRuntimeStatus::WaitingForBroker => *final(self) == (WorkerRuntime {
                    status: new_status,
                    peer_browser_started: true,
                    ..*old(self)
                }) && a is StartPeerBrowser,
                WorkerRuntimeStatus::PendingProvision => *final(self) == (WorkerRuntime {
                    status: new_status,
                    ..*old(self)
                }) && match proxy_url_of(old(self).best_broker->0.service_info) {
                    Some(u) => a matches StatusAction::ProvisionPRuntime(p) && p@ == u,
                    None => a is UnusableOutboundAddress,
                },
                _ => *final(self) == (WorkerRuntime { status: new_status, ..*old(self) }) && a is Nothing,
            },
    {
        let action = match new_status {
            WorkerRuntimeStatus::WaitingForBroker => {
                self.peer_browser_started = true;
                StatusAction::StartPeerBrowser
            },
            WorkerRuntimeStatus::PendingProvision => {
                match &self.best_broker {
                    Some(b) => match pruntime_proxy_url(&b.service_info) {
                        Some(u) => StatusAction::ProvisionPRuntime(u),
                        None => StatusAction::UnusableOutboundAddress,
                    },
                    None => vstd::pervasive::unreached(),
                }
            },
            _ => StatusAction::Nothing,
        };
        self.status = new_status;
        action
    }

    /// The status to move to on a broker failure `msg`, if any.
    pub fn handle_broker_failure(&self, msg: String) -> (s: Option<WorkerRuntimeStatus>)
        ensures
            s == broker_failure_status(self.status, msg),
    {
        match &self.status {
            WorkerRuntimeStatus::Failed(reason) => {
                if let Some(b) = &reason.broker {
                    if *b == msg {
                        return None;
                    }
                }
                Some(WorkerRuntimeStatus::Failed(WorkerRuntimeFailReason {
                    broker: Some(msg),
                    pr: duplicate_opt(&reason.pr),
                }))
            },
            _ => Some(WorkerRuntimeStatus::Failed(WorkerRuntimeFailReason { pr: None, broker: Some(msg) })),
        }
    }

    /// The status to move to on a pRuntime failure `msg`, if any.
    pub fn handle_pruntime_failure(&self, msg: String) -> (s: Option<WorkerRuntimeStatus>)
        ensures
            s == pruntime_failure_status(self.status, msg),
    {
        match &self.status {
            WorkerRuntimeStatus::Failed(reason) => {
                if let Some(p) = &reason.pr {
                    if *p == msg {
                        return None;
                    }
                }
                Some(WorkerRuntimeStatus::Failed(WorkerRuntimeFailReason {
                    broker: duplicate_opt(&reason.broker),
                    pr: Some(msg),
                }))
            },
            _ => Some(WorkerRuntimeStatus::Failed(WorkerRuntimeFailReason { broker: None, pr: Some(msg) })),
        }
    }

    /// A failed worker starts over; any other stays as it is.
    pub fn recover_from_failure(&self) -> (s: Option<WorkerRuntimeStatus>)
        ensures
            s == (if self.status is Failed {
                Some(WorkerRuntimeStatus::Starting)
            } else {
                None::<WorkerRuntimeStatus>
            }),
    {
        match self.status {
            WorkerRuntimeStatus::Failed(_) => Some(WorkerRuntimeStatus::Starting),
            _ => None,
        }
    }

    /// The URL of the keepalive to the chosen broker.
    pub fn keepalive_url(&self) -> (u: String)
        requires
            self.best_broker is Some,
        ensures
            u@ == self.best_broker->0.mgmt_addr@ + R_V0_LOCAL_WORKER_KEEPALIVE@,
    {
        match &self.best_broker {
            Some(b) => {
                let mut u = b.mgmt_addr.clone();
                u.append(R_V0_LOCAL_WORKER_KEEPALIVE);
                u
            },
            None => vstd::pervasive::unreached(),
        }
    }
}

/// The message that follows provisioning the pRuntime with a broker's
/// outbound proxy: the worker has started, or, when provisioning failed
/// with error text `e`, the broker has failed with `e`.
pub fn provisioning_message(result: Result<(), String>) -> (m: WorkerRuntimeChannelMessage)
    ensures
        match result {
            Ok(()) => m == WorkerRuntimeChannelMessage::ShouldUpdateStatus(WorkerRuntimeStatus::Started),
            Err(e) => m == WorkerRuntimeChannelMessage::ShouldSetBrokerFailed(e),
        },
{
    match result {
        Ok(()) => WorkerRuntimeChannelMessage::ShouldUpdateStatus(WorkerRuntimeStatus::Started),
        Err(e) => WorkerRuntimeChannelMessage::ShouldSetBrokerFailed(e),
    }
}

/// The message that follows a check of the pRuntime's `get_info`: its
/// info is to be taken in, or, when the call failed with error text `e`,
/// the pRuntime has failed with `e`.
pub fn pruntime_info_message(result: Result<PRuntimeInfo, String>) -> (m: WorkerRuntimeChannelMessage)
    ensures
        match result {
            Ok(info) => m == WorkerRuntimeChannelMessage::ShouldUpdateInfo(info),
            Err(e) => m == WorkerRuntimeChannelMessage::ShouldSetPRuntimeFailed(e),
        },
{
    match result {
        Ok(info) => WorkerRuntimeChannelMessage::ShouldUpdateInfo(info),
        Err(e) => WorkerRuntimeChannelMessage::ShouldSetPRuntimeFailed(e),
    }
}

/// The message that follows a keepalive sent to the broker: none when a
/// reply came that reads as the broker's identity (whatever its HTTP
/// status); when sending failed or the reply does not read, with error
/// text `e`, the broker has failed with `e`.
pub fn keepalive_outcome_message(result: Result<MyIdentity, String>) -> (m: Option<WorkerRuntimeChannelMessage>)
    ensures
        match result {
            Ok(_) => m is None,
            Err(e) => m == Some(WorkerRuntimeChannelMessage::ShouldSetBrokerFailed(e)),
        },
{
    match result {
        Ok(_) => None,
        Err(e) => Some(WorkerRuntimeChannelMessage::ShouldSetBrokerFailed(e)),
    }
}

/// What the wait for a broker does next.
#[derive(Clone, Copy, Debug)]
pub enum BrokerWaitStep {
    /// The worker no longer waits for a broker: stop.
    Stop,
    /// Lock the worker to the best broker: send `ShouldLockBroker`, and stop.
    Lock,
    /// Check again in a second, with this count of checks.
    Retry(u8),
}

/// Polls after which a worker that sees a best broker locks itself to it.
pub const BROKER_WAIT_POLLS: u8 = 5;

/// One poll of the wait for a broker, in status `status`, after `loop_num`
/// polls, with a best broker found or not: a worker that still waits counts
/// the poll (wrapping at 256), and locks itself to the broker once it has
/// polled `BROKER_WAIT_POLLS` times and sees one.
pub fn broker_wait_step(status: &WorkerRuntimeStatus, loop_num: u8, found: bool) -> (s: BrokerWaitStep)
    ensures
        !(*status is WaitingForBroker) ==> s is Stop,
        *status is WaitingForBroker ==> {
            let n = if loop_num == 255 { 0 } else { (loop_num + 1) as u8 };
            if found && n >= BROKER_WAIT_POLLS {
                s is Lock
            } else {
                s == BrokerWaitStep::Retry(n)
            }
        },
{
    match status {
        WorkerRuntimeStatus::WaitingForBroker => {
            let n = loop_num.wrapping_add(1);
            if found && n >= BROKER_WAIT_POLLS {
                BrokerWaitStep::Lock
            } else {
                BrokerWaitStep::Retry(n)
            }
        },
        _ => BrokerWaitStep::Stop,
    }
}

/// Seconds between two health checks of the pRuntime, by status.
pub fn pruntime_health_check_interval(status: &WorkerRuntimeStatus) -> (secs: u64)
    ensures
        secs == match *status {
            WorkerRuntimeStatus::Starting => 1u64,
            WorkerRuntimeStatus::WaitingForBroker => 15,
            WorkerRuntimeStatus::PendingProvision => 15,
            WorkerRuntimeStatus::Started => 6,
            WorkerRuntimeStatus::Failed(_) => 3,
        },
{
    match status {
        WorkerRuntimeStatus::Starting => 1,
        WorkerRuntimeStatus::WaitingForBroker => 15,
        WorkerRuntimeStatus::PendingProvision => 15,
        WorkerRuntimeStatus::Started => 6,
        WorkerRuntimeStatus::Failed(_) => 3,
    }
}

/// Whether a worker in `status` sends keepalives to its broker: once it is
/// locked to one.
pub fn broker_keepalive_due(status: &WorkerRuntimeStatus) -> (b: bool)
    ensures
        b == (*status is PendingProvision || *status is Started),
{
    match status {
        WorkerRuntimeStatus::PendingProvision => true,
        WorkerRuntimeStatus::Started => true,
        _ => false,
    }
}

/// Milliseconds between two rounds of the broker health loop, by status.
pub fn broker_health_check_interval(status: &WorkerRuntimeStatus) -> (ms: u64)
    ensures
        ms == if *status is PendingProvision || *status is Started {
            LOCAL_WORKER_KEEPALIVE_INTERVAL
        } else {
            3000
        },
{
    if broker_keepalive_due(status) {
        LOCAL_WORKER_KEEPALIVE_INTERVAL
    } else {
        3000
    }
}


/// A broker failure reported again, once the worker has failed with it, is
/// absorbed: it leads to no further status change.
pub proof fn law_repeated_broker_failure_absorbed(status: WorkerRuntimeStatus, msg: String)
    requires
        broker_failure_status(status, msg) is Some,
    ensures
        broker_failure_status(broker_failure_status(status, msg)->0, msg) is None,
{
}

/// A pRuntime failure reported again, once the worker has failed with it,
/// is absorbed: it leads to no further status change.
pub proof fn law_repeated_pruntime_failure_absorbed(status: WorkerRuntimeStatus, msg: String)
    requires
        pruntime_failure_status(status, msg) is Some,
    ensures
        pruntime_failure_status(pruntime_failure_status(status, msg)->0, msg) is None,
{
}

/// A broker failure keeps the pRuntime failure already recorded, and a
/// pRuntime failure the broker failure already recorded.
pub proof fn law_failure_reasons_kept(reason: WorkerRuntimeFailReason, msg: String)
    ensures
        broker_failure_status(WorkerRuntimeStatus::Failed(reason), msg) matches Some(
            WorkerRuntimeStatus::Failed(r),
        ) ==> r.pr == reason.pr,
        pruntime_failure_status(WorkerRuntimeStatus::Failed(reason), msg) matches Some(
            WorkerRuntimeStatus::Failed(r),
        ) ==> r.broker == reason.broker,
{
}

/// `<h>:<p>` splits at its colon into `h` and `p` when neither holds a
/// colon.
proof fn lemma_split_pair(h: Seq<char>, p: Seq<char>)
    requires
        !h.contains(':'),
        !p.contains(':'),
    ensures
        split_on(h + ":"@ + p, ':') == seq![h, p],
{
    reveal_strlit(":");
    let parts = seq![h, p];
    assert(parts.drop_last() =~= seq![h]);
    assert(join_with(seq![h], seq![':']) == h);
    assert(":"@ =~= seq![':']);
    assert(join_with(parts, seq![':']) == join_with(seq![h], seq![':']) + seq![':'] + p);
    assert(join_with(parts, seq![':']) =~= h + ":"@ + p);
    lemma_split_join(parts, ':');
}

/// A bind address `<h>:<p>` splits at its colon into the host and the
/// port text, when the host is one `urlparse` keeps and the port parses.
proof fn lemma_split_bind(h: Seq<char>, p: Seq<char>)
    requires
        url_host(h),
        u16_text_value(p) is Some,
    ensures
        split_on(h + ":"@ + p, ':') == seq![h, p],
{
    lemma_u16_text_no_colon(p);
    assert(!h.contains(':')) by {
        if h.contains(':') {
            let i = choose|i: int| 0 <= i < h.len() && h[i] == ':';
            assert(is_host_char(h[i]));
        }
    }
    lemma_split_pair(h, p);
}

/// The outbound proxy a worker gives its pRuntime comes from the first
/// entry `<h>:<p>` of the broker's announced outbound addresses (`oa`,
/// comma separated, trimmed): `socks5://<h>:<p>` whatever addresses the
/// announcement carries, unless `h` is `0.0.0.0`; then the host is the
/// broker's first announced address, and there is no proxy without one.
/// An announcement without `oa`, or whose first entry has no port, gives
/// no proxy.
pub proof fn law_outbound_proxy_from_announcement(info: ServiceRecord, h: Seq<char>, p: Seq<char>)
    requires
        prop_lookup(info.properties@, "oa"@) is Some,
        trim(split_on(prop_lookup(info.properties@, "oa"@)->0, ',')[0]) == h + ":"@ + p,
        !h.contains(':'),
        !p.contains(':'),
    ensures
        h != "0.0.0.0"@ ==> proxy_url_of(info) == Some("socks5://"@ + h + ":"@ + p),
        h == "0.0.0.0"@ && info.addresses@.len() > 0 ==> proxy_url_of(info) == Some(
            "socks5://"@ + ipv4_text(info.addresses@[0]@) + ":"@ + p,
        ),
        h == "0.0.0.0"@ && info.addresses@.len() == 0 ==> proxy_url_of(info) is None,
{
    lemma_split_pair(h, p);
}

/// Without an `oa` property, or with a first entry that has no `:`, a
/// broker's announcement gives no outbound proxy.
pub proof fn law_no_outbound_proxy(info: ServiceRecord)
    requires
        prop_lookup(info.properties@, "oa"@) is None || !trim(
            split_on(prop_lookup(info.properties@, "oa"@)->0, ',')[0],
        ).contains(':'),
    ensures
        proxy_url_of(info) is None,
{
    if prop_lookup(info.properties@, "oa"@) is Some {
        let first = trim(split_on(prop_lookup(info.properties@, "oa"@)->0, ',')[0]);
        crate::text::lemma_split_without(first, ':');
    }
}

/// A worker that has not failed moves to `Failed` on a broker failure
/// `msg`, with `msg` as the broker failure and no pRuntime failure; on a
/// pRuntime failure `msg`, with `msg` as the pRuntime failure and no broker
/// failure.
pub proof fn law_failure_fails_running_worker(status: WorkerRuntimeStatus, msg: String)
    requires
        !(status is Failed),
    ensures
        broker_failure_status(status, msg) == Some(
            WorkerRuntimeStatus::Failed(WorkerRuntimeFailReason { pr: None, broker: Some(msg) }),
        ),
        pruntime_failure_status(status, msg) == Some(
            WorkerRuntimeStatus::Failed(WorkerRuntimeFailReason { broker: None, pr: Some(msg) }),
        ),
{
}

/// A failure report is absorbed (no status change) exactly when the
/// worker has already failed with that same failure of the same kind;
/// otherwise a failed worker records the new failure and keeps the other
/// kind's.
pub proof fn law_failure_absorbed_only_when_repeated(reason: WorkerRuntimeFailReason, msg: String)
    ensures
        broker_failure_status(WorkerRuntimeStatus::Failed(reason), msg) is None <==> (reason.broker matches Some(
            b,
        ) && b@ == msg@),
        pruntime_failure_status(WorkerRuntimeStatus::Failed(reason), msg) is None <==> (reason.pr matches Some(p)
            && p@ == msg@),
        broker_failure_status(WorkerRuntimeStatus::Failed(reason), msg) is Some ==> broker_failure_status(
            WorkerRuntimeStatus::Failed(reason),
            msg,
        ) == Some(WorkerRuntimeStatus::Failed(WorkerRuntimeFailReason { broker: Some(msg), pr: reason.pr })),
        pruntime_failure_status(WorkerRuntimeStatus::Failed(reason), msg) is Some ==> pruntime_failure_status(
            WorkerRuntimeStatus::Failed(reason),
            msg,
        ) == Some(WorkerRuntimeStatus::Failed(WorkerRuntimeFailReason { broker: reason.broker, pr: Some(msg) })),
{
}

/// A dotted decimal IPv4 address is a host name that `urlparse` keeps.
proof fn lemma_ipv4_text_host(a: [u8; 4])
    ensures
        url_host(ipv4_text(a@)),
{
    reveal_strlit(".");
    lemma_decimal_digits(a@[0] as nat);
    lemma_decimal_digits(a@[1] as nat);
    lemma_decimal_digits(a@[2] as nat);
    lemma_decimal_digits(a@[3] as nat);
    let t = ipv4_text(a@);
    let d0 = decimal(a@[0] as nat);
    let d1 = decimal(a@[1] as nat);
    let d2 = decimal(a@[2] as nat);
    let d3 = decimal(a@[3] as nat);
    let x1 = d0 + "."@;
    let x2 = x1 + d1;
    let x3 = x2 + "."@;
    let x4 = x3 + d2;
    let x5 = x4 + "."@;
    assert(t == x5 + d3);
    assert forall|i: int| 0 <= i < x1.len() implies is_host_char(#[trigger] x1[i]) by {
        if i < d0.len() {
            assert(x1[i] == d0[i]);
        }
    }
    assert forall|i: int| 0 <= i < x2.len() implies is_host_char(#[trigger] x2[i]) by {
        if i >= x1.len() {
            assert(x2[i] == d1[i - x1.len()]);
        } else {
            assert(x2[i] == x1[i]);
        }
    }
    assert forall|i: int| 0 <= i < x3.len() implies is_host_char(#[trigger] x3[i]) by {
        if i < x2.len() {
            assert(x3[i] == x2[i]);
        }
    }
    assert forall|i: int| 0 <= i < x4.len() implies is_host_char(#[trigger] x4[i]) by {
        if i >= x3.len() {
            assert(x4[i] == d2[i - x3.len()]);
        } else {
            assert(x4[i] == x3[i]);
        }
    }
    assert forall|i: int| 0 <= i < x5.len() implies is_host_char(#[trigger] x5[i]) by {
        if i < x4.len() {
            assert(x5[i] == x4[i]);
        }
    }
    assert forall|i: int| 0 <= i < t.len() implies is_host_char(#[trigger] t[i]) by {
        if i >= x5.len() {
            assert(t[i] == d3[i - x5.len()]);
        } else {
            assert(t[i] == x5[i]);
        }
    }
}

/// The host a worker with first forwarder bind address `<h>:<p>` is
/// reached at: `h`, or its first interface address when `h` is `0.0.0.0`.
pub open spec fn forwarder_host(h: Seq<char>, first_interface: Option<[u8; 4]>) -> Seq<char> {
    if h == "0.0.0.0"@ {
        ipv4_text(first_interface->0@)
    } else {
        h
    }
}

/// The address a worker puts in its keepalive, composed from a first
/// forwarder bind address `<h>:<p>` (a host of the characters of
/// `is_host_char`, and a port text that `parse::<u16>` reads as `n > 0`),
/// is where a broker that takes the keepalive in afresh reaches the
/// worker: at `h` (or at the worker's first interface address when `h` is
/// `0.0.0.0`), port `n`, as an active worker under the keepalive's public
/// key, public port and instance.
pub proof fn law_keepalive_address_round_trip(
    binds: Seq<Seq<char>>,
    first_interface: Option<[u8; 4]>,
    h: Seq<char>,
    p: Seq<char>,
    n: u16,
    ws: Seq<KnownLocalWorker>,
    ws2: Seq<KnownLocalWorker>,
    keys: Seq<String>,
    keys2: Seq<String>,
    lw: LocalWorkerIdentity,
    r: Result<(), UnusableWorkerAddress>,
)
    requires
        binds.len() > 0,
        binds[0] == h + ":"@ + p,
        url_host(h),
        u16_text_value(p) == Some(n),
        n > 0,
        h == "0.0.0.0"@ ==> first_interface is Some,
        forwarder_address_of(binds, first_interface) == Some(lw.address_string@),
        !known_alive(ws, lw.public_key@),
        workers_wf(ws2),
        keepalive_effect(ws, ws2, keys, keys2, lw, r),
        plain_address_taken(ws, ws2, lw, r),
    ensures
        r is Ok,
        has_key(ws2, lw.public_key@),
        ws2[index_of_key(ws2, lw.public_key@)].hostname@ == forwarder_host(h, first_interface),
        ws2[index_of_key(ws2, lw.public_key@)].forwarder_port == n,
        ws2[index_of_key(ws2, lw.public_key@)].status == KnownLocalWorkerStatus::Active,
        ws2[index_of_key(ws2, lw.public_key@)].public_key@ == lw.public_key@,
        ws2[index_of_key(ws2, lw.public_key@)].public_port == lw.public_port,
        ws2[index_of_key(ws2, lw.public_key@)].instance_id == lw.instance_id,
{
    let k = lw.public_key@;
    lemma_split_bind(h, p);
    let host = forwarder_host(h, first_interface);
    if h == "0.0.0.0"@ {
        lemma_ipv4_text_host(first_interface->0);
    }
    assert(lw.address_string@ == http_url(host, p));
    let (uh, up) = url_host_port(lw.address_string@);
    assert(uh is Some && up is Some);
    let fresh = fresh_worker(lw, ws2[index_of_key(ws2, k)].hostname, up->0);
    lemma_with_worker_found(ws, fresh);
}

/// A worker's forwarder address comes from its first bind address
/// `<h>:<p>`: `http://<h>:<p>`, or `http://<first interface>:<p>` when `h`
/// is `0.0.0.0` (none without an interface). With no bind address, or a
/// first one without `:`, there is none.
pub proof fn law_forwarder_address_from_bind(binds: Seq<Seq<char>>, first_interface: Option<[u8; 4]>, h: Seq<char>, p: Seq<char>)
    requires
        !h.contains(':'),
        !p.contains(':'),
    ensures
        binds.len() > 0 && binds[0] == h + ":"@ + p && h != "0.0.0.0"@ ==> forwarder_address_of(
            binds,
            first_interface,
        ) == Some("http://"@ + h + ":"@ + p),
        binds.len() > 0 && binds[0] == h + ":"@ + p && h == "0.0.0.0"@ ==> forwarder_address_of(
            binds,
            first_interface,
        ) == match first_interface {
            Some(a) => Some("http://"@ + ipv4_text(a@) + ":"@ + p),
            None => None,
        },
        binds.len() == 0 ==> forwarder_address_of(binds, first_interface) is None,
        binds.len() > 0 && !binds[0].contains(':') ==> forwarder_address_of(binds, first_interface) is None,
{
    lemma_split_pair(h, p);
    if binds.len() > 0 && !binds[0].contains(':') {
        crate::text::lemma_split_without(binds[0], ':');
    }
}

/// A starting worker goes on to read its pRuntime's network configuration
/// exactly when the configured pRuntime address has a host, the
/// pRuntime's version meets the requirement and the pRuntime is
/// initialized; the status is left as it is, and the host is remembered.
pub proof fn law_start_proceeds_only_when_pruntime_usable(
    rt: WorkerRuntime,
    info: PRuntimeInfo,
    host: Option<Seq<char>>,
    version_ok: Option<bool>,
    rt2: WorkerRuntime,
    step: UpdateInfoStep,
)
    requires
        starting_check(rt, info, host, version_ok, rt2, step),
    ensures
        step is FetchNetworkConfig <==> (host is Some && version_ok == Some(true) && info.initialized),
        rt2.status == rt.status,
        host matches Some(h) ==> rt2.pruntime_hostname@ == h,
        host is None ==> step is NoPRuntimeHost,
{
}

/// After the network configuration, a worker waits for a broker exactly
/// when the configuration came with a public port and the pRuntime has a
/// public key; it then records that key and reaches the pRuntime at
/// `http://<pruntime host>:<port>`. Otherwise the pRuntime is reported
/// failed. The status itself is not changed here.
pub proof fn law_ready_for_broker_only_when_configured(
    rt: WorkerRuntime,
    info: PRuntimeInfo,
    network: Result<NetworkStatus, String>,
    rt2: WorkerRuntime,
    m: WorkerRuntimeChannelMessage,
)
    requires
        network_outcome(rt, info, network, rt2, m),
    ensures
        (m == WorkerRuntimeChannelMessage::ShouldUpdateStatus(WorkerRuntimeStatus::WaitingForBroker)) <==> (
        network matches Ok(ns) && ns.public_rpc_port is Some && info.public_key is Some),
        !(m is ShouldUpdateStatus) ==> m is ShouldSetPRuntimeFailed,
        rt2.status == rt.status,
        network matches Ok(ns) ==> (ns.public_rpc_port matches Some(port) ==> rt2.pruntime_rpc_prefix@
            == "http://"@ + rt.pruntime_hostname@ + ":"@ + decimal(port as nat)),
        network matches Ok(ns) ==> (ns.public_rpc_port is Some && info.public_key is Some ==> rt2.public_key
            == info.public_key),
{
}

} // verus!
