//! The brokers a local worker has discovered, and the choice of the best
//! one among them.

use vstd::prelude::*;
use crate::peer::PeerStatus;
use crate::text::{decimal, decimal_string, lex_lt, opt_view};
use crate::thirdparty::{atoi_u8, parse_leading_u8};

verus! {

/// What an mDNS service announcement tells: its TXT properties, port and
/// IPv4 addresses.
#[derive(Clone, Debug)]
pub struct ServiceRecord {
    pub properties: Vec<(String, String)>,
    pub port: u16,
    pub addresses: Vec<[u8; 4]>,
}

/// The value of the first property named `key`.
pub open spec fn prop_lookup(props: Seq<(String, String)>, key: Seq<char>) -> Option<Seq<char>>
    decreases props.len(),
{
    if props.len() == 0 {
        None
    } else if props[0].0@ == key {
        Some(props[0].1@)
    } else {
        prop_lookup(props.drop_first(), key)
    }
}

/// Dotted decimal notation of an IPv4 address.
pub open spec fn ipv4_text(a: Seq<u8>) -> Seq<char> {
    decimal(a[0] as nat) + "."@ + decimal(a[1] as nat) + "."@ + decimal(a[2] as nat) + "."@
        + decimal(a[3] as nat)
}

/// Formats an IPv4 address in dotted decimal notation.
pub fn ipv4_string(a: &[u8; 4]) -> (s: String)
    ensures
        s@ == ipv4_text(a@),
{
    let mut s = decimal_string(a[0] as u64);
    s.append(".");
    let b = decimal_string(a[1] as u64);
    s.append(b.as_str());
    s.append(".");
    let c = decimal_string(a[2] as u64);
    s.append(c.as_str());
    s.append(".");
    let d = decimal_string(a[3] as u64);
    s.append(d.as_str());
    s
}

impl ServiceRecord {
    /// The value of the first property named `key`.
    pub fn get_property(&self, key: &str) -> (v: Option<String>)
        ensures
            opt_view(v) == prop_lookup(self.properties@, key@),
    {
        let wanted = String::from_str(key);
        let mut i: usize = 0;
        assert(self.properties@.skip(0) =~= self.properties@);
        while i < self.properties.len()
            invariant
                wanted@ == key@,
                i <= self.properties.len(),
                prop_lookup(self.properties@, key@) == prop_lookup(
                    self.properties@.skip(i as int),
                    key@,
                ),
            decreases self.properties.len() - i,
        {
            assert(self.properties@.skip(i as int).drop_first() =~= self.properties@.skip(i + 1));
            assert(self.properties@.skip(i as int)[0] == self.properties@[i as int]);
            if self.properties[i].0 == wanted {
                return Some(self.properties[i].1.clone());
            }
            i = i + 1;
        }
        None
    }
}

/// The management URL of a broker announced by `info`: its first address
/// and its port.
pub open spec fn mgmt_address_of(info: ServiceRecord) -> Seq<char> {
    "http://"@ + ipv4_text(info.addresses@[0]@) + ":"@ + decimal(info.port as nat)
}

/// Whether `info` carries what a broker announcement must carry: the
/// properties `in`, `i` and `c`.
pub open spec fn announces_broker(info: ServiceRecord) -> bool {
    &&& prop_lookup(info.properties@, "in"@) is Some
    &&& prop_lookup(info.properties@, "i"@) is Some
    &&& prop_lookup(info.properties@, "c"@) is Some
}

impl ServiceRecord {
    /// Whether this record carries what a broker announcement must carry.
    pub fn is_broker_announcement(&self) -> (b: bool)
        ensures
            b == announces_broker(*self),
    {
        self.get_property("in").is_some() && self.get_property("i").is_some()
            && self.get_property("c").is_some()
    }
}

/// A broker known to a local worker.
#[derive(Clone, Debug)]
pub struct BrokerPeer {
    pub cost: u8,
    pub service_info: ServiceRecord,
    pub instance_name: String,
    pub id: String,
    pub status: PeerStatus,
    pub mgmt_addr: String,
}

impl BrokerPeer {
    /// A newly discovered broker, in status `Init`.
    pub fn new(cost: u8, instance_name: &str, id: &str, service_info: ServiceRecord, mgmt_addr: String) -> (p: BrokerPeer)
        ensures
            p.cost == cost,
            p.instance_name@ == instance_name@,
            p.id@ == id@,
            p.service_info == service_info,
            p.mgmt_addr == mgmt_addr,
            p.status == PeerStatus::Init,
    {
        BrokerPeer {
            cost,
            instance_name: String::from_str(instance_name),
            id: String::from_str(id),
            service_info,
            mgmt_addr,
            status: PeerStatus::Init,
        }
    }

    fn start_life_check(&mut self)
        ensures
            final(self).status == PeerStatus::Start,
            final(self).cost == old(self).cost,
            final(self).instance_name == old(self).instance_name,
            final(self).id == old(self).id,
            final(self).service_info == old(self).service_info,
            final(self).mgmt_addr == old(self).mgmt_addr,
    {
        crate::peer::PeerLifecycle::set_status(self, PeerStatus::Start);
    }
}

impl crate::peer::PeerLifecycle for BrokerPeer {
    fn set_status(&mut self, s: PeerStatus)
        ensures
            final(self).status == s,
            final(self).cost == old(self).cost,
            final(self).instance_name == old(self).instance_name,
            final(self).id == old(self).id,
            final(self).service_info == old(self).service_info,
            final(self).mgmt_addr == old(self).mgmt_addr,
    {
        self.status = s;
    }
}

/// Messages about brokers that a local worker's peer browser emits.
#[derive(Clone, Debug)]
pub enum BrokerPeerUpdate {
    NoUpdate,
    PeerStatusChanged(String, PeerStatus),
    BestPeerChanged(String, String),
}

/// Why a broker announcement was refused.
#[derive(Clone, Copy, Debug, PartialEq, Eq, Structural)]
pub enum BrokerPeerError {
    /// The `in` property is empty.
    InvalidInstanceName,
    /// The `i` property is empty.
    EmptyInstanceId,
    /// The `c` property does not start with a cost.
    InvalidCost,
    /// The announcement carries no address to reach the broker at.
    NoAddress,
}

/// No two peers share an instance name.
pub open spec fn names_unique(peers: Seq<BrokerPeer>) -> bool {
    forall|i: int, j: int|
        0 <= i < peers.len() && 0 <= j < peers.len() && i != j ==> #[trigger] peers[i].instance_name@
            != #[trigger] peers[j].instance_name@
}

/// Whether some peer is named `name`.
pub open spec fn knows(peers: Seq<BrokerPeer>, name: Seq<char>) -> bool {
    exists|i: int| 0 <= i < peers.len() && #[trigger] peers[i].instance_name@ == name
}

/// `p` is preferred over `q`: lower cost, and on equal cost the name that
/// comes first.
pub open spec fn preferred(p: BrokerPeer, q: BrokerPeer) -> bool {
    p.cost < q.cost || (p.cost == q.cost && lex_lt(p.instance_name@, q.instance_name@))
}

/// Peer `i` is the best: no peer is preferred over it.
pub open spec fn is_best(peers: Seq<BrokerPeer>, i: int) -> bool {
    0 <= i < peers.len() && forall|j: int| 0 <= j < peers.len() ==> !preferred(#[trigger] peers[j], peers[i])
}

/// The brokers known to a local worker, by instance name, and the one it
/// chose.
#[derive(Debug)]
pub struct BrokerPeerManager {
    pub peers: Vec<BrokerPeer>,
    pub best_instance_name: Option<String>,
}

impl BrokerPeerManager {
    /// Well-formed: instance names identify the peers.
    pub open spec fn wf(&self) -> bool {
        names_unique(self.peers@)
    }

    /// No broker known yet.
    pub fn new() -> (m: BrokerPeerManager)
        ensures
            m.wf(),
            m.peers@.len() == 0,
            m.best_instance_name is None,
    {
        BrokerPeerManager { peers: Vec::new(), best_instance_name: None }
    }

    /// The index of the peer named `name`, if any.
    pub fn find(&self, name: &String) -> (r: Option<usize>)
        ensures
            match r {
                Some(i) => i < self.peers@.len() && self.peers@[i as int].instance_name@ == name@,
                None => !knows(self.peers@, name@),
            },
    {
        let mut i: usize = 0;
        while i < self.peers.len()
            invariant
                i <= self.peers.len(),
                forall|j: int| 0 <= j < i ==> #[trigger] self.peers@[j].instance_name@ != name@,
            decreases self.peers.len() - i,
        {
            if self.peers[i].instance_name == *name {
                return Some(i);
            }
            i = i + 1;
        }
        None
    }

    /// Takes in a broker with the given name, id and cost, in status
    /// `Start`, unless one with that name is already known.
    pub fn admit_peer(&mut self, instance_name: String, id: String, cost: u8, service_info: ServiceRecord)
        requires
            old(self).wf(),
            service_info.addresses@.len() > 0,
        ensures
            final(self).wf(),
            final(self).best_instance_name == old(self).best_instance_name,
            knows(old(self).peers@, instance_name@) ==> final(self).peers@ == old(self).peers@,
            !knows(old(self).peers@, instance_name@) ==> {
                &&& final(self).peers@.len() == old(self).peers@.len() + 1
                &&& final(self).peers@.drop_last() == old(self).peers@
                &&& final(self).peers@.last().instance_name@ == instance_name@
                &&& final(self).peers@.last().id@ == id@
                &&& final(self).peers@.last().cost == cost
                &&& final(self).peers@.last().service_info == service_info
                &&& final(self).peers@.last().status == PeerStatus::Start
                &&& final(self).peers@.last().mgmt_addr@ == mgmt_address_of(service_info)
            },
    {
        if self.find(&instance_name).is_some() {
            return;
        }
        let mut mgmt_addr = String::from_str("http://");
        let ip = ipv4_string(&service_info.addresses[0]);
        mgmt_addr.append(ip.as_str());
        mgmt_addr.append(":");
        let port = decimal_string(service_info.port as u64);
        mgmt_addr.append(port.as_str());
        let mut peer = BrokerPeer::new(cost, instance_name.as_str(), id.as_str(), service_info, mgmt_addr);
        peer.start_life_check();
        let ghost old_peers = self.peers@;
        self.peers.push(peer);
        assert(self.peers@.drop_last() =~= old_peers);
        assert forall|i: int, j: int|
            0 <= i < self.peers@.len() && 0 <= j < self.peers@.len() && i != j implies #[trigger] self.peers@[i].instance_name@
                != #[trigger] self.peers@[j].instance_name@ by {
            if i == old_peers.len() as int {
                assert(old_peers[j].instance_name@ == self.peers@[j].instance_name@);
            } else if j == old_peers.len() as int {
                assert(old_peers[i].instance_name@ == self.peers@[i].instance_name@);
            }
        }
    }

    /// Takes in a broker from its mDNS announcement: the instance name
    /// (`in`), id (`i`) and cost (`c`) properties must be usable, and then
    /// the announcement must carry an address; else the announcement is
    /// refused and nothing changes.
    pub fn update_peer_with_service_info(&mut self, service_info: ServiceRecord) -> (r: Result<(), BrokerPeerError>)
        requires
            old(self).wf(),
            announces_broker(service_info),
        ensures
            final(self).wf(),
            final(self).best_instance_name == old(self).best_instance_name,
            ({
                let name = prop_lookup(service_info.properties@, "in"@)->0;
                let id = prop_lookup(service_info.properties@, "i"@)->0;
                let cost = atoi_u8(prop_lookup(service_info.properties@, "c"@)->0);
                if name.len() == 0 {
                    r == Err::<(), BrokerPeerError>(BrokerPeerError::InvalidInstanceName)
                        && final(self).peers@ == old(self).peers@
                } else if id.len() == 0 {
                    r == Err::<(), BrokerPeerError>(BrokerPeerError::EmptyInstanceId)
                        && final(self).peers@ == old(self).peers@
                } else if cost is None {
                    r == Err::<(), BrokerPeerError>(BrokerPeerError::InvalidCost)
                        && final(self).peers@ == old(self).peers@
                } else if service_info.addresses@.len() == 0 {
                    r == Err::<(), BrokerPeerError>(BrokerPeerError::NoAddress)
                        && final(self).peers@ == old(self).peers@
                } else {
                    &&& r is Ok
                    &&& knows(old(self).peers@, name) ==> final(self).peers@ == old(self).peers@
                    &&& !knows(old(self).peers@, name) ==> {
                        &&& final(self).peers@.drop_last() == old(self).peers@
                        &&& final(self).peers@.len() == old(self).peers@.len() + 1
                        &&& final(self).peers@.last().instance_name@ == name
                        &&& final(self).peers@.last().id@ == id
                        &&& final(self).peers@.last().cost == cost->0
                        &&& final(self).peers@.last().service_info == service_info
                        &&& final(self).peers@.last().status == PeerStatus::Start
                        &&& final(self).peers@.last().mgmt_addr@ == mgmt_address_of(service_info)
                    }
                }
            }),
    {
        let instance_name = match service_info.get_property("in") {
            Some(v) => v,
            None => vstd::pervasive::unreached(),
        };
        if instance_name.unicode_len() == 0 {
            return Err(BrokerPeerError::InvalidInstanceName);
        }
        let id = match service_info.get_property("i") {
            Some(v) => v,
            None => vstd::pervasive::unreached(),
        };
        if id.unicode_len() == 0 {
            return Err(BrokerPeerError::EmptyInstanceId);
        }
        let cost_text = match service_info.get_property("c") {
            Some(v) => v,
            None => vstd::pervasive::unreached(),
        };
        let cost = match parse_leading_u8(cost_text.as_str()) {
            Some(c) => c,
            None => return Err(BrokerPeerError::InvalidCost),
        };
        if service_info.addresses.len() == 0 {
            return Err(BrokerPeerError::NoAddress);
        }
        self.admit_peer(instance_name, id, cost, service_info);
        Ok(())
    }

    /// The best broker: the cheapest, and among the cheapest the one whose
    /// name comes first.
    pub fn get_best_instance(&self) -> (r: Option<usize>)
        ensures
            match r {
                Some(i) => is_best(self.peers@, i as int),
                None => self.peers@.len() == 0,
            },
    {
        if self.peers.len() == 0 {
            return None;
        }
        let mut best: usize = 0;
        let mut i: usize = 1;
        proof {
            lemma_preferred_irreflexive(self.peers@[0]);
        }
        while i < self.peers.len()
            invariant
                1 <= i <= self.peers.len(),
                best < i,
                forall|j: int| 0 <= j < i ==> !preferred(#[trigger] self.peers@[j], self.peers@[best as int]),
            decreases self.peers.len() - i,
        {
            let p = &self.peers[i];
            let q = &self.peers[best];
            let better = p.cost < q.cost || (p.cost == q.cost && crate::text::str_lt(
                p.instance_name.as_str(),
                q.instance_name.as_str(),
            ));
            if better {
                proof {
                    assert forall|j: int| 0 <= j < i + 1 implies !preferred(
                        #[trigger] self.peers@[j],
                        self.peers@[i as int],
                    ) by {
                        lemma_preferred_irreflexive(self.peers@[i as int]);
                        if j < i && preferred(self.peers@[j], self.peers@[i as int]) {
                            lemma_preferred_transitive(
                                self.peers@[j],
                                self.peers@[i as int],
                                self.peers@[best as int],
                            );
                        }
                    }
                }
                best = i;
            } else {
                proof {
                    assert(!preferred(self.peers@[i as int], self.peers@[best as int]));
                }
            }
            i = i + 1;
        }
        Some(best)
    }

    /// Records the best broker as the chosen one and returns its index.
    /// The chosen broker must announce its outbound address (`oa`).
    pub fn verify_best_instance(&mut self) -> (r: Option<usize>)
        requires
            old(self).wf(),
            forall|i: int|
                is_best(old(self).peers@, i) ==> prop_lookup(
                    old(self).peers@[i].service_info.properties@,
                    "oa"@,
                ) is Some,
        ensures
            final(self).wf(),
            final(self).peers@ == old(self).peers@,
            match r {
                Some(i) => {
                    &&& is_best(old(self).peers@, i as int)
                    &&& opt_view(final(self).best_instance_name) == Some(
                        old(self).peers@[i as int].instance_name@,
                    )
                },
                None => old(self).peers@.len() == 0 && final(self).best_instance_name
                    == old(self).best_instance_name,
            },
    {
        match self.get_best_instance() {
            Some(i) => {
                let name = self.peers[i].instance_name.clone();
                self.best_instance_name = Some(name);
                Some(i)
            },
            None => None,
        }
    }
}

impl BrokerPeerManager {
    /// Records the best broker as the chosen one and returns the update to
    /// announce: the broker's name and its outbound address (`oa`) as a
    /// `socks5://` URL. None when no broker is known.
    pub fn set_best_instance(&mut self) -> (u: Option<BrokerPeerUpdate>)
        requires
            old(self).wf(),
            forall|i: int|
                is_best(old(self).peers@, i) ==> prop_lookup(
                    old(self).peers@[i].service_info.properties@,
                    "oa"@,
                ) is Some,
        ensures
            final(self).wf(),
            final(self).peers@ == old(self).peers@,
            old(self).peers@.len() == 0 ==> u is None && final(self).best_instance_name
                == old(self).best_instance_name,
            old(self).peers@.len() > 0 ==> exists|i: int|
                #![trigger is_best(old(self).peers@, i)]
                {
                    &&& is_best(old(self).peers@, i)
                    &&& opt_view(final(self).best_instance_name) == Some(
                        old(self).peers@[i].instance_name@,
                    )
                    &&& u matches Some(BrokerPeerUpdate::BestPeerChanged(name, url))
                    &&& name@ == old(self).peers@[i].instance_name@
                    &&& url@ == "socks5://"@ + prop_lookup(
                        old(self).peers@[i].service_info.properties@,
                        "oa"@,
                    )->0
                },
    {
        match self.verify_best_instance() {
            None => None,
            Some(i) => {
                let oa = match self.peers[i].service_info.get_property("oa") {
                    Some(oa) => oa,
                    None => vstd::pervasive::unreached(),
                };
                let mut url = String::from_str("socks5://");
                url.append(oa.as_str());
                let name = self.peers[i].instance_name.clone();
                Some(BrokerPeerUpdate::BestPeerChanged(name, url))
            },
        }
    }
}

/// No peer is preferred over itself.
pub proof fn lemma_preferred_irreflexive(p: BrokerPeer)
    ensures
        !preferred(p, p),
{
    crate::text::lemma_lex_lt_irreflexive(p.instance_name@);
}

/// Preference is transitive.
pub proof fn lemma_preferred_transitive(p: BrokerPeer, q: BrokerPeer, r: BrokerPeer)
    requires
        preferred(p, q),
        preferred(q, r),
    ensures
        preferred(p, r),
{
    if p.cost == q.cost && q.cost == r.cost {
        crate::text::lemma_lex_lt_transitive(p.instance_name@, q.instance_name@, r.instance_name@);
    }
}

/// There is at most one best broker: the choice does not depend on the
/// order in which brokers were discovered.
pub proof fn law_best_broker_unique(peers: Seq<BrokerPeer>, i: int, j: int)
    requires
        names_unique(peers),
        is_best(peers, i),
        is_best(peers, j),
    ensures
        i == j,
{
    if i != j {
        assert(!preferred(peers[j], peers[i]));
        assert(!preferred(peers[i], peers[j]));
        crate::text::lemma_lex_lt_total(peers[i].instance_name@, peers[j].instance_name@);
    }
}

/// The best broker is one of the cheapest.
pub proof fn law_best_broker_cheapest(peers: Seq<BrokerPeer>, i: int, j: int)
    requires
        is_best(peers, i),
        0 <= j < peers.len(),
    ensures
        peers[i].cost <= peers[j].cost,
{
    assert(!preferred(peers[j], peers[i]));
}

} // verus!
