use service_network::announce::{broker_txt_properties, local_worker_txt_properties};
use service_network::config::{BrokerConfig, CommonConfig, PeerConfig, PeerRole};
use service_network::peer::broker::{
    ipv4_string, BrokerPeer, BrokerPeerError, BrokerPeerManager, BrokerPeerUpdate, ServiceRecord,
};
use service_network::peer::local_worker::LocalPeerWorkerManager;
use service_network::peer::{PeerLifecycle, PeerManager, PeerStatus};

fn record(name: &str, id: &str, cost: &str, oa: Option<&str>) -> ServiceRecord {
    let mut properties = vec![
        ("in".to_string(), name.to_string()),
        ("i".to_string(), id.to_string()),
        ("c".to_string(), cost.to_string()),
        ("mp".to_string(), "1919".to_string()),
    ];
    if let Some(oa) = oa {
        properties.push(("oa".to_string(), oa.to_string()));
    }
    ServiceRecord { properties, port: 1919, addresses: vec![[192, 168, 1, 20]] }
}

#[test]
fn ipv4_dotted() {
    assert_eq!(ipv4_string(&[192, 168, 0, 1]), "192.168.0.1");
    assert_eq!(ipv4_string(&[0, 0, 0, 0]), "0.0.0.0");
}

#[test]
fn property_lookup_takes_first() {
    let r = ServiceRecord {
        properties: vec![("k".to_string(), "1".to_string()), ("k".to_string(), "2".to_string())],
        port: 1,
        addresses: vec![],
    };
    assert_eq!(r.get_property("k"), Some("1".to_string()));
    assert_eq!(r.get_property("x"), None);
    assert!(!r.is_broker_announcement());
    assert!(record("b", "i", "1", None).is_broker_announcement());
    let mut no_addr = record("b", "i", "1", None);
    no_addr.addresses.clear();
    assert!(no_addr.is_broker_announcement());
}

#[test]
fn announcement_admits_broker() {
    let mut m = BrokerPeerManager::new();
    assert_eq!(m.update_peer_with_service_info(record("b1", "id1", "7", Some("0.0.0.0:1981"))), Ok(()));
    assert_eq!(m.peers.len(), 1);
    let p = &m.peers[0];
    assert_eq!(p.instance_name, "b1");
    assert_eq!(p.id, "id1");
    assert_eq!(p.cost, 7);
    assert_eq!(p.status, PeerStatus::Start);
    assert_eq!(p.mgmt_addr, "http://192.168.1.20:1919");
}

#[test]
fn cost_parsed_from_leading_digits() {
    let mut m = BrokerPeerManager::new();
    assert_eq!(m.update_peer_with_service_info(record("b1", "id1", "12abc", None)), Ok(()));
    assert_eq!(m.peers[0].cost, 12);
}

#[test]
fn refused_announcements() {
    let mut m = BrokerPeerManager::new();
    assert_eq!(
        m.update_peer_with_service_info(record("", "id1", "7", None)),
        Err(BrokerPeerError::InvalidInstanceName)
    );
    assert_eq!(
        m.update_peer_with_service_info(record("b1", "", "7", None)),
        Err(BrokerPeerError::EmptyInstanceId)
    );
    assert_eq!(
        m.update_peer_with_service_info(record("b1", "id1", "cheap", None)),
        Err(BrokerPeerError::InvalidCost)
    );
    assert_eq!(
        m.update_peer_with_service_info(record("b1", "id1", "300", None)),
        Err(BrokerPeerError::InvalidCost)
    );
    assert!(m.peers.is_empty());
}

#[test]
fn known_broker_not_replaced() {
    let mut m = BrokerPeerManager::new();
    m.update_peer_with_service_info(record("b1", "id1", "7", None)).unwrap();
    m.update_peer_with_service_info(record("b1", "id2", "1", None)).unwrap();
    assert_eq!(m.peers.len(), 1);
    assert_eq!(m.peers[0].id, "id1");
    assert_eq!(m.peers[0].cost, 7);
}

#[test]
fn best_broker_is_cheapest_then_first_name() {
    let mut m = BrokerPeerManager::new();
    assert_eq!(m.get_best_instance(), None);
    assert_eq!(m.verify_best_instance(), None);
    m.update_peer_with_service_info(record("zeta", "1", "5", Some("a:1"))).unwrap();
    m.update_peer_with_service_info(record("beta", "2", "9", Some("a:1"))).unwrap();
    m.update_peer_with_service_info(record("alpha", "3", "5", Some("a:1"))).unwrap();
    let best = m.verify_best_instance().unwrap();
    assert_eq!(m.peers[best].instance_name, "alpha");
    assert_eq!(m.best_instance_name.as_deref(), Some("alpha"));
}

#[test]
fn best_broker_independent_of_discovery_order() {
    let names = [("c", "3"), ("a", "4"), ("b", "3")];
    let mut m1 = BrokerPeerManager::new();
    let mut m2 = BrokerPeerManager::new();
    for (n, c) in names {
        m1.update_peer_with_service_info(record(n, "x", c, Some("a:1"))).unwrap();
    }
    for (n, c) in names.iter().rev() {
        m2.update_peer_with_service_info(record(n, "x", c, Some("a:1"))).unwrap();
    }
    let b1 = m1.get_best_instance().unwrap();
    let b2 = m2.get_best_instance().unwrap();
    assert_eq!(m1.peers[b1].instance_name, "b");
    assert_eq!(m2.peers[b2].instance_name, "b");
}

#[test]
fn peer_lifecycle() {
    let mut p = BrokerPeer::new(3, "b", "i", record("b", "i", "3", None), "http://x:1".to_string());
    assert_eq!(p.status, PeerStatus::Init);
    p.set_status(PeerStatus::Alive);
    assert_eq!(p.status, PeerStatus::Alive);
}

#[test]
fn managers_start_empty() {
    let _ = LocalPeerWorkerManager::new();
    let cfg = PeerConfig {
        role: PeerRole::PrBroker(None),
        version: String::new(),
        git_revision: String::new(),
        instance_id: "i".to_string(),
        common: CommonConfig { instance_name: "n".to_string(), mgmt_port: 1 },
    };
    let pm = PeerManager::init_for_broker(&cfg);
    assert!(matches!(pm.my_role, PeerRole::PrBroker(None)));
    let pm = PeerManager::init_for_local_worker(&cfg);
    assert!(matches!(pm.my_role, PeerRole::PrLocalWorker(None)));
}

fn broker_peer_config(outbound: Vec<&str>, cost: u8) -> PeerConfig {
    PeerConfig {
        role: PeerRole::PrBroker(Some(BrokerConfig {
            outbound_bind_addresses: outbound.into_iter().map(|s| s.to_string()).collect(),
            inbound_http_server_bind_address: vec!["0.0.0.0:19810".to_string()],
            inbound_http_server_accessible_address_prefix: "http://b:19810".to_string(),
            cost,
            doh_server_addresses: vec![],
            doh_server_port: 443,
            doh_server_dns_name: "dns.google".to_string(),
        })),
        version: "1".to_string(),
        git_revision: "g".to_string(),
        instance_id: "ID".to_string(),
        common: CommonConfig { instance_name: "brk".to_string(), mgmt_port: 1919 },
    }
}

#[test]
fn broker_announces_its_properties() {
    let props = broker_txt_properties(&broker_peer_config(vec!["0.0.0.0:1981", "10.0.0.1:1981"], 42));
    let expected: Vec<(String, String)> = [
        ("in", "brk"),
        ("i", "ID"),
        ("c", "42"),
        ("mp", "1919"),
        ("oa", "0.0.0.0:1981,10.0.0.1:1981"),
        ("o", "http://b:19810"),
    ]
    .iter()
    .map(|(k, v)| (k.to_string(), v.to_string()))
    .collect();
    assert_eq!(props, expected);
    let w = local_worker_txt_properties(&broker_peer_config(vec![], 1));
    assert_eq!(w.len(), 3);
    assert_eq!(w[2], ("mp".to_string(), "1919".to_string()));
}

#[test]
fn announced_broker_is_understood() {
    let props = broker_txt_properties(&broker_peer_config(vec!["0.0.0.0:1981"], 42));
    let mut m = BrokerPeerManager::new();
    let info = ServiceRecord { properties: props, port: 1919, addresses: vec![[10, 0, 0, 5]] };
    assert_eq!(m.update_peer_with_service_info(info), Ok(()));
    assert_eq!(m.peers[0].instance_name, "brk");
    assert_eq!(m.peers[0].id, "ID");
    assert_eq!(m.peers[0].cost, 42);
}

#[test]
fn best_peer_change_announced() {
    let mut m = BrokerPeerManager::new();
    assert!(m.set_best_instance().is_none());
    m.update_peer_with_service_info(record("b2", "2", "4", Some("10.0.0.2:1981"))).unwrap();
    m.update_peer_with_service_info(record("b1", "1", "3", Some("0.0.0.0:1981,10.0.0.1:1981"))).unwrap();
    match m.set_best_instance() {
        Some(BrokerPeerUpdate::BestPeerChanged(name, url)) => {
            assert_eq!(name, "b1");
            assert_eq!(url, "socks5://0.0.0.0:1981,10.0.0.1:1981");
        }
        other => panic!("{other:?}"),
    }
    assert_eq!(m.best_instance_name.as_deref(), Some("b1"));
}

fn without_address(name: &str, id: &str, cost: &str) -> ServiceRecord {
    let mut r = record(name, id, cost, None);
    r.addresses.clear();
    r
}

#[test]
fn announcement_without_address_refused_after_other_checks() {
    let mut m = BrokerPeerManager::new();
    assert_eq!(
        m.update_peer_with_service_info(without_address("", "id1", "7")),
        Err(BrokerPeerError::InvalidInstanceName)
    );
    assert_eq!(
        m.update_peer_with_service_info(without_address("b1", "", "7")),
        Err(BrokerPeerError::EmptyInstanceId)
    );
    assert_eq!(
        m.update_peer_with_service_info(without_address("b1", "id1", "abc")),
        Err(BrokerPeerError::InvalidCost)
    );
    assert_eq!(
        m.update_peer_with_service_info(without_address("b1", "id1", "300")),
        Err(BrokerPeerError::InvalidCost)
    );
    assert_eq!(
        m.update_peer_with_service_info(without_address("b1", "id1", "7")),
        Err(BrokerPeerError::NoAddress)
    );
    assert!(m.peers.is_empty());
}

#[test]
fn cost_text_forms() {
    let mut m = BrokerPeerManager::new();
    m.update_peer_with_service_info(record("plus", "1", "+9", None)).unwrap();
    m.update_peer_with_service_info(record("lone", "2", "+", None)).unwrap();
    m.update_peer_with_service_info(record("negzero", "3", "-00", None)).unwrap();
    m.update_peer_with_service_info(record("zeros", "4", "007x", None)).unwrap();
    assert_eq!(m.peers.iter().map(|p| p.cost).collect::<Vec<_>>(), vec![9, 0, 0, 7]);
    assert_eq!(m.update_peer_with_service_info(record("neg", "5", "-5", None)), Err(BrokerPeerError::InvalidCost));
    assert_eq!(m.update_peer_with_service_info(record("big", "6", "256", None)), Err(BrokerPeerError::InvalidCost));
    assert_eq!(m.update_peer_with_service_info(record("none", "7", "", None)), Err(BrokerPeerError::InvalidCost));
}
