use service_network::psn_peer::mgmt::ping_reply;
use service_network::config::CommonConfig;
use service_network::peer::{ipv4_interface_addresses, InterfaceAddress};
use service_network::psn_peer::config::{
    default_forwarder_socks_port, default_outbound_socks_port, default_pruntime_address, BrokerConfig,
    LocalWorkerConfig, PeerConfig, PeerRole,
};

fn common() -> CommonConfig {
    CommonConfig { instance_name: "n1".to_string(), mgmt_port: 1919 }
}

#[test]
fn build_needs_role_settings() {
    assert!(PeerConfig::build(PeerRole::PrBroker, "v".to_string(), "g".to_string(), common(), None, None).is_none());
    let c = PeerConfig::build(
        PeerRole::PrLocalWorker,
        "v".to_string(),
        "g".to_string(),
        common(),
        None,
        Some(LocalWorkerConfig {
            pruntime_address: default_pruntime_address(),
            forwarder_socks_port: default_forwarder_socks_port(),
        }),
    )
    .unwrap();
    assert_eq!(c.instance_id.len(), 16);
    assert!(c.instance_id.chars().all(|ch| ch.is_ascii_alphanumeric()));
    assert_eq!(c.local_worker.as_ref().unwrap().pruntime_address, "http://127.0.0.1:8080");
    assert_eq!(c.local_worker.as_ref().unwrap().forwarder_socks_port, 1982);
    let name = c.host_name();
    assert_eq!(name, format!("{}.n1.local_worker.psn.local", c.instance_id));
    assert_eq!(c.mdns_fullname(), "n1._psn-local-worker._tcp.local.");
}

#[test]
fn broker_names() {
    let c = PeerConfig::build(
        PeerRole::PrBroker,
        "v".to_string(),
        "g".to_string(),
        common(),
        Some(BrokerConfig {
            outbound_socks_port: default_outbound_socks_port(),
            inbound_http_server_bind_address: vec!["0.0.0.0:19810".to_string()],
            inbound_http_server_accessible_address_prefix: "p".to_string(),
            cost: 10,
        }),
        None,
    )
    .unwrap();
    assert_eq!(c.broker.as_ref().unwrap().outbound_socks_port, 1981);
    assert_eq!(c.mdns_fullname(), "n1._psn-broker._tcp.local.");
    assert!(c.host_name().ends_with(".n1.broker.psn.local"));
}

#[test]
fn interfaces_without_loopback() {
    let ifaces = vec![
        InterfaceAddress { is_loopback: true, ipv4: Some([127, 0, 0, 1]) },
        InterfaceAddress { is_loopback: false, ipv4: None },
        InterfaceAddress { is_loopback: false, ipv4: Some([192, 168, 0, 2]) },
        InterfaceAddress { is_loopback: false, ipv4: Some([10, 0, 0, 2]) },
    ];
    assert_eq!(ipv4_interface_addresses(&ifaces), vec![[192, 168, 0, 2], [10, 0, 0, 2]]);
}

fn lw_settings() -> LocalWorkerConfig {
    LocalWorkerConfig { pruntime_address: default_pruntime_address(), forwarder_socks_port: default_forwarder_socks_port() }
}

fn broker_settings() -> BrokerConfig {
    BrokerConfig {
        outbound_socks_port: default_outbound_socks_port(),
        inbound_http_server_bind_address: vec!["0.0.0.0:19810".to_string()],
        inbound_http_server_accessible_address_prefix: "p".to_string(),
        cost: 10,
    }
}

#[test]
fn settings_kept_for_their_role_only() {
    let b = PeerConfig::build(
        PeerRole::PrBroker,
        "v".to_string(),
        "g".to_string(),
        common(),
        Some(broker_settings()),
        Some(lw_settings()),
    )
    .unwrap();
    assert!(b.broker.is_some());
    assert!(b.local_worker.is_none());
    let w = PeerConfig::build(
        PeerRole::PrLocalWorker,
        "v".to_string(),
        "g".to_string(),
        common(),
        Some(broker_settings()),
        Some(lw_settings()),
    )
    .unwrap();
    assert!(w.broker.is_none());
    assert!(w.local_worker.is_some());
    assert!(PeerConfig::build(
        PeerRole::PrLocalWorker,
        "v".to_string(),
        "g".to_string(),
        common(),
        Some(broker_settings()),
        None,
    )
    .is_none());
    assert!(PeerConfig::build(
        PeerRole::PrRemoteWorker,
        "v".to_string(),
        "g".to_string(),
        common(),
        Some(broker_settings()),
        Some(lw_settings()),
    )
    .is_none());
}

#[test]
fn ping_answers_teapot_with_identity() {
    let c = PeerConfig::build(
        PeerRole::PrBroker,
        "v".to_string(),
        "g".to_string(),
        common(),
        Some(broker_settings()),
        None,
    )
    .unwrap();
    let (status, id) = ping_reply(&c);
    assert_eq!(status, 418);
    assert_eq!(id.instance_name, "n1");
    assert_eq!(id.instance_id, c.instance_id);
}
