use service_network::config::{
    default_cost, default_doh_server_addresses, default_doh_server_dns_name, default_doh_server_port,
    default_forwarder_bind_addresses, default_inbound_http_server_bind_address, default_mgmt_port,
    default_outbound_bind_addresses, default_pruntime_address, instance_name_from_hostname,
    BrokerConfig, CommonConfig, LocalWorkerConfig, PeerConfig, PeerRole, INSTANCE_ID_LEN,
};
use service_network::mgmt_types::{keepalive_answer, MyIdentity};
use service_network::runtime::AsyncRuntimeContext;

fn broker_config() -> BrokerConfig {
    BrokerConfig {
        outbound_bind_addresses: default_outbound_bind_addresses(),
        inbound_http_server_bind_address: default_inbound_http_server_bind_address(),
        inbound_http_server_accessible_address_prefix: "http://broker.example:19810".to_string(),
        cost: default_cost(),
        doh_server_addresses: default_doh_server_addresses(),
        doh_server_port: default_doh_server_port(),
        doh_server_dns_name: default_doh_server_dns_name(),
    }
}

fn config(role: PeerRole) -> PeerConfig {
    PeerConfig {
        role,
        version: "0.1.0".to_string(),
        git_revision: "dev".to_string(),
        instance_id: "abcdEFGH12345678".to_string(),
        common: CommonConfig { instance_name: "node1".to_string(), mgmt_port: 1919 },
    }
}

#[test]
fn host_name_per_role() {
    assert_eq!(config(PeerRole::PrBroker(None)).host_name(), "abcdEFGH12345678.node1.broker.psn.local");
    assert_eq!(
        config(PeerRole::PrLocalWorker(None)).host_name(),
        "abcdEFGH12345678.node1.local_worker.psn.local"
    );
    assert_eq!(config(PeerRole::PrRemoteWorker).host_name(), "abcdEFGH12345678.node1.remote_worker.psn.local");
}

#[test]
fn mdns_fullname_per_role() {
    assert_eq!(config(PeerRole::PrBroker(None)).mdns_fullname(), "node1._psn-broker._tcp.local.");
    assert_eq!(config(PeerRole::PrLocalWorker(None)).mdns_fullname(), "node1._psn-worker._tcp.local.");
}

#[test]
fn defaults() {
    assert_eq!(default_mgmt_port(), 1919);
    assert_eq!(default_cost(), 10);
    assert_eq!(default_outbound_bind_addresses(), vec!["0.0.0.0:1981".to_string()]);
    assert_eq!(default_inbound_http_server_bind_address(), vec!["0.0.0.0:19810".to_string()]);
    assert_eq!(
        default_doh_server_addresses(),
        vec!["8.8.8.8", "8.8.4.4", "2001:4860:4860::8888", "2001:4860:4860::8844"]
    );
    assert_eq!(default_doh_server_port(), 443);
    assert_eq!(default_doh_server_dns_name(), "dns.google");
    assert_eq!(default_pruntime_address(), "http://127.0.0.1:8000");
    assert_eq!(default_forwarder_bind_addresses(), vec!["0.0.0.0:1982".to_string()]);
}

#[test]
fn instance_name_is_first_label() {
    assert_eq!(instance_name_from_hostname("worker-3.lan.example"), "worker-3");
    assert_eq!(instance_name_from_hostname("plain"), "plain");
    assert_eq!(instance_name_from_hostname(".hidden"), "");
}

#[test]
fn build_makes_random_alphanumeric_instance_id() {
    let role = PeerRole::PrBroker(Some(broker_config()));
    let common = CommonConfig { instance_name: "node1".to_string(), mgmt_port: 1919 };
    let a = PeerConfig::build(role.clone(), "1.0.0".to_string(), "abc".to_string(), common.clone());
    let b = PeerConfig::build(role, "1.0.0".to_string(), "abc".to_string(), common);
    assert_eq!(a.instance_id.len(), INSTANCE_ID_LEN);
    assert!(a.instance_id.chars().all(|c| c.is_ascii_alphanumeric()));
    assert_ne!(a.instance_id, b.instance_id);
    assert_eq!(a.version, "1.0.0");
    assert_eq!(a.git_revision, "abc");
    assert_eq!(a.common.instance_name, "node1");
    assert_eq!(a.broker().cost, 10);
}

#[test]
fn role_settings() {
    let c = config(PeerRole::PrBroker(Some(broker_config())));
    assert_eq!(c.broker().inbound_http_server_accessible_address_prefix, "http://broker.example:19810");
    let w = config(PeerRole::PrLocalWorker(Some(LocalWorkerConfig {
        pruntime_address: default_pruntime_address(),
        forwarder_bind_addresses: default_forwarder_bind_addresses(),
    })));
    assert_eq!(w.local_worker().pruntime_address, "http://127.0.0.1:8000");
}

#[test]
fn my_identity_names_the_instance() {
    let id = MyIdentity::of(&config(PeerRole::PrBroker(None)));
    assert_eq!(id.instance_name, "node1");
    assert_eq!(id.instance_id, "abcdEFGH12345678");
}

#[test]
fn runtime_context_knows_no_peer() {
    let ctx = AsyncRuntimeContext::new(config(PeerRole::PrLocalWorker(None)));
    assert!(matches!(ctx.peer_manager.my_role, PeerRole::PrLocalWorker(None)));
    assert!(ctx.peer_manager.broker.peers.is_empty());
    assert!(ctx.peer_manager.broker.best_instance_name.is_none());
    let ctx = AsyncRuntimeContext::new(config(PeerRole::PrBroker(None)));
    assert!(matches!(ctx.peer_manager.my_role, PeerRole::PrBroker(None)));
}

#[test]
fn keepalive_answered_with_teapot_and_identity() {
    let (status, id) = keepalive_answer(&config(PeerRole::PrBroker(Some(broker_config()))));
    assert_eq!(status, 418);
    assert_eq!(id.instance_name, "node1");
    assert_eq!(id.instance_id, "abcdEFGH12345678");
}
