use service_network::broker::local_worker::{KnownLocalWorkerStatus, LocalWorkerMap};
use service_network::broker::query_forwarder::ForwardDecision;
use service_network::peer::broker::{BrokerPeer, ServiceRecord};
use service_network::worker::public_forwarder::{
    forward_reply, is_allowed_method, passes_response_body, public_forward_decision,
};
use service_network::broker::query_forwarder::forwarded_status;
use service_network::mgmt_types::MyIdentity;
use service_network::worker::runtime::{
    broker_health_check_interval, broker_keepalive_due, broker_wait_step, forwarder_address, keepalive_outcome_message, provisioning_message,
    pruntime_info_message,
    pruntime_health_check_interval, pruntime_proxy_url, BrokerWaitStep, NetworkStatus, PRuntimeInfo,
    StatusAction, UpdateInfoStep, WorkerRuntime, WorkerRuntimeChannelMessage, WorkerRuntimeFailReason,
    WorkerRuntimeStatus,
};

fn info(version: &str, initialized: bool, key: Option<&str>) -> PRuntimeInfo {
    PRuntimeInfo { version: version.to_string(), initialized, public_key: key.map(|k| k.to_string()) }
}

fn failed(broker: Option<&str>, pr: Option<&str>) -> WorkerRuntimeStatus {
    WorkerRuntimeStatus::Failed(WorkerRuntimeFailReason {
        broker: broker.map(|s| s.to_string()),
        pr: pr.map(|s| s.to_string()),
    })
}

fn broker_peer(oa: Option<&str>, addresses: Vec<[u8; 4]>) -> BrokerPeer {
    let mut properties = vec![("in".to_string(), "brk".to_string())];
    if let Some(oa) = oa {
        properties.push(("oa".to_string(), oa.to_string()));
    }
    BrokerPeer::new(
        1,
        "brk",
        "brk-id",
        ServiceRecord { properties, port: 1919, addresses },
        "http://10.0.0.9:1919".to_string(),
    )
}

#[test]
fn new_runtime_is_starting() {
    let rt = WorkerRuntime::new();
    assert!(matches!(rt.status, WorkerRuntimeStatus::Starting));
    assert_eq!(rt.pr_rpc_port, 0);
    assert!(!rt.peer_browser_started);
}

#[test]
fn starting_runtime_checks_version() {
    let mut rt = WorkerRuntime::new();
    match rt.begin_update_info(info("1.9.0", true, Some("ab")), "http://127.0.0.1:8000") {
        UpdateInfoStep::Fail(m) => assert_eq!(m, "pRuntime version unsupported!"),
        other => panic!("{other:?}"),
    }
    assert_eq!(rt.pruntime_hostname, "127.0.0.1");
    assert!(rt.last_info.is_none());
    match rt.begin_update_info(info("2.1.0", false, Some("ab")), "http://127.0.0.1:8000") {
        UpdateInfoStep::Fail(m) => assert_eq!(m, "pRuntime not initialized!"),
        other => panic!("{other:?}"),
    }
    assert!(matches!(
        rt.begin_update_info(info("2.1.0", true, Some("ab")), "http://127.0.0.1:8000"),
        UpdateInfoStep::FetchNetworkConfig
    ));
    assert!(matches!(
        rt.begin_update_info(info("not-a-version", true, None), "http://127.0.0.1:8000"),
        UpdateInfoStep::UnparsableVersion
    ));
    assert!(matches!(
        rt.begin_update_info(info("2.1.0", true, None), "no-host-here"),
        UpdateInfoStep::NoPRuntimeHost
    ));
}

#[test]
fn network_configuration_completes_start() {
    let mut rt = WorkerRuntime::new();
    rt.begin_update_info(info("2.0.0", true, Some("ab")), "http://pr.local:8000");
    match rt.apply_network_status(info("2.0.0", true, Some("ab")), Ok(NetworkStatus { public_rpc_port: Some(8001) })) {
        WorkerRuntimeChannelMessage::ShouldUpdateStatus(WorkerRuntimeStatus::WaitingForBroker) => {}
        other => panic!("{other:?}"),
    }
    assert_eq!(rt.pr_rpc_port, 8001);
    assert_eq!(rt.pruntime_rpc_prefix, "http://pr.local:8001");
    assert_eq!(rt.public_key.as_deref(), Some("ab"));
    assert!(rt.initial_info.is_some());
    assert!(rt.last_info.is_some());
}

#[test]
fn network_configuration_failures() {
    let mut rt = WorkerRuntime::new();
    match rt.apply_network_status(info("2.0.0", true, Some("ab")), Err("timeout".to_string())) {
        WorkerRuntimeChannelMessage::ShouldSetPRuntimeFailed(m) => assert_eq!(m, "timeout"),
        other => panic!("{other:?}"),
    }
    assert!(rt.network_status.is_none());
    match rt.apply_network_status(info("2.0.0", true, Some("ab")), Ok(NetworkStatus { public_rpc_port: None })) {
        WorkerRuntimeChannelMessage::ShouldSetPRuntimeFailed(m) => assert_eq!(m, "Public port not enabled in pRuntime!"),
        other => panic!("{other:?}"),
    }
    assert_eq!(rt.pr_rpc_port, 0);
    match rt.apply_network_status(info("2.0.0", true, None), Ok(NetworkStatus { public_rpc_port: Some(1) })) {
        WorkerRuntimeChannelMessage::ShouldSetPRuntimeFailed(m) => assert_eq!(m, "pRuntime has invalid public key!"),
        other => panic!("{other:?}"),
    }
    assert!(rt.public_key.is_none());
}

#[test]
fn failed_runtime_recovers() {
    let mut rt = WorkerRuntime::new();
    rt.handle_update_status(failed(None, Some("down")));
    assert!(matches!(rt.begin_update_info(info("2.0.0", true, None), "http://x:1"), UpdateInfoStep::Recover));
    assert!(rt.last_info.is_some());
    assert!(matches!(rt.recover_from_failure(), Some(WorkerRuntimeStatus::Starting)));
    rt.handle_update_status(WorkerRuntimeStatus::Started);
    assert!(rt.recover_from_failure().is_none());
    assert!(matches!(rt.begin_update_info(info("2.0.0", true, None), "http://x:1"), UpdateInfoStep::Done));
}

#[test]
fn failures_recorded_once() {
    let mut rt = WorkerRuntime::new();
    let s = rt.handle_broker_failure("gone".to_string()).unwrap();
    match &s {
        WorkerRuntimeStatus::Failed(r) => {
            assert_eq!(r.broker.as_deref(), Some("gone"));
            assert!(r.pr.is_none());
        }
        other => panic!("{other:?}"),
    }
    rt.handle_update_status(s);
    assert!(rt.handle_broker_failure("gone".to_string()).is_none());
    let s = rt.handle_pruntime_failure("crashed".to_string()).unwrap();
    match &s {
        WorkerRuntimeStatus::Failed(r) => {
            assert_eq!(r.broker.as_deref(), Some("gone"));
            assert_eq!(r.pr.as_deref(), Some("crashed"));
        }
        other => panic!("{other:?}"),
    }
    rt.handle_update_status(s);
    assert!(rt.handle_pruntime_failure("crashed".to_string()).is_none());
    match rt.handle_broker_failure("other".to_string()) {
        Some(WorkerRuntimeStatus::Failed(r)) => assert_eq!(r.pr.as_deref(), Some("crashed")),
        other => panic!("{other:?}"),
    }
}

#[test]
fn waiting_starts_browser() {
    let mut rt = WorkerRuntime::new();
    assert!(matches!(rt.handle_update_status(WorkerRuntimeStatus::WaitingForBroker), StatusAction::StartPeerBrowser));
    assert!(rt.peer_browser_started);
    assert!(matches!(rt.status, WorkerRuntimeStatus::WaitingForBroker));
}

#[test]
fn lock_and_provision() {
    let mut rt = WorkerRuntime::new();
    rt.network_status = Some(NetworkStatus { public_rpc_port: Some(70000) });
    rt.public_key = Some("cafe".to_string());
    let addr = forwarder_address(&vec!["0.0.0.0:1982".to_string()], Some([192, 168, 1, 4])).unwrap();
    assert_eq!(addr, "http://192.168.1.4:1982");
    let m = rt.handle_lock_peer(broker_peer(Some("0.0.0.0:1981, 10.0.0.3:1981"), vec![[10, 0, 0, 9]]), addr);
    assert!(matches!(m, WorkerRuntimeChannelMessage::ShouldUpdateStatus(WorkerRuntimeStatus::PendingProvision)));
    let k = rt.keepalive_content.clone().unwrap();
    assert_eq!(k.instance_name, "brk");
    assert_eq!(k.instance_id, "brk-id");
    assert_eq!(k.public_port, (70000u32 as u16));
    assert_eq!(k.public_key, "cafe");
    assert_eq!(k.address_string, "http://192.168.1.4:1982");
    assert_eq!(rt.best_broker_mgmt_url.as_deref(), Some("http://10.0.0.9:1919"));
    assert_eq!(rt.keepalive_url(), "http://10.0.0.9:1919/v0/local_worker/keepalive");
    match rt.handle_update_status(WorkerRuntimeStatus::PendingProvision) {
        StatusAction::ProvisionPRuntime(p) => assert_eq!(p, "socks5://10.0.0.9:1981"),
        other => panic!("{other:?}"),
    }
}

#[test]
fn forwarder_addresses() {
    assert_eq!(forwarder_address(&vec!["10.0.0.2:1982".to_string()], None).as_deref(), Some("http://10.0.0.2:1982"));
    assert_eq!(forwarder_address(&vec!["0.0.0.0:1982".to_string()], None), None);
    assert_eq!(forwarder_address(&vec!["noport".to_string()], Some([1, 2, 3, 4])), None);
    assert_eq!(forwarder_address(&vec![], Some([1, 2, 3, 4])), None);
}

#[test]
fn proxy_urls() {
    assert_eq!(pruntime_proxy_url(&broker_peer(Some(" 10.0.0.3:1981 ,x"), vec![]).service_info).as_deref(), Some("socks5://10.0.0.3:1981"));
    assert_eq!(pruntime_proxy_url(&broker_peer(Some("0.0.0.0:1981"), vec![]).service_info), None);
    assert_eq!(pruntime_proxy_url(&broker_peer(Some("10.0.0.3"), vec![]).service_info), None);
    assert_eq!(pruntime_proxy_url(&broker_peer(None, vec![[1, 1, 1, 1]]).service_info), None);
}

#[test]
fn unusable_outbound_address() {
    let mut rt = WorkerRuntime::new();
    rt.best_broker = Some(broker_peer(Some("nowhere"), vec![]));
    assert!(matches!(rt.handle_update_status(WorkerRuntimeStatus::PendingProvision), StatusAction::UnusableOutboundAddress));
}

#[test]
fn broker_wait() {
    let waiting = WorkerRuntimeStatus::WaitingForBroker;
    assert!(matches!(broker_wait_step(&WorkerRuntimeStatus::Started, 0, true), BrokerWaitStep::Stop));
    assert!(matches!(broker_wait_step(&waiting, 0, true), BrokerWaitStep::Retry(1)));
    assert!(matches!(broker_wait_step(&waiting, 3, true), BrokerWaitStep::Retry(4)));
    assert!(matches!(broker_wait_step(&waiting, 4, true), BrokerWaitStep::Lock));
    assert!(matches!(broker_wait_step(&waiting, 4, false), BrokerWaitStep::Retry(5)));
    assert!(matches!(broker_wait_step(&waiting, 255, false), BrokerWaitStep::Retry(0)));
}

#[test]
fn intervals() {
    assert_eq!(pruntime_health_check_interval(&WorkerRuntimeStatus::Starting), 1);
    assert_eq!(pruntime_health_check_interval(&WorkerRuntimeStatus::WaitingForBroker), 15);
    assert_eq!(pruntime_health_check_interval(&WorkerRuntimeStatus::PendingProvision), 15);
    assert_eq!(pruntime_health_check_interval(&WorkerRuntimeStatus::Started), 6);
    assert_eq!(pruntime_health_check_interval(&failed(None, None)), 3);
    assert!(broker_keepalive_due(&WorkerRuntimeStatus::Started));
    assert!(!broker_keepalive_due(&WorkerRuntimeStatus::Starting));
    assert_eq!(broker_health_check_interval(&WorkerRuntimeStatus::PendingProvision), 6000);
    assert_eq!(broker_health_check_interval(&WorkerRuntimeStatus::WaitingForBroker), 3000);
}

#[test]
fn public_forwarding() {
    assert!(is_allowed_method("GetInfo"));
    assert!(is_allowed_method("ContractQuery"));
    assert!(!is_allowed_method("SignEndpointInfo"));
    match public_forward_decision(&WorkerRuntimeStatus::Started, "GetInfo", "http://pr:8001") {
        ForwardDecision::Forward(u) => assert_eq!(u, "http://pr:8001/prpc/PhactoryAPI.GetInfo"),
        other => panic!("{other:?}"),
    }
    assert!(matches!(
        public_forward_decision(&WorkerRuntimeStatus::Started, "Other", "http://pr:8001"),
        ForwardDecision::Reject(404)
    ));
    assert!(matches!(
        public_forward_decision(&WorkerRuntimeStatus::WaitingForBroker, "GetInfo", "http://pr:8001"),
        ForwardDecision::Reject(502)
    ));
    assert!(passes_response_body(200, false));
    assert!(passes_response_body(400, true));
    assert!(!passes_response_body(400, false));
    assert!(!passes_response_body(500, true));
}

#[test]
fn lock_to_broker_composes_forwarder_address() {
    let mut rt = WorkerRuntime::new();
    rt.network_status = Some(NetworkStatus { public_rpc_port: Some(8000) });
    rt.public_key = Some("cafe".to_string());
    let binds = vec!["0.0.0.0:1982".to_string(), "10.9.9.9:1".to_string()];
    let m = rt.lock_to_broker(broker_peer(Some("a:1"), vec![[10, 0, 0, 9]]), &binds, Some([192, 168, 1, 4]));
    assert!(matches!(m, Some(WorkerRuntimeChannelMessage::ShouldUpdateStatus(WorkerRuntimeStatus::PendingProvision))));
    let k = rt.keepalive_content.clone().unwrap();
    assert_eq!(k.address_string, "http://192.168.1.4:1982");
    assert_eq!(k.public_port, 8000);
    assert_eq!(rt.best_broker_name.as_deref(), Some("brk"));

    let mut rt2 = WorkerRuntime::new();
    rt2.network_status = Some(NetworkStatus { public_rpc_port: Some(8000) });
    rt2.public_key = Some("cafe".to_string());
    let named = vec!["10.0.0.2:1982".to_string()];
    rt2.lock_to_broker(broker_peer(Some("a:1"), vec![[10, 0, 0, 9]]), &named, None).unwrap();
    assert_eq!(rt2.keepalive_content.unwrap().address_string, "http://10.0.0.2:1982");
}

#[test]
fn lock_to_broker_without_usable_address_changes_nothing() {
    let mut rt = WorkerRuntime::new();
    rt.network_status = Some(NetworkStatus { public_rpc_port: Some(8000) });
    rt.public_key = Some("cafe".to_string());
    let binds = vec!["0.0.0.0:1982".to_string()];
    assert!(rt.lock_to_broker(broker_peer(Some("a:1"), vec![[10, 0, 0, 9]]), &binds, None).is_none());
    assert!(rt.best_broker.is_none());
    assert!(rt.keepalive_content.is_none());
    assert!(rt.lock_to_broker(broker_peer(Some("a:1"), vec![]), &vec![], Some([1, 2, 3, 4])).is_none());
    assert!(rt.best_broker_name.is_none());
}

#[test]
fn provisioning_outcome_messages() {
    assert!(matches!(
        provisioning_message(Ok(())),
        WorkerRuntimeChannelMessage::ShouldUpdateStatus(WorkerRuntimeStatus::Started)
    ));
    match provisioning_message(Err("refused".to_string())) {
        WorkerRuntimeChannelMessage::ShouldSetBrokerFailed(e) => assert_eq!(e, "refused"),
        other => panic!("{other:?}"),
    }
}

#[test]
fn keepalive_address_round_trip() {
    for (bind, interface, host) in [
        ("10.0.0.2:1982", None, "10.0.0.2"),
        ("0.0.0.0:1983", Some([192, 168, 7, 1]), "192.168.7.1"),
        ("worker-1.lan:2000", None, "worker-1.lan"),
        ("my_host:01982", None, "my_host"),
        ("node~1:+2001", None, "node~1"),
    ] {
        let mut rt = WorkerRuntime::new();
        rt.network_status = Some(NetworkStatus { public_rpc_port: Some(8000) });
        rt.public_key = Some("cafe".to_string());
        rt.lock_to_broker(broker_peer(Some("a:1"), vec![[10, 0, 0, 9]]), &vec![bind.to_string()], interface).unwrap();
        let identity = rt.keepalive_content.clone().unwrap();
        let mut map = LocalWorkerMap::new();
        let mut keys = Vec::new();
        assert_eq!(map.receive_keepalive(&mut keys, identity), Ok(()));
        let w = &map.workers[0];
        assert_eq!(w.hostname, host);
        assert_eq!(w.forwarder_port, bind.rsplit(':').next().unwrap().parse::<u16>().unwrap());
        assert_eq!(w.status, KnownLocalWorkerStatus::Active);
        assert_eq!(w.public_key, "cafe");
        assert_eq!(w.public_port, 8000);
    }
}

#[test]
fn forward_replies() {
    assert_eq!(forward_reply(Some((200, false))), (200, true));
    assert_eq!(forward_reply(Some((400, true))), (400, true));
    assert_eq!(forward_reply(Some((400, false))), (400, false));
    assert_eq!(forward_reply(Some((500, true))), (500, false));
    assert_eq!(forward_reply(None), (502, false));
    assert_eq!(forwarded_status(Some(204)), 204);
    assert_eq!(forwarded_status(None), 502);
}

#[test]
fn pruntime_info_messages() {
    match pruntime_info_message(Err("down".to_string())) {
        WorkerRuntimeChannelMessage::ShouldSetPRuntimeFailed(e) => assert_eq!(e, "down"),
        other => panic!("{other:?}"),
    }
    match pruntime_info_message(Ok(info("2.1.0", true, Some("ab")))) {
        WorkerRuntimeChannelMessage::ShouldUpdateInfo(i) => assert_eq!(i.version, "2.1.0"),
        other => panic!("{other:?}"),
    }
}

#[test]
fn keepalive_outcomes() {
    let id = MyIdentity { instance_name: "b".to_string(), instance_id: "1".to_string() };
    assert!(keepalive_outcome_message(Ok(id)).is_none());
    match keepalive_outcome_message(Err("timeout".to_string())) {
        Some(WorkerRuntimeChannelMessage::ShouldSetBrokerFailed(e)) => assert_eq!(e, "timeout"),
        other => panic!("{other:?}"),
    }
}
