use service_network::broker::local_worker::{
    KnownLocalWorkerStatus, LocalWorkerManagerChannelMessage, LocalWorkerMap, UnusableWorkerAddress,
};
use service_network::broker::outbound::{pick_resolved_address, ResolvedAddress};
use service_network::broker::query_forwarder::{route_query, ForwardDecision};
use service_network::mgmt_types::LocalWorkerIdentity;

fn identity(key: &str, id: &str, address: &str) -> LocalWorkerIdentity {
    LocalWorkerIdentity {
        instance_name: "worker".to_string(),
        instance_id: id.to_string(),
        address_string: address.to_string(),
        public_port: 8000,
        public_key: key.to_string(),
    }
}

fn check(map: &mut LocalWorkerMap, keys: &mut Vec<String>) {
    map.handle_manager_message(keys, LocalWorkerManagerChannelMessage::ShouldCheckPeerHealth).unwrap();
}

#[test]
fn first_keepalive_registers_worker() {
    let mut map = LocalWorkerMap::new();
    let mut keys = Vec::new();
    let r = map.handle_manager_message(
        &mut keys,
        LocalWorkerManagerChannelMessage::ReceivedKeepAlive(identity("k1", "i1", "http://10.0.0.7:1982")),
    );
    assert_eq!(r, Ok(()));
    assert_eq!(keys, vec!["k1".to_string()]);
    let w = &map.workers[0];
    assert_eq!(w.status, KnownLocalWorkerStatus::Active);
    assert_eq!(w.hostname, "10.0.0.7");
    assert_eq!(w.forwarder_port, 1982);
    assert_eq!(w.lost_count, 0);
    assert!(!w.lost_mark);
}

#[test]
fn address_without_port_refused() {
    let mut map = LocalWorkerMap::new();
    let mut keys = Vec::new();
    assert_eq!(map.receive_keepalive(&mut keys, identity("k1", "i1", "http://10.0.0.7")), Err(UnusableWorkerAddress));
    assert!(map.workers.is_empty());
    assert!(keys.is_empty());
}

#[test]
fn missed_checks_timeline() {
    let mut map = LocalWorkerMap::new();
    let mut keys = Vec::new();
    map.receive_keepalive(&mut keys, identity("k1", "i1", "http://h:1982")).unwrap();
    for n in 1..=20u8 {
        check(&mut map, &mut keys);
        let expected = if n <= 4 {
            KnownLocalWorkerStatus::Active
        } else if n <= 11 {
            KnownLocalWorkerStatus::Lost
        } else {
            KnownLocalWorkerStatus::Dead
        };
        assert_eq!(map.workers[0].status, expected, "after {n} checks");
        assert_eq!(map.workers[0].lost_count, n.min(12));
    }
}

#[test]
fn keepalive_revives_lost_worker() {
    let mut map = LocalWorkerMap::new();
    let mut keys = Vec::new();
    map.receive_keepalive(&mut keys, identity("k1", "i1", "http://h:1982")).unwrap();
    for _ in 0..6 {
        check(&mut map, &mut keys);
    }
    assert_eq!(map.workers[0].status, KnownLocalWorkerStatus::Lost);
    map.receive_keepalive(&mut keys, identity("k1", "i2", "http://other:9")).unwrap();
    let w = &map.workers[0];
    assert_eq!(w.status, KnownLocalWorkerStatus::Active);
    assert_eq!(w.lost_count, 0);
    assert_eq!(w.instance_id, "i2");
    assert_eq!(w.hostname, "h");
    assert_eq!(w.address_string, "http://h:1982");
}

#[test]
fn dead_worker_registered_afresh() {
    let mut map = LocalWorkerMap::new();
    let mut keys = Vec::new();
    map.receive_keepalive(&mut keys, identity("k1", "i1", "http://h:1982")).unwrap();
    for _ in 0..12 {
        check(&mut map, &mut keys);
    }
    assert_eq!(map.workers[0].status, KnownLocalWorkerStatus::Dead);
    map.receive_keepalive(&mut keys, identity("k1", "i2", "http://new:1983")).unwrap();
    assert_eq!(map.workers.len(), 1);
    assert_eq!(map.workers[0].status, KnownLocalWorkerStatus::Active);
    assert_eq!(map.workers[0].hostname, "new");
    assert_eq!(map.workers[0].forwarder_port, 1983);
    assert_eq!(keys, vec!["k1".to_string()]);
}

#[test]
fn keepalive_keeps_other_workers_active() {
    let mut map = LocalWorkerMap::new();
    let mut keys = Vec::new();
    map.receive_keepalive(&mut keys, identity("k1", "i1", "http://h1:1982")).unwrap();
    map.receive_keepalive(&mut keys, identity("k2", "i2", "http://h2:1982")).unwrap();
    assert_eq!(keys, vec!["k1".to_string(), "k2".to_string()]);
    for _ in 0..10 {
        check(&mut map, &mut keys);
        map.receive_keepalive(&mut keys, identity("k1", "i1", "http://h1:1982")).unwrap();
    }
    assert_eq!(map.workers[0].status, KnownLocalWorkerStatus::Active);
    assert_eq!(map.workers[1].status, KnownLocalWorkerStatus::Lost);
}

#[test]
fn queries_routed_by_status() {
    let mut map = LocalWorkerMap::new();
    let mut keys = Vec::new();
    map.receive_keepalive(&mut keys, identity("k1", "i1", "http://10.1.2.3:1982")).unwrap();
    match route_query(&map, "k1", "GetInfo") {
        ForwardDecision::Forward(url) => assert_eq!(url, "http://10.1.2.3:1982/GetInfo"),
        other => panic!("{other:?}"),
    }
    assert!(matches!(route_query(&map, "unknown", "GetInfo"), ForwardDecision::Reject(404)));
    for _ in 0..5 {
        check(&mut map, &mut keys);
    }
    assert!(matches!(route_query(&map, "k1", "GetInfo"), ForwardDecision::Reject(502)));
    for _ in 0..7 {
        check(&mut map, &mut keys);
    }
    assert!(matches!(route_query(&map, "k1", "GetInfo"), ForwardDecision::Reject(404)));
    map.receive_keepalive(&mut keys, identity("k1", "i1", "http://10.1.2.3:1982")).unwrap();
    assert!(matches!(route_query(&map, "k1", "GetInfo"), ForwardDecision::Forward(_)));
}

#[test]
fn live_keys_skip_dead() {
    let mut map = LocalWorkerMap::new();
    let mut keys = Vec::new();
    map.receive_keepalive(&mut keys, identity("k1", "i1", "http://h:1")).unwrap();
    for _ in 0..12 {
        check(&mut map, &mut keys);
    }
    map.receive_keepalive(&mut keys, identity("k2", "i2", "http://h:2")).unwrap();
    assert_eq!(keys, vec!["k2".to_string()]);
    assert_eq!(map.live_keys(), vec!["k2".to_string()]);
}

#[test]
fn resolver_picks_last_ipv4() {
    let addrs = vec![
        ResolvedAddress::V4([1, 1, 1, 1]),
        ResolvedAddress::V4([8, 8, 8, 8]),
        ResolvedAddress::V6([0x2001, 0, 0, 0, 0, 0, 0, 1]),
    ];
    assert_eq!(pick_resolved_address(&addrs), Some([8, 8, 8, 8]));
    assert_eq!(pick_resolved_address(&vec![ResolvedAddress::V6([0; 8])]), None);
    assert_eq!(pick_resolved_address(&vec![]), None);
}

#[test]
fn live_keys_in_ascending_key_order() {
    let mut map = LocalWorkerMap::new();
    let mut keys = Vec::new();
    map.receive_keepalive(&mut keys, identity("z", "iz", "http://h:2")).unwrap();
    map.receive_keepalive(&mut keys, identity("a", "ia", "http://h:1")).unwrap();
    assert_eq!(keys, vec!["a".to_string(), "z".to_string()]);
    assert_eq!(map.workers[0].public_key, "a");
    assert_eq!(map.workers[1].public_key, "z");
}

#[test]
fn new_worker_keys_skip_dead_and_stay_ordered() {
    let mut map = LocalWorkerMap::new();
    let mut keys = Vec::new();
    map.receive_keepalive(&mut keys, identity("a", "ia", "http://h:1")).unwrap();
    map.receive_keepalive(&mut keys, identity("z", "iz", "http://h:2")).unwrap();
    for _ in 0..7 {
        check(&mut map, &mut keys);
    }
    map.receive_keepalive(&mut keys, identity("z", "iz", "http://h:2")).unwrap();
    for _ in 0..5 {
        check(&mut map, &mut keys);
    }
    assert_eq!(map.workers[0].status, KnownLocalWorkerStatus::Dead);
    assert_eq!(map.workers[1].status, KnownLocalWorkerStatus::Lost);
    let r = map.receive_keepalive(&mut keys, identity("pk", "id1", "http://10.0.0.2:1982"));
    assert_eq!(r, Ok(()));
    assert_eq!(keys, vec!["pk".to_string(), "z".to_string()]);
    let names: Vec<&str> = map.workers.iter().map(|w| w.public_key.as_str()).collect();
    assert_eq!(names, vec!["a", "pk", "z"]);
    let w = &map.workers[1];
    assert_eq!(w.status, KnownLocalWorkerStatus::Active);
    assert_eq!(w.hostname, "10.0.0.2");
    assert_eq!(w.forwarder_port, 1982);
    assert_eq!(w.instance_id, "id1");
    assert_eq!(w.lost_count, 0);
    assert!(!w.lost_mark);
}

#[test]
fn health_check_reaches_every_live_worker_once() {
    let mut map = LocalWorkerMap::new();
    let mut keys = Vec::new();
    map.receive_keepalive(&mut keys, identity("a", "ia", "http://h:1")).unwrap();
    for _ in 0..12 {
        check(&mut map, &mut keys);
    }
    map.receive_keepalive(&mut keys, identity("m", "im", "http://h:2")).unwrap();
    map.receive_keepalive(&mut keys, identity("b", "ib", "http://h:3")).unwrap();
    check(&mut map, &mut keys);
    assert_eq!(map.workers[0].public_key, "a");
    assert_eq!(map.workers[0].lost_count, 12);
    assert_eq!(map.workers[0].status, KnownLocalWorkerStatus::Dead);
    assert_eq!(map.workers[1].public_key, "b");
    assert_eq!(map.workers[1].lost_count, 1);
    assert!(map.workers[1].lost_mark);
    assert_eq!(map.workers[2].public_key, "m");
    assert_eq!(map.workers[2].lost_count, 1);
}
