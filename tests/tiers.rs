use vx0net_daemon::addr::IpAddress;
use vx0net_daemon::config::{create_default_config, create_test_config};
use vx0net_daemon::node::{ConnectionStatus, HostedService, NodeError, PeerConnection, ServiceStatus, ServiceType, Vx0Node, tier_from_name};
use vx0net_daemon::tier::{NodeTier, RoutePolicy, classify};

const TIERS: [NodeTier; 3] = [NodeTier::Backbone, NodeTier::Regional, NodeTier::Edge];

fn node(hostname: &str, asn: u32, tier: NodeTier) -> Result<Vx0Node, NodeError> {
    let config = create_test_config(hostname, asn, "10.0.0.5", tier);
    Vx0Node::new(config, Some(0x0a000005), Some(0xfe80_0000_0000_0000_0000_0000_0000_0001))
}

fn peer(id: u128, asn: u32) -> PeerConnection {
    PeerConnection::new(id, asn, IpAddress::v4(10, 0, 0, 9))
}

#[test]
fn peering_matrix_is_symmetric() {
    for a in TIERS.iter() {
        for b in TIERS.iter() {
            assert_eq!(a.can_peer_with(b), b.can_peer_with(a));
        }
    }
    assert!(!NodeTier::Edge.can_peer_with(&NodeTier::Edge));
    assert!(!NodeTier::Backbone.can_peer_with(&NodeTier::Edge));
    assert!(NodeTier::Regional.can_peer_with(&NodeTier::Edge));
}

#[test]
fn classify_matches_ranges() {
    for t in TIERS.iter() {
        let (lo, hi) = t.get_asn_range();
        assert_eq!(classify(lo), *t);
        assert_eq!(classify(hi), *t);
        assert_eq!(classify((lo + hi) / 2), *t);
    }
    assert_eq!(classify(64999), NodeTier::Edge);
    assert_eq!(classify(70000), NodeTier::Edge);
    assert_eq!(NodeTier::Backbone.get_asn_range(), (65000, 65099));
    assert_eq!(NodeTier::Regional.get_asn_range(), (65100, 65999));
    assert_eq!(NodeTier::Edge.get_asn_range(), (66000, 69999));
}

#[test]
fn tier_limits_and_policies() {
    assert_eq!(NodeTier::Backbone.max_peers(), 50);
    assert_eq!(NodeTier::Regional.max_peers(), 20);
    assert_eq!(NodeTier::Edge.max_peers(), 5);
    assert_eq!(NodeTier::Backbone.route_advertisement_policy(), RoutePolicy::FullTable);
    assert_eq!(NodeTier::Regional.route_advertisement_policy(), RoutePolicy::RegionalFilter);
    assert_eq!(NodeTier::Edge.route_advertisement_policy(), RoutePolicy::DefaultOnly);
}

#[test]
fn tier_names_and_legacy_aliases() {
    assert_eq!(tier_from_name("Backbone"), NodeTier::Backbone);
    assert_eq!(tier_from_name("Tier1"), NodeTier::Backbone);
    assert_eq!(tier_from_name("Regional"), NodeTier::Regional);
    assert_eq!(tier_from_name("Tier2"), NodeTier::Regional);
    assert_eq!(tier_from_name("Edge"), NodeTier::Edge);
    assert_eq!(tier_from_name("whatever"), NodeTier::Edge);
}

#[test]
fn edge_edge_peering_is_rejected() {
    let mut e1 = node("e1", 66001, NodeTier::Edge).unwrap();
    let _e2 = node("e2", 66002, NodeTier::Edge).unwrap();
    let r = e1.add_peer(peer(2, 66002));
    assert!(matches!(r, Err(NodeError::Network(_))));
    assert_eq!(e1.get_peer_count(), 0);
    assert!(e1.peer_ids().is_empty());
}

#[test]
fn tier_correct_peering_is_accepted() {
    let mut b1 = node("b1", 65001, NodeTier::Backbone).unwrap();
    let mut r1 = node("r1", 65101, NodeTier::Regional).unwrap();
    assert!(b1.add_peer(peer(r1.node_id, 65101)).is_ok());
    assert!(r1.add_peer(peer(b1.node_id, 65001)).is_ok());
    assert_eq!(b1.get_peer_count(), 1);
    assert_eq!(r1.get_peer_count(), 1);
}

#[test]
fn asn_tier_mismatch_is_a_config_error() {
    assert!(matches!(node("b", 66000, NodeTier::Backbone), Err(NodeError::Config(_))));
    assert!(node("b", 65099, NodeTier::Backbone).is_ok());
}

#[test]
fn missing_addresses_are_config_errors() {
    let config = create_test_config("n", 66001, "not-an-ip", NodeTier::Edge);
    assert!(matches!(Vx0Node::new(config.clone(), None, Some(1)), Err(NodeError::Config(_))));
    assert!(matches!(Vx0Node::new(config, Some(1), None), Err(NodeError::Config(_))));
}

#[test]
fn peer_limit_per_tier() {
    let mut e = node("e", 66001, NodeTier::Edge).unwrap();
    for i in 0..5u128 {
        assert!(e.add_peer(peer(i, 65100 + i as u32)).is_ok());
    }
    assert!(matches!(e.add_peer(peer(99, 65150)), Err(NodeError::Network(_))));
    assert_eq!(e.get_peer_count(), 5);
    // same identifier replaces rather than grows, but only below the limit
    e.remove_peer(0).unwrap();
    assert!(e.add_peer(peer(1, 65120)).is_ok());
    assert_eq!(e.get_peer_count(), 4);
}

#[test]
fn stop_disconnects_every_peer() {
    let mut r = node("r", 65101, NodeTier::Regional).unwrap();
    let mut p = peer(7, 66005);
    p.begin_connect();
    p.finish_connect(true);
    assert!(p.is_connected());
    r.add_peer(p).unwrap();
    r.stop().unwrap();
    assert_eq!(r.peers[0].status, ConnectionStatus::Disconnected);
}

#[test]
fn service_domains_must_be_reserved() {
    let mut r = node("r", 65101, NodeTier::Regional).unwrap();
    let svc = |domain: &str| HostedService {
        service_id: 1,
        name: "chat".to_string(),
        service_type: ServiceType::ChatServer,
        domain: domain.to_string(),
        port: 8080,
        status: ServiceStatus::Running,
        metadata: vec![],
    };
    assert!(r.register_service(svc("chat.community1.vx0")).is_ok());
    assert!(matches!(r.register_service(svc("chat.example.com")), Err(NodeError::Service(_))));
    assert_eq!(r.services.len(), 1);
}

#[test]
fn lab_and_test_configurations() {
    let c = create_default_config("node1.vx0", 65001, "192.168.1.100", 11790, 45000);
    assert_eq!(c.node.tier, "Edge");
    assert_eq!(c.network.bgp.listen_port, 11790);
    assert_eq!(c.security.ike.listen_port, 45000);
    assert_eq!(c.services.discovery_port, 8080);
    assert_eq!(c.monitoring.metrics_port, 9090);
    assert_eq!(c.security.certificates.node_cert_path, "config/certs/node1.vx0.crt");
    let d = create_default_config("node2.vx0", 65002, "192.168.1.101", 11791, 45001);
    assert_eq!(d.services.discovery_port, 8081);
    assert_eq!(d.monitoring.metrics_port, 9091);
    let t = create_test_config("r1", 65101, "10.1.0.1", NodeTier::Regional);
    assert_eq!(t.node.tier, "Regional");
    assert_eq!(t.network.bgp.router_id, "10.1.0.1");
    assert_eq!(t.security.certificates.node_key_path, "config/certs/r1.key");
}
