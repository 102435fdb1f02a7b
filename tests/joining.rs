use vx0net_daemon::addr::IpAddress;
use vx0net_daemon::config::BootstrapNode;
use vx0net_daemon::join::{choose_join_response, try_next_connection, DiscoveryMessageType, handle_discovery_message, auto_assign_asn, connection_target, discover_entry_points, find_suitable_peers, get_default_psk, join_outcome, needs_more_peers, open_join_response, public_bootstrap_nodes, record_discovered_peer};
use vx0net_daemon::node::{NodeError, PeerConnection};
use vx0net_daemon::tier::NodeTier;

fn entry(ip: &str, asn: u32) -> BootstrapNode {
    BootstrapNode { hostname: format!("n{}", asn), ip: ip.to_string(), asn }
}

#[test]
fn asn_assignment() {
    assert_eq!(auto_assign_asn(NodeTier::Edge, 66010, &vec![]).unwrap(), None);
    assert_eq!(auto_assign_asn(NodeTier::Edge, 65001, &vec![]).unwrap(), Some(66000));
    assert_eq!(auto_assign_asn(NodeTier::Backbone, 1, &vec![65000, 65001, 65003]).unwrap(), Some(65002));
    let all: Vec<u32> = (65000..=65099).collect();
    assert!(matches!(auto_assign_asn(NodeTier::Backbone, 1, &all), Err(NodeError::Config(_))));
}

#[test]
fn entry_points_merge_sources() {
    let dir = public_bootstrap_nodes();
    let local = vec![entry("192.168.1.10", 65110)];
    let found = discover_entry_points(&dir, &local, &vec![]).unwrap();
    assert_eq!(found.len(), 5);
    assert_eq!(found[0].asn, 65002);
    assert_eq!(found[4].asn, 65110);
    let only_placeholder = vec![entry("YOUR_BACKBONE_IP", 65001)];
    assert!(matches!(discover_entry_points(&only_placeholder, &vec![], &vec![]), Err(NodeError::Network(_))));
}

#[test]
fn suitable_peers_follow_matrix_and_reachability() {
    let points = vec![entry("10.0.0.1", 65001), entry("10.0.0.2", 65101), entry("10.0.0.3", 66001), entry("10.0.0.4", 65102)];
    let v = find_suitable_peers(NodeTier::Edge, &points, &vec![true, true, true, false]).unwrap();
    assert_eq!(v.len(), 1);
    assert_eq!(v[0].asn, 65101);
    assert!(matches!(find_suitable_peers(NodeTier::Edge, &points, &vec![false; 4]), Err(NodeError::Network(_))));
}

#[test]
fn join_decisions() {
    assert_eq!(connection_target(10), 3);
    assert_eq!(connection_target(2), 2);
    assert!(join_outcome(1).is_ok());
    assert!(matches!(join_outcome(0), Err(NodeError::Network(_))));
    assert!(needs_more_peers(NodeTier::Regional, 9));
    assert!(!needs_more_peers(NodeTier::Regional, 10));
    let resp = open_join_response(NodeTier::Edge, Some(66000), &vec![entry("10.0.0.2", 65101)]);
    assert!(resp.accepted);
    assert_eq!(resp.network_info.recommended_settings.max_peers, 5);
    assert_eq!(resp.bootstrap_peers.len(), 1);
    assert_eq!(get_default_psk(), b"vx0-network-default-psk-change-in-production".to_vec());
}

#[test]
fn discovered_peers_are_recorded_once() {
    let mut known: Vec<PeerConnection> = vec![];
    assert!(record_discovered_peer(&mut known, 5, 65101, IpAddress::v4(10, 0, 0, 5)));
    assert!(!record_discovered_peer(&mut known, 5, 65102, IpAddress::v4(10, 0, 0, 6)));
    assert_eq!(known.len(), 1);
    assert_eq!(known[0].peer_asn, 65101);
}

#[test]
fn only_announcements_record_peers() {
    let mut known: Vec<PeerConnection> = vec![];
    assert!(!handle_discovery_message(&mut known, DiscoveryMessageType::Query, 1, 65101, IpAddress::v4(10, 0, 0, 1)));
    assert!(!handle_discovery_message(&mut known, DiscoveryMessageType::Response, 1, 65101, IpAddress::v4(10, 0, 0, 1)));
    assert!(known.is_empty());
    assert!(handle_discovery_message(&mut known, DiscoveryMessageType::Announce, 1, 65101, IpAddress::v4(10, 0, 0, 1)));
    assert_eq!(known.len(), 1);
}

#[test]
fn first_accepting_answer_wins() {
    let peers = vec![entry("10.0.0.2", 65101), entry("10.0.0.3", 65102)];
    let mut refusing = open_join_response(NodeTier::Edge, None, &vec![]);
    refusing.accepted = false;
    let accepting = open_join_response(NodeTier::Regional, Some(66001), &vec![]);
    let r = choose_join_response(NodeTier::Edge, Some(66000), &peers, vec![None, Some(refusing), Some(accepting)]);
    assert!(r.accepted);
    assert_eq!(r.assigned_asn, Some(66001));
    let fallback = choose_join_response(NodeTier::Edge, Some(66000), &peers, vec![None, None]);
    assert!(fallback.accepted);
    assert_eq!(fallback.assigned_asn, Some(66000));
    assert_eq!(fallback.bootstrap_peers.len(), 2);
}

#[test]
fn initial_connection_steps() {
    assert!(try_next_connection(0, 3, 0, 5));
    assert!(!try_next_connection(3, 3, 4, 5));
    assert!(!try_next_connection(1, 3, 5, 5));
}
