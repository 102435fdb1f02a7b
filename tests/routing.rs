use vx0net_daemon::addr::{IpAddress, Prefix};
use vx0net_daemon::daemon::BGPDaemon;
use vx0net_daemon::messages::{AttributeValue, BGPMessage};
use vx0net_daemon::policy::RoutingPolicy;
use vx0net_daemon::protocol::BGPRoute;
use vx0net_daemon::rib::{BGPOrigin, RouteEntry, RouteTable};
use vx0net_daemon::session::BGPSession;
use vx0net_daemon::tier::{NodeTier, RoutePolicy};

fn prefix(a: u8, b: u8, c: u8, d: u8, len: u8) -> Prefix {
    Prefix::v4(a, b, c, d, len).unwrap()
}

fn route(network: Prefix, next_hop: IpAddress, as_path: Vec<u32>, origin: BGPOrigin, local_pref: u32) -> RouteEntry {
    RouteEntry {
        network,
        next_hop,
        as_path,
        origin,
        local_pref,
        med: 0,
        communities: vec![],
        timestamp: 0,
    }
}

#[test]
fn test_route_evaluation() {
    let policy = RoutingPolicy::new(65001, NodeTier::Edge);
    let r = route(prefix(10, 0, 0, 0, 24), IpAddress::v4(192, 168, 1, 1), vec![65001, 65002], BGPOrigin::IGP, 100);
    let preference = policy.evaluate_route(&r);
    assert!(preference > 0);
}

#[test]
fn test_best_route_selection() {
    let policy = RoutingPolicy::new(65001, NodeTier::Edge);
    let route1 = route(prefix(10, 0, 0, 0, 24), IpAddress::v4(192, 168, 1, 1), vec![65001, 65002], BGPOrigin::IGP, 100);
    let route2 = route(prefix(10, 0, 0, 0, 24), IpAddress::v4(192, 168, 1, 2), vec![65001, 65003, 65004], BGPOrigin::EGP, 150);
    let routes = vec![route1, route2];
    let best = policy.select_best_route(&routes);
    assert!(best.is_some());
    assert_eq!(best.unwrap().local_pref, 150);
}

#[test]
fn score_formula_exact_values() {
    let policy = RoutingPolicy::new(65001, NodeTier::Backbone);
    // 100 + 100/2 + 10
    let a = route(prefix(10, 0, 0, 0, 24), IpAddress::v4(192, 168, 1, 1), vec![65001, 65002], BGPOrigin::IGP, 100);
    assert_eq!(policy.evaluate_route(&a), 160);
    // 150 + 100/3 + 5
    let b = route(prefix(10, 0, 0, 0, 24), IpAddress::v4(192, 168, 1, 2), vec![1, 2, 3], BGPOrigin::EGP, 150);
    assert_eq!(policy.evaluate_route(&b), 188);
    // empty path counts as one hop: 200 + 100 + 0
    let c = route(prefix(10, 0, 0, 0, 8), IpAddress::v4(10, 0, 0, 1), vec![], BGPOrigin::Incomplete, 200);
    assert_eq!(policy.evaluate_route(&c), 300);
}

#[test]
fn select_best_route_keeps_first_of_equal_scores() {
    let policy = RoutingPolicy::new(65001, NodeTier::Backbone);
    let a = route(prefix(10, 0, 0, 0, 24), IpAddress::v4(1, 1, 1, 1), vec![1], BGPOrigin::IGP, 100);
    let b = route(prefix(10, 0, 0, 0, 24), IpAddress::v4(2, 2, 2, 2), vec![2], BGPOrigin::IGP, 100);
    let best = policy.select_best_route(&[a, b]).unwrap();
    assert_eq!(best.next_hop, IpAddress::v4(1, 1, 1, 1));
    assert!(policy.select_best_route(&[]).is_none());
}

#[test]
fn rib_longest_prefix_match() {
    let mut rib = RouteTable::new();
    let a = IpAddress::v4(192, 168, 0, 1);
    let b = IpAddress::v4(192, 168, 0, 2);
    rib.add_route(route(prefix(10, 0, 0, 0, 8), a, vec![65001], BGPOrigin::IGP, 100));
    rib.add_route(route(prefix(10, 1, 0, 0, 16), b, vec![65002], BGPOrigin::IGP, 100));
    assert_eq!(rib.find_best_route(&IpAddress::v4(10, 1, 2, 3)).unwrap().next_hop, b);
    assert_eq!(rib.find_best_route(&IpAddress::v4(10, 2, 0, 1)).unwrap().next_hop, a);
    assert!(rib.find_best_route(&IpAddress::v4(11, 0, 0, 1)).is_none());
    assert!(rib.find_best_route(&IpAddress::V6(1)).is_none());
}

#[test]
fn rib_default_route_matches_everything_v4() {
    let mut rib = RouteTable::new();
    rib.add_route(route(prefix(0, 0, 0, 0, 0), IpAddress::v4(1, 2, 3, 4), vec![1], BGPOrigin::IGP, 100));
    assert!(rib.find_best_route(&IpAddress::v4(203, 0, 113, 9)).is_some());
}

#[test]
fn rib_keeps_only_latest_route_per_prefix() {
    let mut rib = RouteTable::new();
    rib.add_route(route(prefix(10, 0, 0, 0, 24), IpAddress::v4(1, 1, 1, 1), vec![1], BGPOrigin::IGP, 100));
    rib.add_route(route(prefix(10, 0, 0, 0, 24), IpAddress::v4(2, 2, 2, 2), vec![2], BGPOrigin::IGP, 100));
    let all = rib.get_all_routes();
    assert_eq!(all.len(), 1);
    assert_eq!(all[0].next_hop, IpAddress::v4(2, 2, 2, 2));
    assert_eq!(rib.version, 2);
}

#[test]
fn rib_version_moves_on_every_write() {
    let mut rib = RouteTable::new();
    assert_eq!(rib.version, 0);
    rib.add_route(route(prefix(10, 0, 0, 0, 24), IpAddress::v4(1, 1, 1, 1), vec![1], BGPOrigin::IGP, 100));
    assert_eq!(rib.version, 1);
    assert!(rib.remove_route(&prefix(10, 9, 0, 0, 24)).is_none());
    assert_eq!(rib.version, 1);
    let removed = rib.remove_route(&prefix(10, 0, 0, 0, 24)).unwrap();
    assert_eq!(removed.next_hop, IpAddress::v4(1, 1, 1, 1));
    assert_eq!(rib.version, 2);
    assert!(rib.get_route(&prefix(10, 0, 0, 0, 24)).is_none());
}

#[test]
fn rib_prefix_equality_is_address_and_length() {
    let mut rib = RouteTable::new();
    rib.add_route(route(prefix(10, 0, 0, 0, 16), IpAddress::v4(1, 1, 1, 1), vec![1], BGPOrigin::IGP, 100));
    rib.add_route(route(prefix(10, 0, 0, 0, 24), IpAddress::v4(2, 2, 2, 2), vec![1], BGPOrigin::IGP, 100));
    assert_eq!(rib.get_all_routes().len(), 2);
    assert_eq!(rib.get_routes_for_prefix(&prefix(10, 0, 0, 0, 16)).len(), 1);
    assert!(Prefix::v4(10, 0, 0, 0, 33).is_none());
}

#[test]
fn announce_overlay_network() {
    let mut rib = RouteTable::new();
    rib.announce_vx0_network(prefix(10, 0, 0, 0, 8), 65001);
    let r = rib.get_route(&prefix(10, 0, 0, 0, 8)).unwrap();
    assert_eq!(r.local_pref, 200);
    assert_eq!(r.as_path, vec![65001]);
    assert_eq!(r.next_hop, IpAddress::v4(10, 0, 0, 1));
}

#[test]
fn accept_filter_by_policy() {
    let backbone = RoutingPolicy::new(65001, NodeTier::Backbone);
    assert_eq!(backbone.route_policy, RoutePolicy::FullTable);
    let looped = route(prefix(10, 5, 0, 0, 16), IpAddress::v4(1, 1, 1, 1), vec![65010, 65001], BGPOrigin::IGP, 100);
    assert!(!backbone.should_accept_route(&looped, 65010));
    let clean = route(prefix(10, 5, 0, 0, 16), IpAddress::v4(1, 1, 1, 1), vec![65010], BGPOrigin::IGP, 100);
    assert!(backbone.should_accept_route(&clean, 65010));

    let regional = RoutingPolicy::new(65101, NodeTier::Regional);
    let long = route(prefix(10, 5, 0, 0, 16), IpAddress::v4(1, 1, 1, 1), vec![1, 2, 3, 4], BGPOrigin::IGP, 100);
    assert!(!regional.should_accept_route(&long, 65102));
    assert!(regional.should_accept_route(&long, 65002));
    let small = route(prefix(10, 5, 1, 0, 24), IpAddress::v4(1, 1, 1, 1), vec![66001], BGPOrigin::IGP, 100);
    assert!(regional.should_accept_route(&small, 66001));
    assert!(!regional.should_accept_route(&clean, 66001));

    let edge = RoutingPolicy::new(66001, NodeTier::Edge);
    let default = route(prefix(0, 0, 0, 0, 0), IpAddress::v4(1, 1, 1, 1), vec![65101, 65001], BGPOrigin::IGP, 100);
    assert!(edge.should_accept_route(&default, 65101));
    let direct = route(prefix(10, 7, 0, 0, 16), IpAddress::v4(1, 1, 1, 1), vec![65101], BGPOrigin::IGP, 100);
    assert!(edge.should_accept_route(&direct, 65101));
    let indirect = route(prefix(10, 7, 0, 0, 16), IpAddress::v4(1, 1, 1, 1), vec![65101, 65001], BGPOrigin::IGP, 100);
    assert!(!edge.should_accept_route(&indirect, 65101));
}

#[test]
fn advertise_filter_by_policy() {
    let backbone = RoutingPolicy::new(65001, NodeTier::Backbone);
    let r = route(prefix(10, 5, 0, 0, 16), IpAddress::v4(1, 1, 1, 1), vec![65002], BGPOrigin::IGP, 100);
    assert!(!backbone.should_advertise_route(&r, 65002));
    assert!(backbone.should_advertise_route(&r, 65003));

    let regional = RoutingPolicy::new(65101, NodeTier::Regional);
    assert!(regional.should_advertise_route(&r, 65001));
    let narrow = route(prefix(10, 5, 1, 0, 24), IpAddress::v4(1, 1, 1, 1), vec![65101], BGPOrigin::IGP, 100);
    assert!(!regional.should_advertise_route(&narrow, 65001));
    assert!(regional.should_advertise_route(&narrow, 66001));
    let low_pref = route(prefix(10, 5, 1, 0, 24), IpAddress::v4(1, 1, 1, 1), vec![65101], BGPOrigin::IGP, 50);
    assert!(!regional.should_advertise_route(&low_pref, 66001));

    let edge = RoutingPolicy::new(66001, NodeTier::Edge);
    let local = route(prefix(10, 9, 9, 0, 24), IpAddress::v4(1, 1, 1, 1), vec![66001], BGPOrigin::IGP, 100);
    assert!(edge.should_advertise_route(&local, 65101));
    assert!(!edge.should_advertise_route(&r, 65101));
}

fn wire_route(network: Prefix, as_path: Vec<u32>) -> BGPRoute {
    BGPRoute { network, next_hop: IpAddress::v4(192, 0, 2, 1), as_path, origin: BGPOrigin::IGP, local_pref: 100, med: 0 }
}

#[test]
fn update_with_local_asn_in_path_leaves_rib_unchanged() {
    let policy = RoutingPolicy::new(65001, NodeTier::Backbone);
    let mut session = BGPSession::new(65001, 65002, IpAddress::v4(192, 0, 2, 1));
    let mut rib = RouteTable::new();
    let looped = vec![wire_route(prefix(10, 3, 0, 0, 16), vec![65002, 65001])];
    let n = session.apply_update(&mut rib, &policy, &vec![], &looped, 1_000);
    assert_eq!(n, 0);
    assert_eq!(rib.version, 0);
    assert!(rib.get_all_routes().is_empty());
}

#[test]
fn update_installs_with_peer_prepended_and_withdraws_own_routes() {
    let policy = RoutingPolicy::new(65001, NodeTier::Backbone);
    let mut session = BGPSession::new(65001, 65002, IpAddress::v4(192, 0, 2, 1));
    let mut rib = RouteTable::new();
    let ann = vec![wire_route(prefix(10, 3, 0, 0, 16), vec![65003])];
    assert_eq!(session.apply_update(&mut rib, &policy, &vec![], &ann, 1_000), 1);
    let r = rib.get_route(&prefix(10, 3, 0, 0, 16)).unwrap();
    assert_eq!(r.as_path, vec![65002, 65003]);
    // a withdrawal of a prefix this session did not install changes nothing
    assert_eq!(session.apply_update(&mut rib, &policy, &vec![prefix(10, 4, 0, 0, 16)], &vec![], 1_000), 0);
    assert_eq!(rib.version, 1);
    assert_eq!(session.apply_update(&mut rib, &policy, &vec![prefix(10, 3, 0, 0, 16)], &vec![], 1_000), 0);
    assert!(rib.get_route(&prefix(10, 3, 0, 0, 16)).is_none());
    assert_eq!(rib.version, 2);
}

#[test]
fn new_update_builds_path_attributes() {
    let mut r = route(prefix(10, 0, 0, 0, 24), IpAddress::v4(192, 168, 1, 1), vec![65001, 65002], BGPOrigin::IGP, 150);
    r.med = 7;
    let plain = route(prefix(10, 1, 0, 0, 24), IpAddress::v4(192, 168, 1, 2), vec![65003], BGPOrigin::EGP, 100);
    match BGPMessage::new_update(vec![r, plain]) {
        BGPMessage::Update(u) => {
            assert_eq!(u.network_layer_reachability_info, vec![prefix(10, 0, 0, 0, 24), prefix(10, 1, 0, 0, 24)]);
            assert!(u.withdrawn_routes.is_empty());
            assert_eq!(u.path_attributes.len(), 5 + 3);
            assert_eq!(u.path_attributes[1].length, 8);
            assert!(matches!(u.path_attributes[3].value, AttributeValue::LocalPref(150)));
            assert!(matches!(u.path_attributes[4].value, AttributeValue::MultiExitDisc(7)));
            assert_eq!(u.path_attributes[4].flags, 0x80);
        }
        _ => panic!("expected an update"),
    }
}

#[test]
fn daemon_originates_and_lists_routes() {
    let mut d = BGPDaemon::new(65001, IpAddress::v4(10, 0, 0, 1), None);
    d.add_route(prefix(10, 8, 0, 0, 16), IpAddress::v4(10, 0, 0, 1), BGPOrigin::IGP).unwrap();
    let routes = d.get_routes();
    assert_eq!(routes.len(), 1);
    assert_eq!(routes[0].as_path, vec![65001]);
    assert_eq!(routes[0].local_pref, 100);
}

#[test]
fn update_installs_at_the_given_time_and_later_announcement_wins() {
    let policy = RoutingPolicy::new(65001, NodeTier::Backbone);
    let mut session = BGPSession::new(65001, 65002, IpAddress::v4(192, 0, 2, 1));
    let mut rib = RouteTable::new();
    let mut first = wire_route(prefix(10, 3, 0, 0, 16), vec![65003]);
    first.local_pref = 120;
    let second = wire_route(prefix(10, 3, 0, 0, 16), vec![65004]);
    let looped = wire_route(prefix(10, 9, 0, 0, 16), vec![65001]);
    assert_eq!(session.apply_update(&mut rib, &policy, &vec![], &vec![first, looped, second], 42), 2);
    let all = rib.get_all_routes();
    assert_eq!(all.len(), 1);
    assert_eq!(all[0].as_path, vec![65002, 65004]);
    assert_eq!(all[0].timestamp, 42);
    assert_eq!(session.installed, vec![prefix(10, 3, 0, 0, 16)]);
}
