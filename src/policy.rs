//! Route policy: which routes a node accepts from and advertises to a peer,
//! and the best-path score.
use vstd::prelude::*;
use crate::addr::{IpAddress, Prefix, v4_value};
use crate::rib::{BGPOrigin, RouteEntry, RouteModel};
use crate::tier::{NodeTier, RoutePolicy, classify, spec_classify, spec_policy};

verus! {

/// Policy of one node: its ASN, its tier and the tier's route policy.
#[derive(Debug, Clone, Copy)]
pub struct RoutingPolicy {
    pub local_asn: u32,
    pub node_tier: NodeTier,
    pub route_policy: RoutePolicy,
    pub default_local_pref: u32,
    pub default_med: u32,
}

/// 0.0.0.0/0 or the overlay default 10.0.0.0/8.
pub open spec fn is_default_network(p: Prefix) -> bool {
    p == (Prefix { addr: IpAddress::V4(0), len: 0 }) || p == (Prefix { addr: IpAddress::V4(v4_value(10, 0, 0, 0)), len: 8 })
}

/// Whether a route is acceptable from `peer_asn` under `policy` at `local_asn`.
pub open spec fn spec_accept(policy: RoutePolicy, local_asn: u32, m: RouteModel, peer_asn: u32) -> bool {
    match policy {
        RoutePolicy::FullTable => !m.as_path.contains(local_asn),
        RoutePolicy::RegionalFilter => {
            &&& !m.as_path.contains(local_asn)
            &&& match spec_classify(peer_asn) {
                NodeTier::Backbone => true,
                NodeTier::Regional => m.as_path.len() <= 3,
                NodeTier::Edge => m.network.len >= 24,
            }
        },
        RoutePolicy::DefaultOnly => is_default_network(m.network) || m.as_path == seq![peer_asn],
    }
}

/// Whether a route may be advertised to `peer_asn` under `policy` at `local_asn`.
pub open spec fn spec_advertise(policy: RoutePolicy, local_asn: u32, m: RouteModel, peer_asn: u32) -> bool {
    match policy {
        RoutePolicy::FullTable => !m.as_path.contains(peer_asn),
        RoutePolicy::RegionalFilter => match spec_classify(peer_asn) {
            NodeTier::Backbone => m.network.len <= 16,
            NodeTier::Regional => !m.as_path.contains(peer_asn),
            NodeTier::Edge => is_default_network(m.network) || (m.network.len >= 24 && m.local_pref >= 100),
        },
        RoutePolicy::DefaultOnly => m.as_path.len() > 0 && m.as_path[0] == local_asn,
    }
}

pub open spec fn origin_bonus(o: BGPOrigin) -> int {
    match o {
        BGPOrigin::IGP => 10,
        BGPOrigin::EGP => 5,
        BGPOrigin::Incomplete => 0,
    }
}

/// Best-path score: local_pref + 100 / max(1, |as_path|) + origin bonus.
pub open spec fn spec_score(m: RouteModel) -> int {
    m.local_pref as int + 100int / (if m.as_path.len() == 0 { 1 } else { m.as_path.len() as int }) + origin_bonus(m.origin)
}

/// Whether `v` holds `x`.
pub fn vec_contains(v: &Vec<u32>, x: u32) -> (r: bool)
    ensures
        r == v@.contains(x),
{
    let mut i: usize = 0;
    while i < v.len()
        invariant
            i <= v@.len(),
            forall|j: int| 0 <= j < i ==> v@[j] != x,
        decreases v.len() - i,
    {
        if v[i] == x {
            return true;
        }
        i += 1;
    }
    false
}

/// Whether `p` is a default network.
pub fn is_default_route(p: &Prefix) -> (r: bool)
    ensures
        r == is_default_network(*p),
{
    let all = Prefix { addr: IpAddress::V4(0), len: 0 };
    let overlay = Prefix { addr: IpAddress::v4(10, 0, 0, 0), len: 8 };
    p.same(&all) || p.same(&overlay)
}

impl RoutingPolicy {
    pub fn new(local_asn: u32, node_tier: NodeTier) -> (r: RoutingPolicy)
        ensures
            r.local_asn == local_asn,
            r.node_tier == node_tier,
            r.route_policy == spec_policy(node_tier),
            r.default_local_pref == 100,
            r.default_med == 0,
    {
        RoutingPolicy {
            local_asn,
            node_tier,
            route_policy: node_tier.route_advertisement_policy(),
            default_local_pref: 100,
            default_med: 0,
        }
    }

    /// Accept filter for a route received from `peer_asn`.
    pub fn should_accept_route(&self, route: &RouteEntry, peer_asn: u32) -> (r: bool)
        ensures
            r == spec_accept(self.route_policy, self.local_asn, route@, peer_asn),
    {
        match self.route_policy {
            RoutePolicy::FullTable => !vec_contains(&route.as_path, self.local_asn),
            RoutePolicy::RegionalFilter => {
                if vec_contains(&route.as_path, self.local_asn) {
                    false
                } else {
                    match classify(peer_asn) {
                        NodeTier::Backbone => true,
                        NodeTier::Regional => route.as_path.len() <= 3,
                        NodeTier::Edge => route.network.len >= 24,
                    }
                }
            },
            RoutePolicy::DefaultOnly => {
                let direct = route.as_path.len() == 1 && route.as_path[0] == peer_asn;
                proof {
                    if route.as_path@.len() == 1 && route.as_path@[0] == peer_asn {
                        assert(route.as_path@ =~= seq![peer_asn]);
                    }
                }
                is_default_route(&route.network) || direct
            },
        }
    }

    /// Advertise filter for sending a route to `peer_asn`.
    pub fn should_advertise_route(&self, route: &RouteEntry, peer_asn: u32) -> (r: bool)
        ensures
            r == spec_advertise(self.route_policy, self.local_asn, route@, peer_asn),
    {
        match self.route_policy {
            RoutePolicy::FullTable => !vec_contains(&route.as_path, peer_asn),
            RoutePolicy::RegionalFilter => match classify(peer_asn) {
                NodeTier::Backbone => route.network.len <= 16,
                NodeTier::Regional => !vec_contains(&route.as_path, peer_asn),
                NodeTier::Edge => is_default_route(&route.network) || (route.network.len >= 24
                    && route.local_pref >= 100),
            },
            RoutePolicy::DefaultOnly => route.as_path.len() > 0 && route.as_path[0] == self.local_asn,
        }
    }

    /// Best-path score of a route; higher is better.
    pub fn evaluate_route(&self, route: &RouteEntry) -> (r: u64)
        ensures
            r as int == spec_score(route@),
    {
        let n = route.as_path.len();
        let div: u64 = if n == 0 { 100 } else { 100 / (n as u64) };
        let bonus: u64 = match route.origin {
            BGPOrigin::IGP => 10,
            BGPOrigin::EGP => 5,
            BGPOrigin::Incomplete => 0,
        };
        proof {
            if n > 0 {
                assert(100int / (n as int) <= 100) by (nonlinear_arith)
                    requires n > 0;
            }
        }
        route.local_pref as u64 + div + bonus
    }

    /// The first route with the highest score; `None` for an empty slice.
    pub fn select_best_route(&self, routes: &[RouteEntry]) -> (r: Option<RouteEntry>)
        ensures
            r is None <==> routes@.len() == 0,
            r matches Some(e) ==> exists|i: int| 0 <= i < routes@.len() && e@ == routes@[i]@
                && (forall|j: int| 0 <= j < routes@.len() ==> spec_score(#[trigger] routes@[j]@) <= spec_score(routes@[i]@))
                && (forall|j: int| 0 <= j < i ==> spec_score(#[trigger] routes@[j]@) < spec_score(routes@[i]@)),
    {
        if routes.len() == 0 {
            return None;
        }
        let mut best: usize = 0;
        let mut best_score = self.evaluate_route(&routes[0]);
        let mut k: usize = 1;
        while k < routes.len()
            invariant
                1 <= k <= routes@.len(),
                best < k,
                best_score as int == spec_score(routes@[best as int]@),
                forall|j: int| 0 <= j < k ==> spec_score(#[trigger] routes@[j]@) <= spec_score(routes@[best as int]@),
                forall|j: int| 0 <= j < best ==> spec_score(#[trigger] routes@[j]@) < spec_score(routes@[best as int]@),
            decreases routes.len() - k,
        {
            let score = self.evaluate_route(&routes[k]);
            if score > best_score {
                best = k;
                best_score = score;
            }
            k += 1;
        }
        Some(routes[best].copy())
    }
}

} // verus!
