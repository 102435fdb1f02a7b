//! Route information base: one best route per prefix, a version counter
//! that moves on every write, and longest-prefix-match lookup.
use vstd::prelude::*;
use crate::addr::{IpAddress, Prefix, addr_less, v4_value};
use crate::clock::now_millis;

verus! {

/// Origin attribute of a route; IGP is preferred over EGP over Incomplete.
#[derive(Debug, Clone, Copy, PartialEq, Eq, Structural)]
pub enum BGPOrigin {
    IGP,
    EGP,
    Incomplete,
}

/// A community tag attached to a route.
#[derive(Debug, Clone, Copy, PartialEq, Eq, Structural)]
pub struct Community {
    pub asn: u16,
    pub value: u16,
}

/// A route: the network it reaches and its path attributes.
#[derive(Debug)]
pub struct RouteEntry {
    pub network: Prefix,
    pub next_hop: IpAddress,
    /// ASNs the announcement passed through, nearest first.
    pub as_path: Vec<u32>,
    pub origin: BGPOrigin,
    pub local_pref: u32,
    pub med: u32,
    pub communities: Vec<Community>,
    /// Installation time, in milliseconds since the Unix epoch.
    pub timestamp: i64,
}

/// The mathematical value of a route.
pub struct RouteModel {
    pub network: Prefix,
    pub next_hop: IpAddress,
    pub as_path: Seq<u32>,
    pub origin: BGPOrigin,
    pub local_pref: u32,
    pub med: u32,
    pub communities: Seq<Community>,
    pub timestamp: i64,
}

impl View for RouteEntry {
    type V = RouteModel;

    open spec fn view(&self) -> RouteModel {
        RouteModel {
            network: self.network,
            next_hop: self.next_hop,
            as_path: self.as_path@,
            origin: self.origin,
            local_pref: self.local_pref,
            med: self.med,
            communities: self.communities@,
            timestamp: self.timestamp,
        }
    }
}

pub open spec fn origin_rank(o: BGPOrigin) -> int {
    match o {
        BGPOrigin::IGP => 0,
        BGPOrigin::EGP => 1,
        BGPOrigin::Incomplete => 2,
    }
}

/// `a` is strictly preferred to `b` as a forwarding choice: longer prefix,
/// then higher local_pref, shorter as_path, better origin, lower med, and
/// lower next hop.
pub open spec fn route_better(a: RouteModel, b: RouteModel) -> bool {
    if a.network.len != b.network.len {
        a.network.len > b.network.len
    } else if a.local_pref != b.local_pref {
        a.local_pref > b.local_pref
    } else if a.as_path.len() != b.as_path.len() {
        a.as_path.len() < b.as_path.len()
    } else if origin_rank(a.origin) != origin_rank(b.origin) {
        origin_rank(a.origin) < origin_rank(b.origin)
    } else if a.med != b.med {
        a.med < b.med
    } else {
        addr_less(a.next_hop, b.next_hop)
    }
}

/// The version after a write: one more, until it reaches `u64::MAX`.
pub open spec fn bumped(v: u64) -> u64 {
    if v < u64::MAX { (v + 1) as u64 } else { v }
}

pub fn bump(v: u64) -> (r: u64)
    ensures
        r == bumped(v),
{
    if v < u64::MAX { v + 1 } else { v }
}

/// The set of routes a table holds after adding `e`.
pub open spec fn set_add(s: Set<RouteModel>, e: RouteModel) -> Set<RouteModel> {
    s.filter(|m: RouteModel| m.network != e.network).insert(e)
}

/// The set of routes a table holds after removing `network`.
pub open spec fn set_remove(s: Set<RouteModel>, network: Prefix) -> Set<RouteModel> {
    s.filter(|m: RouteModel| m.network != network)
}

/// `added` describes exactly `set_add` on the set of routes held.
pub proof fn lemma_added_set(before: Seq<RouteModel>, after: Seq<RouteModel>, e: RouteModel)
    requires
        added(before, after, e),
    ensures
        after.to_set() == set_add(before.to_set(), e),
{
    assert(after.to_set() =~= set_add(before.to_set(), e));
}

/// `removed` describes exactly `set_remove` on the set of routes held.
pub proof fn lemma_removed_set(before: Seq<RouteModel>, after: Seq<RouteModel>, network: Prefix)
    requires
        removed(before, after, network),
    ensures
        after.to_set() == set_remove(before.to_set(), network),
{
    assert(after.to_set() =~= set_remove(before.to_set(), network));
}

/// `after` is `before` with `e` inserted, replacing whatever was stored
/// for the same network.
pub open spec fn added(before: Seq<RouteModel>, after: Seq<RouteModel>, e: RouteModel) -> bool {
    &&& after.contains(e)
    &&& forall|m: RouteModel| #[trigger] after.contains(m) <==>
        (m == e || (before.contains(m) && m.network != e.network))
}

/// `after` is `before` without the entries for `network`.
pub open spec fn removed(before: Seq<RouteModel>, after: Seq<RouteModel>, network: Prefix) -> bool {
    forall|m: RouteModel| #[trigger] after.contains(m) <==> (before.contains(m) && m.network != network)
}

/// Of two routes added one after the other for the same network, only the
/// later one is kept.
pub proof fn lemma_latest_route_retained(
    before: Seq<RouteModel>,
    middle: Seq<RouteModel>,
    after: Seq<RouteModel>,
    first: RouteModel,
    second: RouteModel,
)
    requires
        added(before, middle, first),
        added(middle, after, second),
        first.network == second.network,
    ensures
        forall|m: RouteModel| #[trigger] after.contains(m) && m.network == second.network ==> m == second,
        first != second ==> !after.contains(first),
{
}

/// Copies a sequence of plain values.
pub fn copy_vec<T: Copy>(v: &Vec<T>) -> (r: Vec<T>)
    ensures
        r@ == v@,
{
    let mut r: Vec<T> = Vec::new();
    let mut i: usize = 0;
    while i < v.len()
        invariant
            i <= v.len(),
            r@ == v@.subrange(0, i as int),
        decreases v.len() - i,
    {
        r.push(v[i]);
        i += 1;
    }
    assert(r@ =~= v@);
    r
}

impl RouteEntry {
    /// A copy with the same value.
    pub fn copy(&self) -> (r: RouteEntry)
        ensures
            r@ == self@,
    {
        RouteEntry {
            network: self.network,
            next_hop: self.next_hop,
            as_path: copy_vec(&self.as_path),
            origin: self.origin,
            local_pref: self.local_pref,
            med: self.med,
            communities: copy_vec(&self.communities),
            timestamp: self.timestamp,
        }
    }

    /// Whether this route is strictly preferred to `other` (see `route_better`).
    pub fn better_than(&self, other: &RouteEntry) -> (r: bool)
        ensures
            r == route_better(self@, other@),
    {
        let a_rank: u8 = match self.origin {
            BGPOrigin::IGP => 0,
            BGPOrigin::EGP => 1,
            BGPOrigin::Incomplete => 2,
        };
        let b_rank: u8 = match other.origin {
            BGPOrigin::IGP => 0,
            BGPOrigin::EGP => 1,
            BGPOrigin::Incomplete => 2,
        };
        if self.network.len != other.network.len {
            self.network.len > other.network.len
        } else if self.local_pref != other.local_pref {
            self.local_pref > other.local_pref
        } else if self.as_path.len() != other.as_path.len() {
            self.as_path.len() < other.as_path.len()
        } else if a_rank != b_rank {
            a_rank < b_rank
        } else if self.med != other.med {
            self.med < other.med
        } else {
            self.next_hop.less_than(&other.next_hop)
        }
    }
}

/// The route table.
#[derive(Debug)]
pub struct RouteTable {
    pub routes: Vec<RouteEntry>,
    pub version: u64,
}

/// Values of a sequence of routes.
pub open spec fn models(s: Seq<RouteEntry>) -> Seq<RouteModel> {
    s.map_values(|e: RouteEntry| e@)
}

impl RouteTable {
    /// The routes held, in table order.
    pub open spec fn entries(&self) -> Seq<RouteModel> {
        models(self.routes@)
    }

    /// At most one entry per prefix.
    pub open spec fn wf(&self) -> bool {
        forall|i: int, j: int|
            0 <= i < self.routes@.len() && 0 <= j < self.routes@.len() && i != j
                ==> #[trigger] self.routes@[i].network != #[trigger] self.routes@[j].network
    }

    /// Whether some stored entry is keyed by `p`.
    pub open spec fn has_prefix(&self, p: Prefix) -> bool {
        exists|i: int| 0 <= i < self.routes@.len() && #[trigger] self.routes@[i].network == p
    }

    pub fn new() -> (r: RouteTable)
        ensures
            r.wf(),
            r.entries().len() == 0,
            r.version == 0,
    {
        RouteTable { routes: Vec::new(), version: 0 }
    }

    fn find_index(&self, network: &Prefix) -> (r: Option<usize>)
        ensures
            r matches Some(i) ==> i < self.routes@.len() && self.routes@[i as int].network == *network,
            r is None ==> !self.has_prefix(*network),
    {
        let mut i: usize = 0;
        while i < self.routes.len()
            invariant
                i <= self.routes@.len(),
                forall|j: int| 0 <= j < i ==> #[trigger] self.routes@[j].network != *network,
            decreases self.routes.len() - i,
        {
            if self.routes[i].network.same(network) {
                return Some(i);
            }
            i += 1;
        }
        None
    }

    /// Inserts `route`, replacing any entry for the same prefix, and moves the
    /// version on (it stays put only once it has reached `u64::MAX`).
    pub fn add_route(&mut self, route: RouteEntry)
        requires
            old(self).wf(),
        ensures
            final(self).wf(),
            final(self).version == bumped(old(self).version),
            old(self).has_prefix(route.network) ==> final(self).routes@.len() == old(self).routes@.len(),
            !old(self).has_prefix(route.network) ==> final(self).routes@.len() == old(self).routes@.len() + 1,
            added(old(self).entries(), final(self).entries(), route@),
    {
        let ghost old_routes = self.routes@;
        let ghost rm = route@;
        match self.find_index(&route.network) {
            Some(i) => {
                self.routes.set(i, route);
                proof {
                    assert forall|m: RouteModel| #[trigger] models(self.routes@).contains(m) <==>
                        (m == rm || (models(old_routes).contains(m) && m.network != rm.network)) by {
                        if models(self.routes@).contains(m) {
                            let k = choose|k: int| 0 <= k < models(self.routes@).len() && models(self.routes@)[k] == m;
                            if k != i {
                                assert(models(old_routes)[k] == m);
                                assert(old_routes[k].network != old_routes[i as int].network);
                            }
                        }
                        if m == rm {
                            assert(models(self.routes@)[i as int] == m);
                        } else if models(old_routes).contains(m) && m.network != rm.network {
                            let k = choose|k: int| 0 <= k < models(old_routes).len() && models(old_routes)[k] == m;
                            assert(models(self.routes@)[k] == m);
                        }
                    }
                    assert(models(self.routes@)[i as int] == rm);
                }
            },
            None => {
                self.routes.push(route);
                proof {
                    let n = old_routes.len() as int;
                    assert forall|m: RouteModel| #[trigger] models(self.routes@).contains(m) <==>
                        (m == rm || (models(old_routes).contains(m) && m.network != rm.network)) by {
                        if models(self.routes@).contains(m) {
                            let k = choose|k: int| 0 <= k < models(self.routes@).len() && models(self.routes@)[k] == m;
                            if k != n {
                                assert(models(old_routes)[k] == m);
                                assert(old_routes[k].network != rm.network);
                            }
                        }
                        if m == rm {
                            assert(models(self.routes@)[n] == m);
                        } else if models(old_routes).contains(m) && m.network != rm.network {
                            let k = choose|k: int| 0 <= k < models(old_routes).len() && models(old_routes)[k] == m;
                            assert(models(self.routes@)[k] == m);
                        }
                    }
                    assert(models(self.routes@)[n] == rm);
                }
            },
        }
        self.version = bump(self.version);
    }

    /// Removes the entry for `network`, returning it; the version moves on only
    /// when something was removed.
    pub fn remove_route(&mut self, network: &Prefix) -> (r: Option<RouteEntry>)
        requires
            old(self).wf(),
        ensures
            final(self).wf(),
            r is Some <==> old(self).has_prefix(*network),
            r matches Some(e) ==> e.network == *network && old(self).entries().contains(e@),
            r is Some ==> final(self).version == bumped(old(self).version),
            r is None ==> final(self).version == old(self).version,
            removed(old(self).entries(), final(self).entries(), *network),
    {
        let ghost old_routes = self.routes@;
        match self.find_index(network) {
            Some(i) => {
                let e = self.routes.remove(i);
                proof {
                    assert(models(old_routes)[i as int] == e@);
                    assert forall|m: RouteModel| #[trigger] models(self.routes@).contains(m) <==>
                        (models(old_routes).contains(m) && m.network != *network) by {
                        if models(self.routes@).contains(m) {
                            let k = choose|k: int| 0 <= k < models(self.routes@).len() && models(self.routes@)[k] == m;
                            let ko = if k < i { k } else { k + 1 };
                            assert(models(old_routes)[ko] == m);
                            assert(old_routes[ko].network != old_routes[i as int].network);
                        }
                        if models(old_routes).contains(m) && m.network != *network {
                            let k = choose|k: int| 0 <= k < models(old_routes).len() && models(old_routes)[k] == m;
                            assert(k != i);
                            let kn = if k < i { k } else { k - 1 };
                            assert(models(self.routes@)[kn] == m);
                        }
                    }
                    assert forall|a: int, b: int|
                        0 <= a < self.routes@.len() && 0 <= b < self.routes@.len() && a != b
                            implies #[trigger] self.routes@[a].network != #[trigger] self.routes@[b].network by {
                        let ao = if a < i { a } else { a + 1 };
                        let bo = if b < i { b } else { b + 1 };
                        assert(self.routes@[a] == old_routes[ao]);
                        assert(self.routes@[b] == old_routes[bo]);
                    }
                }
                self.version = bump(self.version);
                Some(e)
            },
            None => {
                proof {
                    assert forall|m: RouteModel| #[trigger] models(self.routes@).contains(m) implies
                        m.network != *network by {
                        let k = choose|k: int| 0 <= k < models(self.routes@).len() && models(self.routes@)[k] == m;
                        assert(self.routes@[k].network == m.network);
                    }
                }
                None
            },
        }
    }

    /// The entry stored for `network`, if any.
    pub fn get_route(&self, network: &Prefix) -> (r: Option<&RouteEntry>)
        requires
            self.wf(),
        ensures
            r is Some <==> self.has_prefix(*network),
            r matches Some(e) ==> e.network == *network && self.entries().contains(e@),
    {
        match self.find_index(network) {
            Some(i) => {
                assert(models(self.routes@)[i as int] == self.routes@[i as int]@);
                Some(&self.routes[i])
            },
            None => None,
        }
    }

    /// Longest-prefix match: among the stored routes whose network contains
    /// `destination`, the one with the longest prefix; ties go by
    /// `route_better`, and then to the earliest in table order.
    pub fn find_best_route(&self, destination: &IpAddress) -> (r: Option<&RouteEntry>)
        ensures
            r is None <==> forall|j: int| 0 <= j < self.routes@.len()
                ==> !(#[trigger] self.routes@[j]).network.spec_contains(*destination),
            r matches Some(e) ==> exists|i: int| 0 <= i < self.routes@.len()
                && self.routes@[i] == *e && self.is_best_at(*destination, i),
    {
        let mut best: Option<usize> = None;
        let mut k: usize = 0;
        while k < self.routes.len()
            invariant
                k <= self.routes@.len(),
                best is None ==> forall|j: int| 0 <= j < k
                    ==> !(#[trigger] self.routes@[j]).network.spec_contains(*destination),
                best matches Some(b) ==> b < k && self.best_among(*destination, b as int, k as int),
            decreases self.routes.len() - k,
        {
            let e = &self.routes[k];
            if e.network.contains(destination) {
                match best {
                    None => {
                        best = Some(k);
                    },
                    Some(b) => {
                        if e.better_than(&self.routes[b]) {
                            proof {
                                assert forall|j: int| 0 <= j < k + 1 && #[trigger] self.routes@[j].network.spec_contains(*destination)
                                    implies !route_better(self.routes@[j]@, self.routes@[k as int]@) && (j < k ==> route_better(self.routes@[k as int]@, self.routes@[j]@)) by {
                                    lemma_route_better_order(self.routes@[j]@, self.routes@[k as int]@, self.routes@[b as int]@);
                                    lemma_route_better_order(self.routes@[k as int]@, self.routes@[b as int]@, self.routes@[j]@);
                                    lemma_route_better_order(self.routes@[k as int]@, self.routes@[j]@, self.routes@[b as int]@);
                                }
                            }
                            best = Some(k);
                        }
                    },
                }
            }
            k += 1;
        }
        match best {
            None => None,
            Some(b) => {
                assert(self.routes@[b as int] == self.routes@[b as int] && self.is_best_at(*destination, b as int));
                Some(&self.routes[b])
            },
        }
    }

    /// Entry `b` contains `ip`, no entry before `k` that contains `ip` is
    /// better, and every one before `b` that contains `ip` is worse.
    pub open spec fn best_among(&self, ip: IpAddress, b: int, k: int) -> bool {
        &&& 0 <= b < k <= self.routes@.len()
        &&& self.routes@[b].network.spec_contains(ip)
        &&& forall|j: int| 0 <= j < k && #[trigger] self.routes@[j].network.spec_contains(ip)
            ==> !route_better(self.routes@[j]@, self.routes@[b]@) && (j < b ==> route_better(self.routes@[b]@, self.routes@[j]@))
    }

    /// Entry `i` is the one that longest-prefix match selects for `ip`.
    pub open spec fn is_best_at(&self, ip: IpAddress, i: int) -> bool {
        self.best_among(ip, i, self.routes@.len() as int)
    }

    /// A copy of every stored route, in table order.
    pub fn get_all_routes(&self) -> (r: Vec<RouteEntry>)
        ensures
            models(r@) == self.entries(),
    {
        let mut r: Vec<RouteEntry> = Vec::new();
        let mut i: usize = 0;
        while i < self.routes.len()
            invariant
                i <= self.routes@.len(),
                r@.len() == i,
                forall|j: int| 0 <= j < i ==> (#[trigger] r@[j])@ == self.routes@[j]@,
            decreases self.routes.len() - i,
        {
            r.push(self.routes[i].copy());
            i += 1;
        }
        assert(models(r@) =~= models(self.routes@));
        r
    }

    /// Copies of the stored routes keyed by `network` (at most one).
    pub fn get_routes_for_prefix(&self, network: &Prefix) -> (r: Vec<RouteEntry>)
        requires
            self.wf(),
        ensures
            r@.len() <= 1,
            r@.len() == 1 <==> self.has_prefix(*network),
            r@.len() == 1 ==> r@[0].network == *network && self.entries().contains(r@[0]@),
    {
        let mut r: Vec<RouteEntry> = Vec::new();
        match self.get_route(network) {
            Some(e) => {
                r.push(e.copy());
            },
            None => {},
        }
        r
    }
}

impl RouteTable {
    /// Originates `network` from this node: next hop the overlay gateway
    /// 10.0.0.1, as_path `[local_asn]`, origin IGP, local_pref 200, med 0.
    pub fn announce_vx0_network(&mut self, network: Prefix, local_asn: u32)
        requires
            old(self).wf(),
        ensures
            final(self).wf(),
            final(self).version == bumped(old(self).version),
            exists|m: RouteModel| #[trigger] final(self).entries().contains(m) && m.network == network
                && m.next_hop == IpAddress::V4(v4_value(10, 0, 0, 1)) && m.as_path == seq![local_asn]
                && m.origin == BGPOrigin::IGP && m.local_pref == 200 && m.med == 0
                && m.communities.len() == 0,
            forall|m: RouteModel| #[trigger] final(self).entries().contains(m) && m.network != network
                <==> old(self).entries().contains(m) && m.network != network,
    {
        let mut as_path: Vec<u32> = Vec::new();
        as_path.push(local_asn);
        let route = RouteEntry {
            network,
            next_hop: IpAddress::v4(10, 0, 0, 1),
            as_path,
            origin: BGPOrigin::IGP,
            local_pref: 200,
            med: 0,
            communities: Vec::new(),
            timestamp: now_millis(),
        };
        proof {
            assert(route@.as_path =~= seq![local_asn]);
            assert(route@.communities.len() == 0);
        }
        let ghost rm = route@;
        self.add_route(route);
        assert(self.entries().contains(rm));
    }
}

/// Longest-prefix match: the entry selected for `ip` contains `ip`, and no
/// stored network that contains `ip` has a strictly longer prefix.
pub proof fn lemma_best_route_is_longest(t: RouteTable, ip: IpAddress, i: int)
    requires
        t.is_best_at(ip, i),
    ensures
        t.routes@[i].network.spec_contains(ip),
        forall|j: int| 0 <= j < t.routes@.len() && #[trigger] t.routes@[j].network.spec_contains(ip)
            ==> t.routes@[j].network.len <= t.routes@[i].network.len,
{
}

/// `route_better` is a strict weak order: irreflexive, transitive, and
/// incomparability is transitive.
pub proof fn lemma_route_better_order(a: RouteModel, b: RouteModel, c: RouteModel)
    ensures
        !route_better(a, a),
        route_better(a, b) ==> !route_better(b, a),
        route_better(a, b) && route_better(b, c) ==> route_better(a, c),
        route_better(a, c) ==> route_better(a, b) || route_better(b, c),
{
}

} // verus!
