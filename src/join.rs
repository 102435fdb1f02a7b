//! Open joining: choosing an ASN in the node's tier, gathering entry points,
//! keeping those the tier may peer with and that answered, and deciding
//! whether the join succeeded. The probing itself is done by the caller.
use vstd::prelude::*;
use crate::config::BootstrapNode;
use crate::addr::IpAddress;
use crate::node::{NodeError, PeerConnection, HostedService, ServiceType, has_peer};
use crate::text::{owned, str_equal};
use crate::tier::{NodeTier, classify, in_tier_range, spec_asn_range, spec_can_peer, spec_classify, spec_max_peers};

verus! {

pub const VX0_DISCOVERY_PORT: u16 = 8080;
pub const VX0_BGP_PORT: u16 = 1179;
/// Most sessions opened while joining.
pub const INITIAL_CONNECTIONS: usize = 3;
/// Address text of a directory entry that has not been filled in.
pub const PLACEHOLDER_IP: &'static str = "YOUR_BACKBONE_IP";
/// Pre-shared key known to every node, for tunnels opened while joining.
pub const DEFAULT_PSK: &'static str = "vx0-network-default-psk-change-in-production";

#[derive(Debug)]
pub struct RecommendedSettings {
    pub max_peers: usize,
    pub update_interval_secs: u64,
    pub discovery_interval_secs: u64,
    pub tunnel_rekey_interval_secs: u64,
}

#[derive(Debug)]
pub struct NetworkInfo {
    pub total_nodes: u32,
    pub backbone_nodes: u32,
    pub regional_nodes: u32,
    pub edge_nodes: u32,
    pub network_version: String,
    pub recommended_settings: RecommendedSettings,
}

#[derive(Debug)]
pub struct JoinResponse {
    pub accepted: bool,
    pub assigned_asn: Option<u32>,
    pub bootstrap_peers: Vec<BootstrapNode>,
    pub network_info: NetworkInfo,
    pub rejection_reason: Option<String>,
}

/// What a service looks like in an announcement.
#[derive(Debug)]
pub struct ServiceSummary {
    pub name: String,
    pub domain: String,
    pub service_type: ServiceType,
    pub port: u16,
}

/// Whether `asn` appears in `used`.
pub open spec fn asn_used(used: Seq<u32>, asn: int) -> bool {
    exists|i: int| 0 <= i < used.len() && used[i] == asn
}

/// ASN selection: a configured ASN inside the tier's range is kept (`None`);
/// otherwise the smallest in-range ASN not in use is assigned; when every
/// one is in use the join fails with a configuration error.
pub fn auto_assign_asn(tier: NodeTier, configured: u32, used: &Vec<u32>) -> (r: Result<Option<u32>, NodeError>)
    ensures
        in_tier_range(tier, configured) ==> r matches Ok(None),
        !in_tier_range(tier, configured) ==> match r {
            Ok(Some(a)) => in_tier_range(tier, a) && !used@.contains(a)
                && forall|b: u32| spec_asn_range(tier).0 <= b < a ==> #[trigger] used@.contains(b),
            Ok(None) => false,
            Err(e) => e is Config && forall|b: u32| #[trigger] in_tier_range(tier, b) ==> used@.contains(b),
        },
{
    if tier.contains_asn(configured) {
        return Ok(None);
    }
    let (lo, hi) = tier.get_asn_range();
    let mut candidate: u32 = lo;
    while candidate <= hi
        invariant
            (lo, hi) == spec_asn_range(tier),
            !in_tier_range(tier, configured),
            lo <= candidate,
            candidate <= hi + 1,
            hi < u32::MAX,
            forall|b: u32| lo <= b < candidate ==> #[trigger] used@.contains(b),
        decreases hi + 1 - candidate,
    {
        if !crate::policy::vec_contains(used, candidate) {
            return Ok(Some(candidate));
        }
        candidate += 1;
    }
    Err(NodeError::Config(String::from_str("no ASNs available in tier range")))
}

impl BootstrapNode {
    /// A copy with the same text and ASN.
    pub fn copy(&self) -> (r: BootstrapNode)
        ensures
            r.hostname@ == self.hostname@,
            r.ip@ == self.ip@,
            r.asn == self.asn,
    {
        BootstrapNode { hostname: self.hostname.clone(), ip: self.ip.clone(), asn: self.asn }
    }
}

fn entry(hostname: &str, ip: &str, asn: u32) -> (r: BootstrapNode)
    ensures
        r.hostname@ == hostname@,
        r.ip@ == ip@,
        r.asn == asn,
{
    BootstrapNode { hostname: owned(hostname), ip: owned(ip), asn }
}

/// The compiled-in directory of well-known entry points.
pub fn public_bootstrap_nodes() -> (r: Vec<BootstrapNode>)
    ensures
        r@.len() == 5,
        r@[0].asn == 65001 && r@[1].asn == 65002 && r@[2].asn == 65101 && r@[3].asn == 65102 && r@[4].asn == 65103,
        r@[0].ip@ == PLACEHOLDER_IP@,
{
    let mut v: Vec<BootstrapNode> = Vec::new();
    v.push(entry("backbone1.vx0.network", PLACEHOLDER_IP, 65001));
    v.push(entry("backbone2.vx0.network", "YOUR_BACKBONE2_IP", 65002));
    v.push(entry("regional1.vx0.network", "YOUR_REGIONAL_IP", 65101));
    v.push(entry("regional2.vx0.network", "YOUR_REGIONAL2_IP", 65102));
    v.push(entry("regional3.vx0.network", "YOUR_REGIONAL3_IP", 65103));
    v
}

fn append_all(out: &mut Vec<BootstrapNode>, more: &Vec<BootstrapNode>)
    ensures
        final(out)@.len() == old(out)@.len() + more@.len(),
        forall|i: int| 0 <= i < old(out)@.len() ==> #[trigger] final(out)@[i] == old(out)@[i],
        forall|i: int| 0 <= i < more@.len() ==> #[trigger] final(out)@[old(out)@.len() + i].asn == more@[i].asn
            && final(out)@[old(out)@.len() + i].ip@ == more@[i].ip@,
{
    let mut i: usize = 0;
    while i < more.len()
        invariant
            i <= more@.len(),
            out@.len() == old(out)@.len() + i,
            forall|j: int| 0 <= j < old(out)@.len() ==> #[trigger] out@[j] == old(out)@[j],
            forall|j: int| 0 <= j < i ==> #[trigger] out@[old(out)@.len() + j].asn == more@[j].asn
                && out@[old(out)@.len() + j].ip@ == more@[j].ip@,
        decreases more.len() - i,
    {
        out.push(more[i].copy());
        i += 1;
    }
}

/// ASNs of a list of entry points.
pub open spec fn asns(s: Seq<BootstrapNode>) -> Seq<u32> {
    s.map_values(|b: BootstrapNode| b.asn)
}

/// ASNs of the directory entries whose address is filled in, in order.
pub open spec fn listed_asns(dir: Seq<BootstrapNode>) -> Seq<u32>
    decreases dir.len(),
{
    if dir.len() == 0 {
        Seq::empty()
    } else if dir.last().ip@ == PLACEHOLDER_IP@ {
        listed_asns(dir.drop_last())
    } else {
        listed_asns(dir.drop_last()).push(dir.last().asn)
    }
}

/// Entry points from the three sources: the directory (without entries whose
/// address is the placeholder), the local-broadcast probe, and name-based
/// discovery, in that order. No entry point at all is a network error.
pub fn discover_entry_points(directory: &Vec<BootstrapNode>, local: &Vec<BootstrapNode>, by_name: &Vec<BootstrapNode>) -> (r: Result<Vec<BootstrapNode>, NodeError>)
    ensures
        r matches Ok(v) ==> asns(v@) == listed_asns(directory@) + asns(local@) + asns(by_name@),
        r matches Err(e) ==> e is Network,
        r is Err <==> listed_asns(directory@).len() + local@.len() + by_name@.len() == 0,
{
    let mut out: Vec<BootstrapNode> = Vec::new();
    let mut i: usize = 0;
    while i < directory.len()
        invariant
            i <= directory@.len(),
            asns(out@) == listed_asns(directory@.subrange(0, i as int)),
        decreases directory.len() - i,
    {
        assert(directory@.subrange(0, i + 1).drop_last() =~= directory@.subrange(0, i as int));
        if !str_equal(directory[i].ip.as_str(), PLACEHOLDER_IP) {
            let ghost pre = out@;
            out.push(directory[i].copy());
            assert(asns(out@) =~= asns(pre).push(directory@[i as int].asn));
        }
        i += 1;
    }
    assert(directory@.subrange(0, i as int) =~= directory@);
    let ghost o1 = out@;
    append_all(&mut out, local);
    assert forall|k: int| 0 <= k < out@.len() implies #[trigger] asns(out@)[k] == (asns(o1) + asns(local@))[k] by {
        if k >= o1.len() {
            assert(out@[o1.len() + (k - o1.len())].asn == local@[k - o1.len()].asn);
        }
    }
    assert(asns(out@) =~= asns(o1) + asns(local@));
    let ghost o2 = out@;
    append_all(&mut out, by_name);
    assert forall|k: int| 0 <= k < out@.len() implies #[trigger] asns(out@)[k] == (asns(o2) + asns(by_name@))[k] by {
        if k >= o2.len() {
            assert(out@[o2.len() + (k - o2.len())].asn == by_name@[k - o2.len()].asn);
        }
    }
    assert(asns(out@) =~= asns(o2) + asns(by_name@));
    if out.len() == 0 {
        return Err(NodeError::Network(String::from_str("no entry points discovered")));
    }
    Ok(out)
}

/// Value of an entry point: hostname, address text and ASN.
pub open spec fn entry_view(b: BootstrapNode) -> (Seq<char>, Seq<char>, u32) {
    (b.hostname@, b.ip@, b.asn)
}

pub open spec fn entry_views(s: Seq<BootstrapNode>) -> Seq<(Seq<char>, Seq<char>, u32)> {
    s.map_values(|b: BootstrapNode| entry_view(b))
}

/// The first `n` entry points that `tier` may peer with and that answered
/// (`reach[i]` for entry `i`), in order.
pub open spec fn suitable(tier: NodeTier, pts: Seq<BootstrapNode>, reach: Seq<bool>, n: int) -> Seq<(Seq<char>, Seq<char>, u32)>
    decreases n,
{
    if n <= 0 {
        Seq::empty()
    } else if spec_can_peer(tier, spec_classify(pts[n - 1].asn)) && reach[n - 1] {
        suitable(tier, pts, reach, n - 1).push(entry_view(pts[n - 1]))
    } else {
        suitable(tier, pts, reach, n - 1)
    }
}

/// Entry points this tier may peer with and that answered the probe
/// (`reachable[i]` for `entry_points[i]`), in order. None at all is a
/// network error.
pub fn find_suitable_peers(tier: NodeTier, entry_points: &Vec<BootstrapNode>, reachable: &Vec<bool>) -> (r: Result<Vec<BootstrapNode>, NodeError>)
    requires
        reachable@.len() == entry_points@.len(),
    ensures
        r matches Ok(v) ==> entry_views(v@) == suitable(tier, entry_points@, reachable@, entry_points@.len() as int),
        r matches Err(e) ==> e is Network,
        r is Err <==> suitable(tier, entry_points@, reachable@, entry_points@.len() as int).len() == 0,
{
    let mut out: Vec<BootstrapNode> = Vec::new();
    let mut i: usize = 0;
    while i < entry_points.len()
        invariant
            i <= entry_points@.len(),
            reachable@.len() == entry_points@.len(),
            entry_views(out@) == suitable(tier, entry_points@, reachable@, i as int),
        decreases entry_points.len() - i,
    {
        let peer_tier = classify(entry_points[i].asn);
        if tier.can_peer_with(&peer_tier) && reachable[i] {
            let ghost pre = out@;
            let c = entry_points[i].copy();
            out.push(c);
            assert(entry_views(out@) =~= entry_views(pre).push(entry_view(entry_points@[i as int])));
        }
        i += 1;
    }
    if out.len() == 0 {
        return Err(NodeError::Network(String::from_str("no suitable peers")));
    }
    Ok(out)
}

/// How many sessions to open while joining with `available` peers: min(3, N).
pub fn connection_target(available: usize) -> (r: usize)
    ensures
        r == (if available < INITIAL_CONNECTIONS { available } else { INITIAL_CONNECTIONS }),
{
    if available < INITIAL_CONNECTIONS { available } else { INITIAL_CONNECTIONS }
}

/// Whether the initial-connection loop should try another peer: fewer than
/// the target are connected and untried peers remain.
pub fn try_next_connection(connected: usize, target: usize, tried: usize, available: usize) -> (r: bool)
    ensures
        r == (connected < target && tried < available),
{
    connected < target && tried < available
}

/// Whether joining succeeded: at least one session came up.
pub fn join_outcome(connected: usize) -> (r: Result<(), NodeError>)
    ensures
        r is Ok <==> connected > 0,
        r matches Err(e) ==> e is Network,
{
    if connected == 0 {
        Err(NodeError::Network(String::from_str("failed to establish any initial connections")))
    } else {
        Ok(())
    }
}

/// The response of an open network to a node that nobody answered: it is
/// accepted, with the peers it found and the settings of its tier.
pub fn open_join_response(tier: NodeTier, assigned_asn: Option<u32>, peers: &Vec<BootstrapNode>) -> (r: JoinResponse)
    ensures
        r.accepted,
        r.assigned_asn == assigned_asn,
        r.bootstrap_peers@.len() == peers@.len(),
        forall|i: int| 0 <= i < peers@.len() ==> (#[trigger] r.bootstrap_peers@[i]).asn == peers@[i].asn
            && r.bootstrap_peers@[i].ip@ == peers@[i].ip@,
        r.network_info.recommended_settings.max_peers == spec_max_peers(tier),
        r.rejection_reason is None,
{
    let mut bootstrap_peers: Vec<BootstrapNode> = Vec::new();
    append_all(&mut bootstrap_peers, peers);
    assert forall|i: int| 0 <= i < peers@.len() implies (#[trigger] bootstrap_peers@[i]).asn == peers@[i].asn
        && bootstrap_peers@[i].ip@ == peers@[i].ip@ by {
        assert(bootstrap_peers@[0 + i].asn == peers@[i].asn);
    }
    JoinResponse {
        accepted: true,
        assigned_asn,
        bootstrap_peers,
        network_info: NetworkInfo {
            total_nodes: 1,
            backbone_nodes: 0,
            regional_nodes: 0,
            edge_nodes: 1,
            network_version: owned("1.0.0"),
            recommended_settings: RecommendedSettings {
                max_peers: tier.max_peers(),
                update_interval_secs: 60,
                discovery_interval_secs: 300,
                tunnel_rekey_interval_secs: 3600,
            },
        },
        rejection_reason: None,
    }
}

/// Whether a bootstrap entry may be tried: its tier must be peerable.
pub fn bootstrap_allowed(tier: NodeTier, asn: u32) -> (r: Result<(), NodeError>)
    ensures
        r is Ok <==> spec_can_peer(tier, spec_classify(asn)),
        r matches Err(e) ==> e is Network,
{
    let peer_tier = classify(asn);
    if tier.can_peer_with(&peer_tier) {
        Ok(())
    } else {
        Err(NodeError::Network(String::from_str("tier mismatch")))
    }
}

/// Whether periodic discovery should look for more peers: fewer than half
/// the tier's maximum.
pub fn needs_more_peers(tier: NodeTier, current: usize) -> (r: bool)
    ensures
        r == (current < spec_max_peers(tier) / 2),
{
    current < tier.max_peers() / 2
}

/// Whether some peer already has ASN `asn`.
pub fn is_already_connected(peers: &Vec<PeerConnection>, asn: u32) -> (r: bool)
    ensures
        r == exists|i: int| 0 <= i < peers@.len() && (#[trigger] peers@[i]).peer_asn == asn,
{
    let mut i: usize = 0;
    while i < peers.len()
        invariant
            i <= peers@.len(),
            forall|j: int| 0 <= j < i ==> (#[trigger] peers@[j]).peer_asn != asn,
        decreases peers.len() - i,
    {
        if peers[i].peer_asn == asn {
            return true;
        }
        i += 1;
    }
    false
}

impl ServiceType {
    pub fn copy(&self) -> (r: ServiceType)
        ensures
            match (*self, r) {
                (ServiceType::Custom(a), ServiceType::Custom(b)) => a@ == b@,
                (ServiceType::WebServer, ServiceType::WebServer) => true,
                (ServiceType::EmailServer, ServiceType::EmailServer) => true,
                (ServiceType::FileServer, ServiceType::FileServer) => true,
                (ServiceType::ChatServer, ServiceType::ChatServer) => true,
                (ServiceType::Database, ServiceType::Database) => true,
                _ => false,
            },
    {
        match self {
            ServiceType::WebServer => ServiceType::WebServer,
            ServiceType::EmailServer => ServiceType::EmailServer,
            ServiceType::FileServer => ServiceType::FileServer,
            ServiceType::ChatServer => ServiceType::ChatServer,
            ServiceType::Database => ServiceType::Database,
            ServiceType::Custom(s) => ServiceType::Custom(s.clone()),
        }
    }
}

/// Summaries of hosted services for an announcement, in order.
pub fn get_service_summary(services: &Vec<HostedService>) -> (r: Vec<ServiceSummary>)
    ensures
        r@.len() == services@.len(),
        forall|i: int| 0 <= i < r@.len() ==> (#[trigger] r@[i]).name@ == services@[i].name@
            && r@[i].domain@ == services@[i].domain@ && r@[i].port == services@[i].port,
{
    let mut out: Vec<ServiceSummary> = Vec::new();
    let mut i: usize = 0;
    while i < services.len()
        invariant
            i <= services@.len(),
            out@.len() == i,
            forall|k: int| 0 <= k < i ==> (#[trigger] out@[k]).name@ == services@[k].name@
                && out@[k].domain@ == services@[k].domain@ && out@[k].port == services@[k].port,
        decreases services.len() - i,
    {
        let s = &services[i];
        out.push(ServiceSummary {
            name: s.name.clone(),
            domain: s.domain.clone(),
            service_type: s.service_type.copy(),
            port: s.port,
        });
        i += 1;
    }
    out
}

/// Records a node that announced itself on the local network: a new
/// identifier becomes a disconnected peer; a known one is left as it is.
pub fn record_discovered_peer(known: &mut Vec<PeerConnection>, node_id: u128, asn: u32, sender: IpAddress) -> (added: bool)
    ensures
        added == !has_peer(old(known)@, node_id),
        added ==> final(known)@.len() == old(known)@.len() + 1
            && final(known)@.subrange(0, old(known)@.len() as int) == old(known)@
            && final(known)@.last().peer_id == node_id
            && final(known)@.last().peer_asn == asn
            && final(known)@.last().peer_addr == sender,
        !added ==> final(known)@ == old(known)@,
{
    let mut i: usize = 0;
    while i < known.len()
        invariant
            i <= known@.len(),
            forall|j: int| 0 <= j < i ==> #[trigger] known@[j].peer_id != node_id,
        decreases known.len() - i,
    {
        if known[i].peer_id == node_id {
            return false;
        }
        i += 1;
    }
    known.push(PeerConnection::new(node_id, asn, sender));
    assert(known@.subrange(0, old(known)@.len() as int) =~= old(known)@);
    true
}

/// The pre-shared key every node knows, used for tunnels opened while joining.
pub fn get_default_psk() -> (r: Vec<u8>)
    ensures
        r@ == DEFAULT_PSK@.map_values(|c: char| c as u8),
{
    let text = DEFAULT_PSK;
    let mut out: Vec<u8> = Vec::new();
    proof {
        reveal_strlit("vx0-network-default-psk-change-in-production");
    }
    let n = text.unicode_len();
    let mut i: usize = 0;
    while i < n
        invariant
            n == text@.len(),
            text.is_ascii(),
            i <= n,
            out@ == text@.subrange(0, i as int).map_values(|c: char| c as u8),
        decreases n - i,
    {
        out.push(text.get_ascii(i));
        assert(out@ =~= text@.subrange(0, i + 1).map_values(|c: char| c as u8));
        i += 1;
    }
    assert(text@.subrange(0, n as int) =~= text@);
    out
}

#[derive(Debug, Clone, Copy, PartialEq, Eq, Structural)]
pub enum DiscoveryMessageType {
    Announce,
    Query,
    Response,
}

/// Handles a discovery message from `sender`: an announcement records the
/// node as in `record_discovered_peer`; queries and responses change nothing.
pub fn handle_discovery_message(
    known: &mut Vec<PeerConnection>,
    message_type: DiscoveryMessageType,
    node_id: u128,
    asn: u32,
    sender: IpAddress,
) -> (added: bool)
    ensures
        added == (message_type == DiscoveryMessageType::Announce && !has_peer(old(known)@, node_id)),
        added ==> final(known)@.len() == old(known)@.len() + 1
            && final(known)@.subrange(0, old(known)@.len() as int) == old(known)@
            && final(known)@.last().peer_id == node_id
            && final(known)@.last().peer_asn == asn
            && final(known)@.last().peer_addr == sender,
        !added ==> final(known)@ == old(known)@,
{
    match message_type {
        DiscoveryMessageType::Announce => record_discovered_peer(known, node_id, asn, sender),
        _ => false,
    }
}

/// Whether an answer accepts the node.
pub open spec fn accepts(a: Option<JoinResponse>) -> bool {
    match a {
        Some(x) => x.accepted,
        None => false,
    }
}

/// Index of the first answer that accepts the node.
pub fn first_accepting(answers: &Vec<Option<JoinResponse>>) -> (r: Option<usize>)
    ensures
        r is None <==> forall|j: int| 0 <= j < answers@.len() ==> !accepts(#[trigger] answers@[j]),
        r matches Some(i) ==> i < answers@.len() && accepts(answers@[i as int])
            && forall|j: int| 0 <= j < i ==> !accepts(#[trigger] answers@[j]),
{
    let mut i: usize = 0;
    while i < answers.len()
        invariant
            i <= answers@.len(),
            forall|j: int| 0 <= j < i ==> !accepts(#[trigger] answers@[j]),
        decreases answers.len() - i,
    {
        let accepted = match &answers[i] {
            Some(a) => a.accepted,
            None => false,
        };
        if accepted {
            return Some(i);
        }
        i += 1;
    }
    None
}

/// The outcome of asking entry points to admit this node: the first answer
/// that accepts it (`answers[i]` from `peers[i]`, `None` where the peer could
/// not be reached), else the response of an open network.
pub fn choose_join_response(tier: NodeTier, assigned_asn: Option<u32>, peers: &Vec<BootstrapNode>, answers: Vec<Option<JoinResponse>>) -> (r: JoinResponse)
    ensures
        (exists|i: int| 0 <= i < answers@.len() && accepts(#[trigger] answers@[i])) ==>
            exists|i: int| 0 <= i < answers@.len() && answers@[i] == Some(r) && r.accepted
                && forall|j: int| 0 <= j < i ==> !accepts(#[trigger] answers@[j]),
        !(exists|i: int| 0 <= i < answers@.len() && accepts(#[trigger] answers@[i])) ==> {
            &&& r.accepted
            &&& r.assigned_asn == assigned_asn
            &&& r.bootstrap_peers@.len() == peers@.len()
            &&& forall|i: int| 0 <= i < peers@.len() ==> (#[trigger] r.bootstrap_peers@[i]).asn == peers@[i].asn
                && r.bootstrap_peers@[i].ip@ == peers@[i].ip@
            &&& r.network_info.recommended_settings.max_peers == spec_max_peers(tier)
            &&& r.rejection_reason is None
        },
{
    match first_accepting(&answers) {
        Some(i) => {
            let ghost all = answers@;
            let mut pending = answers;
            let chosen = pending.remove(i);
            assert(chosen == all[i as int]);
            match chosen {
                Some(a) => {
                    return a;
                },
                None => {},
            }
        },
        None => {},
    }
    open_join_response(tier, assigned_asn, peers)
}

} // verus!
