//! The node orchestrator: identity, tier, peers, hosted services and the
//! tunnel kept with each peer, with the admission rules of the tier policy.
use vstd::prelude::*;
use crate::addr::IpAddress;
use crate::clock::now_millis;
use crate::config::Vx0Config;
use crate::crypto::IKEError;
use crate::dns::RESERVED_SUFFIX;
use crate::ike::{IKESession, IKEState, random_id};
use crate::text::{ends_with, spec_ends_with, str_equal};
use crate::tier::{NodeTier, classify, in_tier_range, spec_can_peer, spec_classify, spec_max_peers};
use crate::tunnels::{TrafficStats, TunnelManager, TunnelStatus, direction, nonce_bytes};
use crate::crypto::{aead_sealed, MAX_AEAD_INPUT};

verus! {

#[derive(Debug, Clone, Copy, PartialEq, Eq, Structural)]
pub enum ConnectionStatus {
    Disconnected,
    Connecting,
    Connected,
    Authenticated,
    Failed,
}

/// Measurements of a peer connection. Packet loss is in parts per million.
#[derive(Debug, Clone, Copy, PartialEq, Eq, Structural)]
pub struct ConnectionMetrics {
    pub latency_ms: u64,
    pub packet_loss_ppm: u32,
    pub bytes_sent: u64,
    pub bytes_received: u64,
    pub routes_advertised: u32,
    pub routes_received: u32,
}

impl ConnectionMetrics {
    pub fn new() -> (r: ConnectionMetrics)
        ensures
            r == (ConnectionMetrics { latency_ms: 0, packet_loss_ppm: 0, bytes_sent: 0, bytes_received: 0, routes_advertised: 0, routes_received: 0 }),
    {
        ConnectionMetrics { latency_ms: 0, packet_loss_ppm: 0, bytes_sent: 0, bytes_received: 0, routes_advertised: 0, routes_received: 0 }
    }
}

/// A peer of this node.
#[derive(Debug, Clone, Copy, PartialEq, Eq, Structural)]
pub struct PeerConnection {
    pub peer_id: u128,
    pub peer_asn: u32,
    pub peer_addr: IpAddress,
    pub status: ConnectionStatus,
    pub metrics: ConnectionMetrics,
    /// Milliseconds since the Unix epoch.
    pub last_seen: i64,
}

impl PeerConnection {
    /// A disconnected peer with zero metrics.
    pub fn new(peer_id: u128, peer_asn: u32, peer_addr: IpAddress) -> (r: PeerConnection)
        ensures
            r.peer_id == peer_id,
            r.peer_asn == peer_asn,
            r.peer_addr == peer_addr,
            r.status == ConnectionStatus::Disconnected,
            r.metrics == ConnectionMetrics::spec_zero(),
    {
        PeerConnection {
            peer_id,
            peer_asn,
            peer_addr,
            status: ConnectionStatus::Disconnected,
            metrics: ConnectionMetrics::new(),
            last_seen: now_millis(),
        }
    }

    /// Marks an outbound connection attempt.
    pub fn begin_connect(&mut self)
        ensures
            *final(self) == (PeerConnection { status: ConnectionStatus::Connecting, ..*old(self) }),
    {
        self.status = ConnectionStatus::Connecting;
    }

    /// Records how a connection attempt ended.
    pub fn finish_connect(&mut self, succeeded: bool)
        ensures
            final(self).status == (if succeeded { ConnectionStatus::Connected } else { ConnectionStatus::Failed }),
            final(self).peer_id == old(self).peer_id,
            final(self).peer_asn == old(self).peer_asn,
            final(self).peer_addr == old(self).peer_addr,
            final(self).metrics == old(self).metrics,
            !succeeded ==> final(self).last_seen == old(self).last_seen,
    {
        if succeeded {
            self.status = ConnectionStatus::Connected;
            self.last_seen = now_millis();
        } else {
            self.status = ConnectionStatus::Failed;
        }
    }

    pub fn disconnect(&mut self)
        ensures
            *final(self) == (PeerConnection { status: ConnectionStatus::Disconnected, ..*old(self) }),
    {
        self.status = ConnectionStatus::Disconnected;
    }

    pub fn is_connected(&self) -> (r: bool)
        ensures
            r == (self.status == ConnectionStatus::Connected || self.status == ConnectionStatus::Authenticated),
    {
        match self.status {
            ConnectionStatus::Connected | ConnectionStatus::Authenticated => true,
            _ => false,
        }
    }

    pub fn update_metrics(&mut self, latency_ms: u64, packet_loss_ppm: u32)
        ensures
            final(self).metrics == (ConnectionMetrics { latency_ms, packet_loss_ppm, ..old(self).metrics }),
            final(self).peer_id == old(self).peer_id,
            final(self).peer_asn == old(self).peer_asn,
            final(self).status == old(self).status,
    {
        self.metrics.latency_ms = latency_ms;
        self.metrics.packet_loss_ppm = packet_loss_ppm;
        self.last_seen = now_millis();
    }
}

impl ConnectionMetrics {
    pub open spec fn spec_zero() -> ConnectionMetrics {
        ConnectionMetrics { latency_ms: 0, packet_loss_ppm: 0, bytes_sent: 0, bytes_received: 0, routes_advertised: 0, routes_received: 0 }
    }
}

#[derive(Debug)]
pub enum ServiceType {
    WebServer,
    EmailServer,
    FileServer,
    ChatServer,
    Database,
    Custom(String),
}

#[derive(Debug, Clone, Copy, PartialEq, Eq, Structural)]
pub enum ServiceStatus {
    Starting,
    Running,
    Stopping,
    Stopped,
    Failed,
}

/// A service this node hosts under the reserved namespace.
#[derive(Debug)]
pub struct HostedService {
    pub service_id: u128,
    pub name: String,
    pub service_type: ServiceType,
    pub domain: String,
    pub port: u16,
    pub status: ServiceStatus,
    pub metadata: Vec<(String, String)>,
}

#[derive(Debug)]
pub enum NodeError {
    Config(String),
    Network(String),
    BGP(String),
    IKE(String),
    Service(String),
    IO(String),
    Serialization(String),
}

/// The tier a configuration names; unknown names mean Edge.
pub open spec fn tier_of_name(s: Seq<char>) -> NodeTier {
    if s == "Backbone"@ || s == "Tier1"@ {
        NodeTier::Backbone
    } else if s == "Regional"@ || s == "Tier2"@ {
        NodeTier::Regional
    } else {
        NodeTier::Edge
    }
}

pub fn tier_from_name(s: &str) -> (r: NodeTier)
    ensures
        r == tier_of_name(s@),
{
    if str_equal(s, "Backbone") || str_equal(s, "Tier1") {
        NodeTier::Backbone
    } else if str_equal(s, "Regional") || str_equal(s, "Tier2") {
        NodeTier::Regional
    } else {
        NodeTier::Edge
    }
}

fn ike_error_text(e: IKEError) -> (r: NodeError)
    ensures
        r is IKE,
{
    match e {
        IKEError::Crypto(m) => NodeError::IKE(m),
        IKEError::Protocol(m) => NodeError::IKE(m),
        IKEError::Network(m) => NodeError::IKE(m),
        IKEError::Configuration(m) => NodeError::IKE(m),
        IKEError::IO(m) => NodeError::IKE(m),
        IKEError::AuthenticationFailed => NodeError::IKE(String::from_str("authentication failed")),
    }
}

/// A node of the overlay.
#[derive(Debug)]
pub struct Vx0Node {
    pub node_id: u128,
    pub asn: u32,
    pub tier: NodeTier,
    pub location: String,
    pub ipv4_addr: u32,
    pub ipv6_addr: u128,
    pub hostname: String,
    pub peers: Vec<PeerConnection>,
    pub services: Vec<HostedService>,
    pub config: Vx0Config,
    pub tunnel_manager: TunnelManager,
    /// Tunnel kept with each peer: (peer id, tunnel id).
    pub active_tunnels: Vec<(u128, u128)>,
}

/// Whether `peers` holds a peer with identifier `id`.
pub open spec fn has_peer(peers: Seq<PeerConnection>, id: u128) -> bool {
    exists|i: int| 0 <= i < peers.len() && #[trigger] peers[i].peer_id == id
}

/// Index of the tunnel entry for `peer` in `map`.
pub open spec fn tunnel_entry(map: Seq<(u128, u128)>, peer: u128) -> Option<int> {
    if exists|i: int| 0 <= i < map.len() && (#[trigger] map[i]).0 == peer {
        Some(choose|i: int| 0 <= i < map.len() && (#[trigger] map[i]).0 == peer)
    } else {
        None
    }
}

impl Vx0Node {
    /// Peer identifiers and tunnel-map keys are unique; the tunnel registry
    /// is well formed.
    pub open spec fn wf(&self) -> bool {
        &&& forall|i: int, j: int| 0 <= i < self.peers@.len() && 0 <= j < self.peers@.len() && i != j
            ==> #[trigger] self.peers@[i].peer_id != #[trigger] self.peers@[j].peer_id
        &&& forall|i: int, j: int| 0 <= i < self.active_tunnels@.len() && 0 <= j < self.active_tunnels@.len() && i != j
            ==> (#[trigger] self.active_tunnels@[i]).0 != (#[trigger] self.active_tunnels@[j]).0
        &&& self.tunnel_manager.wf()
    }

    /// Builds a node from its configuration and its parsed addresses (`None`
    /// where the configured text is no address). Fails with a configuration
    /// error on a missing address and on an ASN outside the tier's range.
    pub fn new(config: Vx0Config, ipv4_addr: Option<u32>, ipv6_addr: Option<u128>) -> (r: Result<Vx0Node, NodeError>)
        ensures
            r is Err <==> ipv4_addr is None || ipv6_addr is None
                || !in_tier_range(tier_of_name(config.node.tier@), config.node.asn),
            r matches Err(e) ==> e is Config,
            r matches Ok(n) ==> n.wf() && n.asn == config.node.asn
                && n.tier == tier_of_name(config.node.tier@)
                && n.ipv4_addr == ipv4_addr->Some_0 && n.ipv6_addr == ipv6_addr->Some_0
                && n.hostname@ == config.node.hostname@ && n.location@ == config.node.location@
                && n.peers@.len() == 0 && n.services@.len() == 0
                && n.active_tunnels@.len() == 0 && n.tunnel_manager.tunnels@.len() == 0,
    {
        let ipv4 = match ipv4_addr {
            Some(a) => a,
            None => {
                return Err(NodeError::Config(String::from_str("invalid IPv4 address")));
            },
        };
        let ipv6 = match ipv6_addr {
            Some(a) => a,
            None => {
                return Err(NodeError::Config(String::from_str("invalid IPv6 address")));
            },
        };
        let tier = tier_from_name(config.node.tier.as_str());
        if !tier.contains_asn(config.node.asn) {
            return Err(NodeError::Config(String::from_str("ASN not valid for tier")));
        }
        let hostname = config.node.hostname.clone();
        let location = config.node.location.clone();
        Ok(Vx0Node {
            node_id: random_id(),
            asn: config.node.asn,
            tier,
            location,
            ipv4_addr: ipv4,
            ipv6_addr: ipv6,
            hostname,
            peers: Vec::new(),
            services: Vec::new(),
            config,
            tunnel_manager: TunnelManager::new(),
            active_tunnels: Vec::new(),
        })
    }

    /// Nothing to start in the library itself; the daemon's tasks run outside it.
    pub fn start(&self) -> (r: Result<(), NodeError>)
        ensures
            r is Ok,
    {
        Ok(())
    }

    /// Marks every peer Disconnected.
    pub fn stop(&mut self) -> (r: Result<(), NodeError>)
        requires
            old(self).wf(),
        ensures
            r is Ok,
            final(self).wf(),
            final(self).peers@.len() == old(self).peers@.len(),
            forall|i: int| 0 <= i < final(self).peers@.len() ==> #[trigger] final(self).peers@[i]
                == (PeerConnection { status: ConnectionStatus::Disconnected, ..old(self).peers@[i] }),
            final(self).services == old(self).services,
            final(self).active_tunnels == old(self).active_tunnels,
    {
        let mut i: usize = 0;
        while i < self.peers.len()
            invariant
                i <= self.peers@.len(),
                self.peers@.len() == old(self).peers@.len(),
                forall|j: int| 0 <= j < i ==> #[trigger] self.peers@[j]
                    == (PeerConnection { status: ConnectionStatus::Disconnected, ..old(self).peers@[j] }),
                forall|j: int| i <= j < self.peers@.len() ==> #[trigger] self.peers@[j] == old(self).peers@[j],
                self.services == old(self).services,
                self.active_tunnels == old(self).active_tunnels,
                self.tunnel_manager == old(self).tunnel_manager,
                old(self).wf(),
            decreases self.peers.len() - i,
        {
            let mut p = self.peers[i];
            p.disconnect();
            self.peers.set(i, p);
            i += 1;
        }
        proof {
            assert forall|a: int, b: int| 0 <= a < self.peers@.len() && 0 <= b < self.peers@.len() && a != b
                implies #[trigger] self.peers@[a].peer_id != #[trigger] self.peers@[b].peer_id by {
                assert(self.peers@[a].peer_id == old(self).peers@[a].peer_id);
                assert(self.peers@[b].peer_id == old(self).peers@[b].peer_id);
            }
        }
        Ok(())
    }

    pub fn get_peer_count(&self) -> (r: usize)
        ensures
            r == self.peers@.len(),
    {
        self.peers.len()
    }

    fn find_peer(&self, id: u128) -> (r: Option<usize>)
        ensures
            r matches Some(i) ==> i < self.peers@.len() && self.peers@[i as int].peer_id == id,
            r is None ==> !has_peer(self.peers@, id),
    {
        let mut i: usize = 0;
        while i < self.peers.len()
            invariant
                i <= self.peers@.len(),
                forall|j: int| 0 <= j < i ==> #[trigger] self.peers@[j].peer_id != id,
            decreases self.peers.len() - i,
        {
            if self.peers[i].peer_id == id {
                return Some(i);
            }
            i += 1;
        }
        None
    }

    /// Admits a peer. Refused with a network error when the node already
    /// holds as many peers as its tier allows, or when its tier may not peer
    /// with the tier of the peer's ASN. An admitted peer replaces any peer
    /// with the same identifier.
    pub fn add_peer(&mut self, peer: PeerConnection) -> (r: Result<(), NodeError>)
        requires
            old(self).wf(),
        ensures
            final(self).wf(),
            r is Err <==> old(self).peers@.len() >= spec_max_peers(old(self).tier)
                || !spec_can_peer(old(self).tier, spec_classify(peer.peer_asn)),
            r matches Err(e) ==> e is Network,
            r is Err ==> final(self).peers@ == old(self).peers@,
            r is Ok ==> final(self).peers@.contains(peer)
                && forall|q: PeerConnection| #[trigger] final(self).peers@.contains(q) <==>
                    (q == peer || (old(self).peers@.contains(q) && q.peer_id != peer.peer_id)),
            final(self).tier == old(self).tier,
            final(self).asn == old(self).asn,
            final(self).services == old(self).services,
            final(self).active_tunnels == old(self).active_tunnels,
    {
        let max_peers = self.tier.max_peers();
        if self.get_peer_count() >= max_peers {
            return Err(NodeError::Network(String::from_str("maximum peer limit reached for tier")));
        }
        let peer_tier = classify(peer.peer_asn);
        if !self.tier.can_peer_with(&peer_tier) {
            return Err(NodeError::Network(String::from_str("tiers may not peer")));
        }
        let ghost before = self.peers@;
        match self.find_peer(peer.peer_id) {
            Some(i) => {
                self.peers.set(i, peer);
                proof {
                    assert forall|q: PeerConnection| #[trigger] self.peers@.contains(q) <==>
                        (q == peer || (before.contains(q) && q.peer_id != peer.peer_id)) by {
                        if self.peers@.contains(q) {
                            let k = choose|k: int| 0 <= k < self.peers@.len() && self.peers@[k] == q;
                            if k != i {
                                assert(before[k] == q);
                                assert(before[k].peer_id != before[i as int].peer_id);
                            }
                        }
                        if before.contains(q) && q.peer_id != peer.peer_id {
                            let k = choose|k: int| 0 <= k < before.len() && before[k] == q;
                            assert(self.peers@[k] == q);
                        }
                        if q == peer {
                            assert(self.peers@[i as int] == q);
                        }
                    }
                }
            },
            None => {
                self.peers.push(peer);
                proof {
                    let n = before.len() as int;
                    assert forall|q: PeerConnection| #[trigger] self.peers@.contains(q) <==>
                        (q == peer || (before.contains(q) && q.peer_id != peer.peer_id)) by {
                        if self.peers@.contains(q) {
                            let k = choose|k: int| 0 <= k < self.peers@.len() && self.peers@[k] == q;
                            if k != n {
                                assert(before[k] == q);
                            }
                        }
                        if before.contains(q) && q.peer_id != peer.peer_id {
                            let k = choose|k: int| 0 <= k < before.len() && before[k] == q;
                            assert(self.peers@[k] == q);
                        }
                        if q == peer {
                            assert(self.peers@[n] == q);
                        }
                    }
                    assert(self.peers@[n] == peer);
                }
            },
        }
        Ok(())
    }

    /// Drops the peer with identifier `id`, if any.
    pub fn remove_peer(&mut self, id: u128) -> (r: Result<(), NodeError>)
        requires
            old(self).wf(),
        ensures
            final(self).wf(),
            r is Ok,
            !has_peer(final(self).peers@, id),
            forall|q: PeerConnection| #[trigger] final(self).peers@.contains(q) <==>
                (old(self).peers@.contains(q) && q.peer_id != id),
            final(self).tier == old(self).tier,
            final(self).services == old(self).services,
            final(self).active_tunnels == old(self).active_tunnels,
    {
        let ghost before = self.peers@;
        match self.find_peer(id) {
            Some(i) => {
                self.peers.remove(i);
                proof {
                    assert forall|q: PeerConnection| #[trigger] self.peers@.contains(q) <==>
                        (before.contains(q) && q.peer_id != id) by {
                        if self.peers@.contains(q) {
                            let k = choose|k: int| 0 <= k < self.peers@.len() && self.peers@[k] == q;
                            let ko = if k < i { k } else { k + 1 };
                            assert(before[ko] == q);
                            assert(before[ko].peer_id != before[i as int].peer_id);
                        }
                        if before.contains(q) && q.peer_id != id {
                            let k = choose|k: int| 0 <= k < before.len() && before[k] == q;
                            let kn = if k < i { k } else { k - 1 };
                            assert(self.peers@[kn] == q);
                        }
                    }
                    assert forall|a: int, b: int| 0 <= a < self.peers@.len() && 0 <= b < self.peers@.len() && a != b
                        implies #[trigger] self.peers@[a].peer_id != #[trigger] self.peers@[b].peer_id by {
                        let ao = if a < i { a } else { a + 1 };
                        let bo = if b < i { b } else { b + 1 };
                        assert(self.peers@[a] == before[ao]);
                        assert(self.peers@[b] == before[bo]);
                    }
                    if has_peer(self.peers@, id) {
                        let k = choose|k: int| 0 <= k < self.peers@.len() && #[trigger] self.peers@[k].peer_id == id;
                        let ko = if k < i { k } else { k + 1 };
                        assert(before[ko].peer_id == before[i as int].peer_id);
                    }
                }
            },
            None => {
                proof {
                    assert forall|q: PeerConnection| #[trigger] self.peers@.contains(q) implies q.peer_id != id by {
                        let k = choose|k: int| 0 <= k < self.peers@.len() && self.peers@[k] == q;
                        assert(self.peers@[k].peer_id == q.peer_id);
                    }
                }
            },
        }
        Ok(())
    }

    /// Identifiers of all peers.
    pub fn peer_ids(&self) -> (r: Vec<u128>)
        ensures
            r@.len() == self.peers@.len(),
            forall|i: int| 0 <= i < r@.len() ==> r@[i] == #[trigger] self.peers@[i].peer_id,
    {
        let mut r: Vec<u128> = Vec::new();
        let mut i: usize = 0;
        while i < self.peers.len()
            invariant
                i <= self.peers@.len(),
                r@.len() == i,
                forall|j: int| 0 <= j < i ==> r@[j] == #[trigger] self.peers@[j].peer_id,
            decreases self.peers.len() - i,
        {
            r.push(self.peers[i].peer_id);
            i += 1;
        }
        r
    }

    /// Hosts a service. Its domain must end in `.vx0`; any other is refused
    /// with a service error.
    pub fn register_service(&mut self, service: HostedService) -> (r: Result<(), NodeError>)
        ensures
            r is Err <==> !spec_ends_with(service.domain@, RESERVED_SUFFIX@),
            r matches Err(e) ==> e is Service,
            r is Err ==> final(self).services@ == old(self).services@,
            r is Ok ==> final(self).services@ == old(self).services@.push(service),
            final(self).peers == old(self).peers,
            final(self).tier == old(self).tier,
            final(self).active_tunnels == old(self).active_tunnels,
            final(self).tunnel_manager == old(self).tunnel_manager,
    {
        if !ends_with(service.domain.as_str(), RESERVED_SUFFIX) {
            return Err(NodeError::Service(String::from_str("service domain must end with .vx0")));
        }
        self.services.push(service);
        Ok(())
    }

    fn find_tunnel_entry(&self, peer_id: u128) -> (r: Option<usize>)
        requires
            self.wf(),
        ensures
            match r {
                Some(i) => i < self.active_tunnels@.len() && self.active_tunnels@[i as int].0 == peer_id
                    && tunnel_entry(self.active_tunnels@, peer_id) == Some(i as int),
                None => tunnel_entry(self.active_tunnels@, peer_id) is None,
            },
    {
        let mut i: usize = 0;
        while i < self.active_tunnels.len()
            invariant
                i <= self.active_tunnels@.len(),
                self.wf(),
                forall|j: int| 0 <= j < i ==> (#[trigger] self.active_tunnels@[j]).0 != peer_id,
            decreases self.active_tunnels.len() - i,
        {
            if self.active_tunnels[i].0 == peer_id {
                proof {
                    let k = choose|k: int| 0 <= k < self.active_tunnels@.len() && (#[trigger] self.active_tunnels@[k]).0 == peer_id;
                    if k != i {
                        assert(self.active_tunnels@[k].0 != self.active_tunnels@[i as int].0);
                    }
                }
                return Some(i);
            }
            i += 1;
        }
        None
    }

    /// Registers a tunnel to `peer_id` over an established session and
    /// records it as that peer's tunnel (replacing an earlier record).
    pub fn create_secure_tunnel(&mut self, peer_id: u128, remote_addr: IpAddress, session: IKESession) -> (r: Result<u128, NodeError>)
        requires
            old(self).wf(),
            session.state == IKEState::Established ==> session.keys_derived(),
        ensures
            final(self).wf(),
            session.state != IKEState::Established ==> r is Err,
            r matches Err(e) ==> e is IKE,
            r is Err ==> final(self).active_tunnels == old(self).active_tunnels
                && final(self).tunnel_manager.tunnels@ == old(self).tunnel_manager.tunnels@,
            r matches Ok(tid) ==> final(self).tunnel_manager.has_tunnel(tid)
                && final(self).tunnel_manager.tunnel(tid).status == TunnelStatus::Established
                && final(self).tunnel_manager.tunnel(tid).local_addr == IpAddress::V4(old(self).ipv4_addr)
                && final(self).tunnel_manager.tunnel(tid).remote_addr == remote_addr
                && (tunnel_entry(final(self).active_tunnels@, peer_id) matches Some(i)
                    && final(self).active_tunnels@[i] == (peer_id, tid)),
            final(self).peers == old(self).peers,
            final(self).ipv4_addr == old(self).ipv4_addr,
    {
        let local = IpAddress::V4(self.ipv4_addr);
        let tid = match self.tunnel_manager.create_tunnel(local, remote_addr, session) {
            Ok(t) => t,
            Err(e) => {
                return Err(ike_error_text(e));
            },
        };
        let ghost before = self.active_tunnels@;
        match self.find_tunnel_entry(peer_id) {
            Some(i) => {
                self.active_tunnels.set(i, (peer_id, tid));
                proof {
                    assert forall|a: int, b: int| 0 <= a < self.active_tunnels@.len() && 0 <= b < self.active_tunnels@.len() && a != b
                        implies (#[trigger] self.active_tunnels@[a]).0 != (#[trigger] self.active_tunnels@[b]).0 by {
                        assert(self.active_tunnels@[a].0 == before[a].0);
                        assert(self.active_tunnels@[b].0 == before[b].0);
                    }
                    let k = tunnel_entry(self.active_tunnels@, peer_id)->Some_0;
                    assert(self.active_tunnels@[i as int].0 == peer_id);
                    assert(self.active_tunnels@[k].0 == peer_id);
                    assert(k == i);
                }
            },
            None => {
                self.active_tunnels.push((peer_id, tid));
                proof {
                    let n = before.len() as int;
                    assert(self.active_tunnels@[n] == (peer_id, tid));
                    assert forall|a: int, b: int| 0 <= a < self.active_tunnels@.len() && 0 <= b < self.active_tunnels@.len() && a != b
                        implies (#[trigger] self.active_tunnels@[a]).0 != (#[trigger] self.active_tunnels@[b]).0 by {
                        if a < n && b < n {
                            assert(self.active_tunnels@[a] == before[a]);
                            assert(self.active_tunnels@[b] == before[b]);
                        } else if a < n {
                            assert(self.active_tunnels@[a] == before[a]);
                        } else if b < n {
                            assert(self.active_tunnels@[b] == before[b]);
                        }
                    }
                    let k = tunnel_entry(self.active_tunnels@, peer_id)->Some_0;
                    assert(self.active_tunnels@[k].0 == peer_id);
                    if k != n {
                        assert(self.active_tunnels@[k] == before[k]);
                    }
                }
            },
        }
        Ok(tid)
    }

    /// Seals `data` on the tunnel kept with `peer_id`, as
    /// `TunnelManager::send_packet` does, and returns the wire packet; fails
    /// with an IKE error when there is no such tunnel or it refuses.
    pub fn send_secure_data(&mut self, peer_id: u128, data: &[u8]) -> (r: Result<Vec<u8>, NodeError>)
        requires
            old(self).wf(),
        ensures
            final(self).wf(),
            tunnel_entry(old(self).active_tunnels@, peer_id) is None ==> r is Err,
            r matches Err(e) ==> e is IKE,
            r is Err ==> final(self).tunnel_manager.tunnels@ == old(self).tunnel_manager.tunnels@,
            r is Ok ==> tunnel_entry(old(self).active_tunnels@, peer_id) is Some,
            tunnel_entry(old(self).active_tunnels@, peer_id) matches Some(k) ==> {
                let tid = old(self).active_tunnels@[k].1;
                let t = old(self).tunnel_manager.tunnel(tid);
                &&& (old(self).tunnel_manager.has_tunnel(tid) && t.status == TunnelStatus::Established
                    && t.next_nonce < u64::MAX && data@.len() <= MAX_AEAD_INPUT ==> r is Ok)
                &&& (r matches Ok(w) ==> old(self).tunnel_manager.has_tunnel(tid)
                    && w@ == nonce_bytes(direction(t.ike_session.initiator), t.next_nonce)
                        + aead_sealed(1, t.ike_session.encryption_key@, nonce_bytes(direction(t.ike_session.initiator), t.next_nonce), data@)
                    && final(self).tunnel_manager.tunnel(tid).next_nonce == t.next_nonce + 1)
            },
            final(self).active_tunnels == old(self).active_tunnels,
            final(self).peers == old(self).peers,
    {
        match self.find_tunnel_entry(peer_id) {
            Some(i) => {
                let tid = self.active_tunnels[i].1;
                match self.tunnel_manager.send_packet(tid, data) {
                    Ok(w) => Ok(w),
                    Err(e) => Err(ike_error_text(e)),
                }
            },
            None => Err(NodeError::IKE(String::from_str("no tunnel for peer"))),
        }
    }

    /// Closes and forgets the tunnel kept with `peer_id`, if any.
    pub fn close_tunnel(&mut self, peer_id: u128) -> (r: Result<(), NodeError>)
        requires
            old(self).wf(),
        ensures
            final(self).wf(),
            r is Ok,
            tunnel_entry(final(self).active_tunnels@, peer_id) is None,
            tunnel_entry(old(self).active_tunnels@, peer_id) matches Some(i) ==>
                final(self).active_tunnels@ == old(self).active_tunnels@.remove(i)
                && !final(self).tunnel_manager.has_tunnel(old(self).active_tunnels@[i].1),
            tunnel_entry(old(self).active_tunnels@, peer_id) is None ==>
                final(self).active_tunnels@ == old(self).active_tunnels@,
            final(self).peers == old(self).peers,
    {
        match self.find_tunnel_entry(peer_id) {
            Some(i) => {
                let ghost before = self.active_tunnels@;
                let (_, tid) = self.active_tunnels.remove(i);
                let _ = self.tunnel_manager.close_tunnel(tid);
                proof {
                    assert forall|a: int, b: int| 0 <= a < self.active_tunnels@.len() && 0 <= b < self.active_tunnels@.len() && a != b
                        implies (#[trigger] self.active_tunnels@[a]).0 != (#[trigger] self.active_tunnels@[b]).0 by {
                        let ao = if a < i { a } else { a + 1 };
                        let bo = if b < i { b } else { b + 1 };
                        assert(self.active_tunnels@[a] == before[ao]);
                        assert(self.active_tunnels@[b] == before[bo]);
                    }
                    if exists|k: int| 0 <= k < self.active_tunnels@.len() && (#[trigger] self.active_tunnels@[k]).0 == peer_id {
                        let k = choose|k: int| 0 <= k < self.active_tunnels@.len() && (#[trigger] self.active_tunnels@[k]).0 == peer_id;
                        let ko = if k < i { k } else { k + 1 };
                        assert(before[ko].0 == before[i as int].0);
                    }
                }
                Ok(())
            },
            None => Ok(()),
        }
    }

    /// Traffic counters of the tunnel kept with `peer_id`.
    pub fn get_tunnel_stats(&self, peer_id: u128) -> (r: Option<TrafficStats>)
        requires
            self.wf(),
        ensures
            tunnel_entry(self.active_tunnels@, peer_id) is None ==> r is None,
            tunnel_entry(self.active_tunnels@, peer_id) matches Some(i) ==>
                r == (if self.tunnel_manager.has_tunnel(self.active_tunnels@[i].1) {
                    Some(self.tunnel_manager.tunnel(self.active_tunnels@[i].1).traffic_stats)
                } else {
                    None
                }),
    {
        match self.find_tunnel_entry(peer_id) {
            Some(i) => self.tunnel_manager.get_tunnel_stats(self.active_tunnels[i].1),
            None => None,
        }
    }

    /// The (peer id, tunnel id) records.
    pub fn list_active_tunnels(&self) -> (r: Vec<(u128, u128)>)
        ensures
            r@ == self.active_tunnels@,
    {
        crate::rib::copy_vec(&self.active_tunnels)
    }

    /// For each recorded peer, whether its tunnel exists and is Established.
    pub fn tunnel_health_check(&self) -> (r: Result<Vec<(u128, bool)>, NodeError>)
        requires
            self.wf(),
        ensures
            r matches Ok(v) && v@.len() == self.active_tunnels@.len()
                && forall|i: int| 0 <= i < v@.len() ==> #[trigger] v@[i] == (self.active_tunnels@[i].0,
                    self.tunnel_manager.has_tunnel(self.active_tunnels@[i].1)
                    && self.tunnel_manager.tunnel(self.active_tunnels@[i].1).status == TunnelStatus::Established),
    {
        let mut out: Vec<(u128, bool)> = Vec::new();
        let mut i: usize = 0;
        while i < self.active_tunnels.len()
            invariant
                i <= self.active_tunnels@.len(),
                self.wf(),
                out@.len() == i,
                forall|j: int| 0 <= j < i ==> #[trigger] out@[j] == (self.active_tunnels@[j].0,
                    self.tunnel_manager.has_tunnel(self.active_tunnels@[j].1)
                    && self.tunnel_manager.tunnel(self.active_tunnels@[j].1).status == TunnelStatus::Established),
            decreases self.active_tunnels.len() - i,
        {
            let (pid, tid) = self.active_tunnels[i];
            let healthy = match self.tunnel_manager.get_tunnel(tid) {
                Some(t) => t.status == TunnelStatus::Established,
                None => false,
            };
            out.push((pid, healthy));
            i += 1;
        }
        Ok(out)
    }
}

} // verus!
