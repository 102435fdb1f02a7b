//! Tunnel manager: a registry of tunnels keyed by a 128-bit identifier, each
//! carrying traffic sealed with its session's encryption key under a
//! per-tunnel counter nonce.
use vstd::prelude::*;
use crate::addr::IpAddress;
use crate::clock::now_millis;
use crate::crypto::{IKECrypto, IKEError, aead_sealed, opened, MAX_AEAD_INPUT};
use crate::ike::{IKEMessage, IKESession, IKEState, random_id};

verus! {

pub const NONCE_LEN: usize = 12;

#[derive(Debug, Clone, Copy, PartialEq, Eq, Structural)]
pub enum TunnelStatus {
    Negotiating,
    Established,
    Rekeying,
    Failed,
    Closed,
}

#[derive(Debug, Clone, Copy, PartialEq, Eq, Structural)]
pub struct TrafficStats {
    pub bytes_in: u64,
    pub bytes_out: u64,
    pub packets_in: u64,
    pub packets_out: u64,
    /// Milliseconds since the Unix epoch.
    pub last_activity: i64,
}

impl TrafficStats {
    pub fn new() -> (r: TrafficStats)
        ensures
            r.bytes_in == 0 && r.bytes_out == 0 && r.packets_in == 0 && r.packets_out == 0,
    {
        TrafficStats { bytes_in: 0, bytes_out: 0, packets_in: 0, packets_out: 0, last_activity: now_millis() }
    }
}

#[derive(Debug)]
pub struct IPSecTunnel {
    pub tunnel_id: u128,
    pub local_addr: IpAddress,
    pub remote_addr: IpAddress,
    pub ike_session: IKESession,
    pub status: TunnelStatus,
    pub traffic_stats: TrafficStats,
    /// Milliseconds since the Unix epoch.
    pub created_at: i64,
    /// Counter of the next nonce this end seals with.
    pub next_nonce: u64,
}

/// `a + b`, or `u64::MAX` when that overflows.
pub open spec fn sat_add(a: u64, b: int) -> u64 {
    if a + b > u64::MAX { u64::MAX } else { (a + b) as u64 }
}

fn saturating(a: u64, b: usize) -> (r: u64)
    ensures
        r == sat_add(a, b as int),
{
    if (b as u64) > u64::MAX - a { u64::MAX } else { a + b as u64 }
}

/// The nonce for counter `c` in direction `dir` (0 for traffic the initiator
/// seals, 1 for the responder): the direction byte, three zero bytes, then
/// the counter in big-endian order. The two directions share a key but never
/// a nonce.
pub open spec fn nonce_bytes(dir: u8, c: u64) -> Seq<u8> {
    seq![dir, 0u8, 0u8, 0u8,
        ((c >> 56u64) & 0xffu64) as u8,
        ((c >> 48u64) & 0xffu64) as u8,
        ((c >> 40u64) & 0xffu64) as u8,
        ((c >> 32u64) & 0xffu64) as u8,
        ((c >> 24u64) & 0xffu64) as u8,
        ((c >> 16u64) & 0xffu64) as u8,
        ((c >> 8u64) & 0xffu64) as u8,
        (c & 0xffu64) as u8]
}

pub open spec fn direction(initiator: bool) -> u8 {
    if initiator { 0 } else { 1 }
}

fn make_nonce(dir: u8, c: u64) -> (r: Vec<u8>)
    ensures
        r@ == nonce_bytes(dir, c),
{
    let mut v: Vec<u8> = Vec::new();
    v.push(dir);
    v.push(0);
    v.push(0);
    v.push(0);
    v.push(((c >> 56u64) & 0xffu64) as u8);
    v.push(((c >> 48u64) & 0xffu64) as u8);
    v.push(((c >> 40u64) & 0xffu64) as u8);
    v.push(((c >> 32u64) & 0xffu64) as u8);
    v.push(((c >> 24u64) & 0xffu64) as u8);
    v.push(((c >> 16u64) & 0xffu64) as u8);
    v.push(((c >> 8u64) & 0xffu64) as u8);
    v.push((c & 0xffu64) as u8);
    assert(v@ =~= nonce_bytes(dir, c));
    v
}

fn split_at(v: &[u8], k: usize) -> (r: (Vec<u8>, Vec<u8>))
    requires
        k <= v@.len(),
    ensures
        r.0@ == v@.subrange(0, k as int),
        r.1@ == v@.subrange(k as int, v@.len() as int),
{
    let mut a: Vec<u8> = Vec::new();
    let mut i: usize = 0;
    while i < k
        invariant
            k <= v@.len(),
            i <= k,
            a@ == v@.subrange(0, i as int),
        decreases k - i,
    {
        a.push(v[i]);
        assert(a@ =~= v@.subrange(0, i + 1));
        i += 1;
    }
    let mut b: Vec<u8> = Vec::new();
    let mut j: usize = k;
    while j < v.len()
        invariant
            k <= j <= v@.len(),
            b@ == v@.subrange(k as int, j as int),
        decreases v.len() - j,
    {
        b.push(v[j]);
        assert(b@ =~= v@.subrange(k as int, j + 1));
        j += 1;
    }
    (a, b)
}

/// The tunnel registry.
#[derive(Debug)]
pub struct TunnelManager {
    pub tunnels: Vec<IPSecTunnel>,
}

impl TunnelManager {
    /// Identifiers are unique, and a tunnel that can carry traffic holds
    /// derived keys.
    pub open spec fn wf(&self) -> bool {
        &&& forall|i: int, j: int| 0 <= i < self.tunnels@.len() && 0 <= j < self.tunnels@.len() && i != j
            ==> #[trigger] self.tunnels@[i].tunnel_id != #[trigger] self.tunnels@[j].tunnel_id
        &&& forall|i: int| 0 <= i < self.tunnels@.len() ==> (#[trigger] self.tunnels@[i]).ike_session.keys_derived()
    }

    /// Index of the tunnel with identifier `id`.
    pub open spec fn index_of(&self, id: u128) -> Option<int> {
        if exists|i: int| 0 <= i < self.tunnels@.len() && #[trigger] self.tunnels@[i].tunnel_id == id {
            Some(choose|i: int| 0 <= i < self.tunnels@.len() && #[trigger] self.tunnels@[i].tunnel_id == id)
        } else {
            None
        }
    }

    pub open spec fn has_tunnel(&self, id: u128) -> bool {
        self.index_of(id) is Some
    }

    /// The tunnel with identifier `id`; meaningful when `has_tunnel(id)`.
    pub open spec fn tunnel(&self, id: u128) -> IPSecTunnel {
        self.tunnels@[self.index_of(id)->Some_0]
    }

    pub fn new() -> (r: TunnelManager)
        ensures
            r.wf(),
            r.tunnels@.len() == 0,
    {
        TunnelManager { tunnels: Vec::new() }
    }

    fn find(&self, id: u128) -> (r: Option<usize>)
        requires
            self.wf(),
        ensures
            match r {
                Some(i) => i < self.tunnels@.len() && self.index_of(id) == Some(i as int)
                    && self.tunnels@[i as int].tunnel_id == id,
                None => self.index_of(id) is None,
            },
    {
        let mut i: usize = 0;
        while i < self.tunnels.len()
            invariant
                i <= self.tunnels@.len(),
                self.wf(),
                forall|j: int| 0 <= j < i ==> #[trigger] self.tunnels@[j].tunnel_id != id,
            decreases self.tunnels.len() - i,
        {
            if self.tunnels[i].tunnel_id == id {
                proof {
                    assert(self.tunnels@[i as int].tunnel_id == id);
                    let k = choose|k: int| 0 <= k < self.tunnels@.len() && #[trigger] self.tunnels@[k].tunnel_id == id;
                    if k != i {
                        assert(self.tunnels@[k].tunnel_id != self.tunnels@[i as int].tunnel_id);
                    }
                }
                return Some(i);
            }
            i += 1;
        }
        None
    }

    /// Registers a tunnel over an established session and returns its new
    /// identifier.
    pub fn create_tunnel(&mut self, local_addr: IpAddress, remote_addr: IpAddress, session: IKESession) -> (r: Result<u128, IKEError>)
        requires
            old(self).wf(),
            session.state == IKEState::Established ==> session.keys_derived(),
        ensures
            final(self).wf(),
            session.state != IKEState::Established ==> (r matches Err(e) && e is Protocol),
            r matches Ok(id) ==> !old(self).has_tunnel(id) && final(self).tunnels@.len() == old(self).tunnels@.len() + 1
                && final(self).tunnels@.subrange(0, old(self).tunnels@.len() as int) == old(self).tunnels@
                && final(self).has_tunnel(id)
                && final(self).tunnel(id).status == TunnelStatus::Established
                && final(self).tunnel(id).local_addr == local_addr
                && final(self).tunnel(id).remote_addr == remote_addr
                && final(self).tunnel(id).ike_session == session
                && final(self).tunnel(id).next_nonce == 0
                && final(self).tunnel(id).traffic_stats.bytes_in == 0
                && final(self).tunnel(id).traffic_stats.bytes_out == 0
                && final(self).tunnel(id).traffic_stats.packets_in == 0
                && final(self).tunnel(id).traffic_stats.packets_out == 0,
            r is Err ==> final(self).tunnels@ == old(self).tunnels@,
    {
        if !session.is_established() {
            return Err(IKEError::Protocol(String::from_str("session not established")));
        }
        let id = random_id();
        if self.find(id).is_some() {
            return Err(IKEError::Protocol(String::from_str("tunnel identifier in use")));
        }
        let tunnel = IPSecTunnel {
            tunnel_id: id,
            local_addr,
            remote_addr,
            ike_session: session,
            status: TunnelStatus::Established,
            traffic_stats: TrafficStats::new(),
            created_at: now_millis(),
            next_nonce: 0,
        };
        let ghost n = self.tunnels@.len() as int;
        self.tunnels.push(tunnel);
        proof {
            assert(self.tunnels@[n].tunnel_id == id);
            assert(self.tunnels@.subrange(0, n) =~= old(self).tunnels@);
            let k = self.index_of(id)->Some_0;
            assert(k == n);
        }
        Ok(id)
    }

    /// Removes the tunnel with identifier `id`, if there is one.
    pub fn close_tunnel(&mut self, id: u128) -> (r: Result<(), IKEError>)
        requires
            old(self).wf(),
        ensures
            final(self).wf(),
            r is Ok,
            !final(self).has_tunnel(id),
            old(self).has_tunnel(id) ==> final(self).tunnels@ == old(self).tunnels@.remove(old(self).index_of(id)->Some_0),
            !old(self).has_tunnel(id) ==> final(self).tunnels@ == old(self).tunnels@,
    {
        match self.find(id) {
            Some(i) => {
                let ghost before = self.tunnels@;
                let mut t = self.tunnels.remove(i);
                t.ike_session.close();
                t.status = TunnelStatus::Closed;
                proof {
                    assert forall|a: int, b: int| 0 <= a < self.tunnels@.len() && 0 <= b < self.tunnels@.len() && a != b
                        implies #[trigger] self.tunnels@[a].tunnel_id != #[trigger] self.tunnels@[b].tunnel_id by {
                        let ao = if a < i { a } else { a + 1 };
                        let bo = if b < i { b } else { b + 1 };
                        assert(self.tunnels@[a] == before[ao]);
                        assert(self.tunnels@[b] == before[bo]);
                    }
                    assert forall|a: int| 0 <= a < self.tunnels@.len() implies (#[trigger] self.tunnels@[a]).ike_session.keys_derived() by {
                        let ao = if a < i { a } else { a + 1 };
                        assert(self.tunnels@[a] == before[ao]);
                    }
                    if exists|k: int| 0 <= k < self.tunnels@.len() && #[trigger] self.tunnels@[k].tunnel_id == id {
                        let k = choose|k: int| 0 <= k < self.tunnels@.len() && #[trigger] self.tunnels@[k].tunnel_id == id;
                        let ko = if k < i { k } else { k + 1 };
                        assert(before[ko].tunnel_id == id);
                        assert(before[i as int].tunnel_id == id);
                    }
                }
                Ok(())
            },
            None => Ok(()),
        }
    }

    /// The tunnel with identifier `id`.
    pub fn get_tunnel(&self, id: u128) -> (r: Option<&IPSecTunnel>)
        requires
            self.wf(),
        ensures
            r is Some <==> self.has_tunnel(id),
            r matches Some(t) ==> *t == self.tunnel(id),
    {
        match self.find(id) {
            Some(i) => Some(&self.tunnels[i]),
            None => None,
        }
    }

    /// Identifiers of all tunnels, in registry order.
    pub fn list_tunnels(&self) -> (r: Vec<u128>)
        ensures
            r@.len() == self.tunnels@.len(),
            forall|i: int| 0 <= i < r@.len() ==> r@[i] == #[trigger] self.tunnels@[i].tunnel_id,
    {
        let mut r: Vec<u128> = Vec::new();
        let mut i: usize = 0;
        while i < self.tunnels.len()
            invariant
                i <= self.tunnels@.len(),
                r@.len() == i,
                forall|j: int| 0 <= j < i ==> r@[j] == #[trigger] self.tunnels@[j].tunnel_id,
            decreases self.tunnels.len() - i,
        {
            r.push(self.tunnels[i].tunnel_id);
            i += 1;
        }
        r
    }

    /// Traffic counters of the tunnel with identifier `id`.
    pub fn get_tunnel_stats(&self, id: u128) -> (r: Option<TrafficStats>)
        requires
            self.wf(),
        ensures
            r is Some <==> self.has_tunnel(id),
            r matches Some(s) ==> s == self.tunnel(id).traffic_stats,
    {
        match self.find(id) {
            Some(i) => Some(self.tunnels[i].traffic_stats),
            None => None,
        }
    }

    /// Replaces the tunnel at `i` by `t`, which keeps its identifier.
    fn replace(&mut self, i: usize, t: IPSecTunnel)
        requires
            old(self).wf(),
            i < old(self).tunnels@.len(),
            t.tunnel_id == old(self).tunnels@[i as int].tunnel_id,
            t.ike_session.keys_derived(),
        ensures
            final(self).wf(),
            final(self).tunnels@ == old(self).tunnels@.update(i as int, t),
            forall|id: u128| #[trigger] final(self).index_of(id) == old(self).index_of(id),
    {
        let ghost before = self.tunnels@;
        self.tunnels.set(i, t);
        proof {
            assert forall|id: u128| #[trigger] self.index_of(id) == old(self).index_of(id) by {
                if exists|k: int| 0 <= k < before.len() && #[trigger] before[k].tunnel_id == id {
                    let k = choose|k: int| 0 <= k < before.len() && #[trigger] before[k].tunnel_id == id;
                    assert(self.tunnels@[k].tunnel_id == id);
                    let a = self.index_of(id)->Some_0;
                    let b = old(self).index_of(id)->Some_0;
                    assert(self.tunnels@[a].tunnel_id == before[a].tunnel_id);
                }
                if exists|k: int| 0 <= k < self.tunnels@.len() && #[trigger] self.tunnels@[k].tunnel_id == id {
                    let k = choose|k: int| 0 <= k < self.tunnels@.len() && #[trigger] self.tunnels@[k].tunnel_id == id;
                    assert(before[k].tunnel_id == id);
                }
            }
        }
    }

    /// Seals `packet` for the peer. The tunnel must exist and be Established;
    /// the wire form is the 12-byte nonce followed by the sealed packet, and
    /// its whole length is counted as sent. The nonce counter moves on, so no
    /// nonce repeats under a key; an exhausted counter is a crypto error.
    pub fn send_packet(&mut self, id: u128, packet: &[u8]) -> (r: Result<Vec<u8>, IKEError>)
        requires
            old(self).wf(),
        ensures
            final(self).wf(),
            !old(self).has_tunnel(id) ==> (r matches Err(e) && e is Protocol),
            old(self).has_tunnel(id) && old(self).tunnel(id).status != TunnelStatus::Established
                ==> (r matches Err(e) && e is Protocol),
            old(self).has_tunnel(id) && old(self).tunnel(id).status == TunnelStatus::Established
                && old(self).tunnel(id).next_nonce < u64::MAX && packet@.len() <= MAX_AEAD_INPUT ==> r is Ok,
            r is Err ==> final(self).tunnels@ == old(self).tunnels@,
            r matches Ok(wire) ==> {
                let t = old(self).tunnel(id);
                let nonce = nonce_bytes(direction(t.ike_session.initiator), t.next_nonce);
                let sealed = aead_sealed(1, t.ike_session.encryption_key@, nonce, packet@);
                &&& wire@ == nonce + sealed
                &&& wire@.len() == NONCE_LEN + packet@.len() + 16
                &&& t.next_nonce < u64::MAX
                &&& final(self).has_tunnel(id)
                &&& final(self).tunnel(id).next_nonce == t.next_nonce + 1
                &&& final(self).tunnel(id).ike_session == t.ike_session
                &&& final(self).tunnel(id).status == t.status
                &&& final(self).tunnel(id).traffic_stats.bytes_out == sat_add(t.traffic_stats.bytes_out, wire@.len() as int)
                &&& final(self).tunnel(id).traffic_stats.packets_out == sat_add(t.traffic_stats.packets_out, 1)
                &&& final(self).tunnel(id).traffic_stats.bytes_in == t.traffic_stats.bytes_in
                &&& final(self).tunnel(id).traffic_stats.packets_in == t.traffic_stats.packets_in
                &&& final(self).tunnels@ == old(self).tunnels@.update(old(self).index_of(id)->Some_0, final(self).tunnel(id))
            },
    {
        let i = match self.find(id) {
            Some(i) => i,
            None => {
                return Err(IKEError::Protocol(String::from_str("tunnel not found")));
            },
        };
        if self.tunnels[i].status != TunnelStatus::Established {
            return Err(IKEError::Protocol(String::from_str("tunnel not established")));
        }
        let counter = self.tunnels[i].next_nonce;
        if counter == u64::MAX {
            return Err(IKEError::Crypto(String::from_str("nonce space exhausted; rekey")));
        }
        let dir: u8 = if self.tunnels[i].ike_session.initiator { 0 } else { 1 };
        let nonce = make_nonce(dir, counter);
        let crypto = IKECrypto::new();
        proof {
            assert(old(self).tunnels@[i as int].ike_session.keys_derived());
        }
        let sealed = crypto.encrypt(self.tunnels[i].ike_session.encryption_key.as_slice(), packet, nonce.as_slice())?;
        let mut wire = nonce;
        let mut k: usize = 0;
        let ghost n0 = wire@;
        while k < sealed.len()
            invariant
                k <= sealed@.len(),
                wire@ == n0 + sealed@.subrange(0, k as int),
            decreases sealed.len() - k,
        {
            wire.push(sealed[k]);
            assert(wire@ =~= n0 + sealed@.subrange(0, k + 1));
            k += 1;
        }
        assert(sealed@.subrange(0, sealed@.len() as int) =~= sealed@);
        let stats = self.tunnels[i].traffic_stats;
        let new_stats = TrafficStats {
            bytes_in: stats.bytes_in,
            bytes_out: saturating(stats.bytes_out, wire.len()),
            packets_in: stats.packets_in,
            packets_out: saturating(stats.packets_out, 1),
            last_activity: now_millis(),
        };
        let t = self.tunnels.remove(i);
        let updated = IPSecTunnel { traffic_stats: new_stats, next_nonce: counter + 1, ..t };
        self.tunnels.insert(i, updated);
        proof {
            assert(self.tunnels@ =~= old(self).tunnels@.update(i as int, updated));
            assert forall|a: int, b: int| 0 <= a < self.tunnels@.len() && 0 <= b < self.tunnels@.len() && a != b
                implies #[trigger] self.tunnels@[a].tunnel_id != #[trigger] self.tunnels@[b].tunnel_id by {
                assert(self.tunnels@[a].tunnel_id == old(self).tunnels@[a].tunnel_id);
                assert(self.tunnels@[b].tunnel_id == old(self).tunnels@[b].tunnel_id);
            }
            assert forall|a: int| 0 <= a < self.tunnels@.len() implies (#[trigger] self.tunnels@[a]).ike_session.keys_derived() by {
                assert(a != i ==> self.tunnels@[a] == old(self).tunnels@[a]);
            }
            assert(self.tunnels@[i as int].tunnel_id == id);
            let k2 = self.index_of(id)->Some_0;
            assert(self.tunnels@[k2].tunnel_id == id);
            assert(k2 == i);
        }
        Ok(wire)
    }

    /// Opens a packet from the peer: a 12-byte nonce, then the sealed data.
    /// The tunnel must exist and be Established. A packet shorter than a
    /// nonce is a crypto error; one that does not authenticate is refused
    /// with AuthenticationFailed. Neither counts as received; an accepted packet
    /// counts with its whole length.
    pub fn receive_packet(&mut self, id: u128, encrypted_packet: &[u8]) -> (r: Result<Vec<u8>, IKEError>)
        requires
            old(self).wf(),
        ensures
            final(self).wf(),
            !old(self).has_tunnel(id) ==> (r matches Err(e) && e is Protocol),
            old(self).has_tunnel(id) && old(self).tunnel(id).status != TunnelStatus::Established
                ==> (r matches Err(e) && e is Protocol),
            old(self).has_tunnel(id) && old(self).tunnel(id).status == TunnelStatus::Established
                && encrypted_packet@.len() < NONCE_LEN ==> (r matches Err(e) && e is Crypto),
            old(self).has_tunnel(id) && old(self).tunnel(id).status == TunnelStatus::Established
                && encrypted_packet@.len() >= NONCE_LEN ==> opened(
                    1,
                    old(self).tunnel(id).ike_session.encryption_key@,
                    encrypted_packet@.subrange(0, NONCE_LEN as int),
                    encrypted_packet@.subrange(NONCE_LEN as int, encrypted_packet@.len() as int),
                    match r { Ok(p) => Some(p@), Err(_) => None },
                ) && (r matches Err(e) ==> e is AuthenticationFailed),
            r is Err ==> final(self).tunnels@ == old(self).tunnels@,
            r is Ok ==> {
                let t = old(self).tunnel(id);
                &&& final(self).has_tunnel(id)
                &&& final(self).tunnel(id).next_nonce == t.next_nonce
                &&& final(self).tunnel(id).ike_session == t.ike_session
                &&& final(self).tunnel(id).status == t.status
                &&& final(self).tunnel(id).traffic_stats.bytes_in == sat_add(t.traffic_stats.bytes_in, encrypted_packet@.len() as int)
                &&& final(self).tunnel(id).traffic_stats.packets_in == sat_add(t.traffic_stats.packets_in, 1)
                &&& final(self).tunnel(id).traffic_stats.bytes_out == t.traffic_stats.bytes_out
                &&& final(self).tunnel(id).traffic_stats.packets_out == t.traffic_stats.packets_out
                &&& final(self).tunnels@ == old(self).tunnels@.update(old(self).index_of(id)->Some_0, final(self).tunnel(id))
            },
    {
        let i = match self.find(id) {
            Some(i) => i,
            None => {
                return Err(IKEError::Protocol(String::from_str("tunnel not found")));
            },
        };
        if self.tunnels[i].status != TunnelStatus::Established {
            return Err(IKEError::Protocol(String::from_str("tunnel not established")));
        }
        if encrypted_packet.len() < NONCE_LEN {
            return Err(IKEError::Crypto(String::from_str("packet too short")));
        }
        let (nonce, sealed) = split_at(encrypted_packet, NONCE_LEN);
        let crypto = IKECrypto::new();
        proof {
            assert(old(self).tunnels@[i as int].ike_session.keys_derived());
        }
        let plain = match crypto.decrypt(self.tunnels[i].ike_session.encryption_key.as_slice(), sealed.as_slice(), nonce.as_slice()) {
            Ok(p) => p,
            Err(_) => {
                return Err(IKEError::AuthenticationFailed);
            },
        };
        let stats = self.tunnels[i].traffic_stats;
        let new_stats = TrafficStats {
            bytes_in: saturating(stats.bytes_in, encrypted_packet.len()),
            bytes_out: stats.bytes_out,
            packets_in: saturating(stats.packets_in, 1),
            packets_out: stats.packets_out,
            last_activity: now_millis(),
        };
        let t = self.tunnels.remove(i);
        let updated = IPSecTunnel { traffic_stats: new_stats, ..t };
        self.tunnels.insert(i, updated);
        proof {
            assert(self.tunnels@ =~= old(self).tunnels@.update(i as int, updated));
            assert forall|a: int, b: int| 0 <= a < self.tunnels@.len() && 0 <= b < self.tunnels@.len() && a != b
                implies #[trigger] self.tunnels@[a].tunnel_id != #[trigger] self.tunnels@[b].tunnel_id by {
                assert(self.tunnels@[a].tunnel_id == old(self).tunnels@[a].tunnel_id);
                assert(self.tunnels@[b].tunnel_id == old(self).tunnels@[b].tunnel_id);
            }
            assert forall|a: int| 0 <= a < self.tunnels@.len() implies (#[trigger] self.tunnels@[a]).ike_session.keys_derived() by {
                assert(a != i ==> self.tunnels@[a] == old(self).tunnels@[a]);
            }
            assert(self.tunnels@[i as int].tunnel_id == id);
            let k2 = self.index_of(id)->Some_0;
            assert(self.tunnels@[k2].tunnel_id == id);
            assert(k2 == i);
        }
        Ok(plain)
    }

    /// Marks the tunnel with identifier `id` Failed; nothing happens when
    /// there is none.
    pub fn mark_failed(&mut self, id: u128)
        requires
            old(self).wf(),
        ensures
            final(self).wf(),
            old(self).has_tunnel(id) ==> final(self).tunnels@ == old(self).tunnels@.update(
                old(self).index_of(id)->Some_0,
                IPSecTunnel { status: TunnelStatus::Failed, ..old(self).tunnel(id) },
            ),
            !old(self).has_tunnel(id) ==> final(self).tunnels@ == old(self).tunnels@,
    {
        match self.find(id) {
            Some(i) => {
                let t = self.tunnels.remove(i);
                self.tunnels.insert(i, IPSecTunnel { status: TunnelStatus::Failed, ..t });
                proof {
                    assert(self.tunnels@ =~= old(self).tunnels@.update(i as int, IPSecTunnel { status: TunnelStatus::Failed, ..old(self).tunnels@[i as int] }));
                    assert forall|a: int, b: int| 0 <= a < self.tunnels@.len() && 0 <= b < self.tunnels@.len() && a != b
                        implies #[trigger] self.tunnels@[a].tunnel_id != #[trigger] self.tunnels@[b].tunnel_id by {
                        assert(self.tunnels@[a].tunnel_id == old(self).tunnels@[a].tunnel_id);
                        assert(self.tunnels@[b].tunnel_id == old(self).tunnels@[b].tunnel_id);
                    }
                    assert forall|a: int| 0 <= a < self.tunnels@.len() implies (#[trigger] self.tunnels@[a]).ike_session.keys_derived() by {
                        assert(self.tunnels@[a].ike_session == old(self).tunnels@[a].ike_session);
                    }
                }
            },
            None => {},
        }
    }

    /// Removes every tunnel whose status is Failed, keeping the others in order.
    pub fn cleanup_failed_tunnels(&mut self)
        requires
            old(self).wf(),
        ensures
            final(self).wf(),
            forall|t: IPSecTunnel| #[trigger] final(self).tunnels@.contains(t) <==>
                (old(self).tunnels@.contains(t) && t.status != TunnelStatus::Failed),
    {
        let mut kept: Vec<IPSecTunnel> = Vec::new();
        let ghost all = self.tunnels@;
        while self.tunnels.len() > 0
            invariant
                forall|t: IPSecTunnel| #[trigger] kept@.contains(t) ==> all.contains(t) && t.status != TunnelStatus::Failed,
                forall|k: int| 0 <= k < self.tunnels@.len() ==> all.contains(#[trigger] self.tunnels@[k]),
                forall|t: IPSecTunnel| all.contains(t) && t.status != TunnelStatus::Failed
                    ==> #[trigger] kept@.contains(t) || self.tunnels@.contains(t),
                forall|a: int, b: int| 0 <= a < kept@.len() && 0 <= b < kept@.len() && a != b
                    ==> #[trigger] kept@[a].tunnel_id != #[trigger] kept@[b].tunnel_id,
                forall|a: int, b: int| 0 <= a < kept@.len() && 0 <= b < self.tunnels@.len()
                    ==> #[trigger] kept@[a].tunnel_id != #[trigger] self.tunnels@[b].tunnel_id,
                forall|a: int, b: int| 0 <= a < self.tunnels@.len() && 0 <= b < self.tunnels@.len() && a != b
                    ==> #[trigger] self.tunnels@[a].tunnel_id != #[trigger] self.tunnels@[b].tunnel_id,
                forall|a: int| 0 <= a < kept@.len() ==> (#[trigger] kept@[a]).ike_session.keys_derived(),
                forall|a: int| 0 <= a < self.tunnels@.len() ==> (#[trigger] self.tunnels@[a]).ike_session.keys_derived(),
            decreases self.tunnels@.len(),
        {
            let ghost before = self.tunnels@;
            let ghost kept_before = kept@;
            let t = self.tunnels.remove(0);
            assert(before[0] == t);
            proof {
                assert forall|k: int| 0 <= k < self.tunnels@.len() implies self.tunnels@[k] == before[k + 1] by {}
            }
            if t.status != TunnelStatus::Failed {
                kept.push(t);
                proof {
                    assert(kept@[kept@.len() - 1] == t);
                    assert forall|u: IPSecTunnel| #[trigger] kept@.contains(u) implies all.contains(u) && u.status != TunnelStatus::Failed by {
                        let j = choose|j: int| 0 <= j < kept@.len() && kept@[j] == u;
                        if j < kept_before.len() {
                            assert(kept_before[j] == u);
                            assert(kept_before.contains(u));
                        }
                    }
                    assert forall|u: IPSecTunnel| all.contains(u) && u.status != TunnelStatus::Failed
                        implies #[trigger] kept@.contains(u) || self.tunnels@.contains(u) by {
                        if kept_before.contains(u) {
                            let j = choose|j: int| 0 <= j < kept_before.len() && kept_before[j] == u;
                            assert(kept@[j] == u);
                        } else {
                            assert(before.contains(u));
                            let j = choose|j: int| 0 <= j < before.len() && before[j] == u;
                            if j == 0 {
                                assert(kept@[kept@.len() - 1] == u);
                            } else {
                                assert(self.tunnels@[j - 1] == u);
                            }
                        }
                    }
                    assert forall|a: int, b: int| 0 <= a < kept@.len() && 0 <= b < kept@.len() && a != b
                        implies #[trigger] kept@[a].tunnel_id != #[trigger] kept@[b].tunnel_id by {
                        if a < kept_before.len() && b < kept_before.len() {
                            assert(kept@[a] == kept_before[a]);
                            assert(kept@[b] == kept_before[b]);
                        } else if a < kept_before.len() {
                            assert(kept@[a] == kept_before[a]);
                            assert(kept_before[a].tunnel_id != before[0].tunnel_id);
                        } else if b < kept_before.len() {
                            assert(kept@[b] == kept_before[b]);
                            assert(kept_before[b].tunnel_id != before[0].tunnel_id);
                        }
                    }
                    assert forall|a: int, b: int| 0 <= a < kept@.len() && 0 <= b < self.tunnels@.len()
                        implies #[trigger] kept@[a].tunnel_id != #[trigger] self.tunnels@[b].tunnel_id by {
                        assert(self.tunnels@[b] == before[b + 1]);
                        if a < kept_before.len() {
                            assert(kept@[a] == kept_before[a]);
                            assert(kept_before[a].tunnel_id != before[b + 1].tunnel_id);
                        } else {
                            assert(before[0].tunnel_id != before[b + 1].tunnel_id);
                        }
                    }
                    assert forall|a: int| 0 <= a < kept@.len() implies (#[trigger] kept@[a]).ike_session.keys_derived() by {
                        if a < kept_before.len() {
                            assert(kept@[a] == kept_before[a]);
                        }
                    }
                }
            } else {
                proof {
                    assert forall|u: IPSecTunnel| all.contains(u) && u.status != TunnelStatus::Failed
                        implies #[trigger] kept@.contains(u) || self.tunnels@.contains(u) by {
                        if !kept_before.contains(u) {
                            let j = choose|j: int| 0 <= j < before.len() && before[j] == u;
                            assert(j != 0);
                            assert(self.tunnels@[j - 1] == u);
                        }
                    }
                    assert forall|a: int, b: int| 0 <= a < kept@.len() && 0 <= b < self.tunnels@.len()
                        implies #[trigger] kept@[a].tunnel_id != #[trigger] self.tunnels@[b].tunnel_id by {
                        assert(self.tunnels@[b] == before[b + 1]);
                    }
                }
            }
        }
        self.tunnels = kept;
    }

    /// Starts a rekey of the tunnel with identifier `id`: the tunnel goes to
    /// Rekeying and the returned request goes to the peer. The old keys stay
    /// in force until `finish_rekey` installs the new ones.
    pub fn rekey_tunnel(&mut self, id: u128) -> (r: Result<IKEMessage, IKEError>)
        requires
            old(self).wf(),
        ensures
            final(self).wf(),
            !old(self).has_tunnel(id) ==> (r matches Err(e) && e is Protocol),
            old(self).has_tunnel(id) && old(self).tunnel(id).status != TunnelStatus::Established ==> r is Err,
            r is Ok ==> final(self).has_tunnel(id) && final(self).tunnel(id).status == TunnelStatus::Rekeying
                && final(self).tunnel(id).ike_session.encryption_key == old(self).tunnel(id).ike_session.encryption_key,
            r is Err ==> final(self).tunnels@ == old(self).tunnels@,
    {
        let i = match self.find(id) {
            Some(i) => i,
            None => {
                return Err(IKEError::Protocol(String::from_str("tunnel not found")));
            },
        };
        if self.tunnels[i].status != TunnelStatus::Established || self.tunnels[i].ike_session.state != IKEState::Established {
            return Err(IKEError::Protocol(String::from_str("tunnel not established")));
        }
        let mut t = self.tunnels.remove(i);
        proof {
            assert(old(self).tunnels@[i as int] == t);
        }
        match t.ike_session.begin_rekey() {
            Ok(m) => {
                t.status = TunnelStatus::Rekeying;
                self.tunnels.insert(i, t);
                proof {
                    assert(self.tunnels@ =~= old(self).tunnels@.update(i as int, t));
                    assert forall|a: int, b: int| 0 <= a < self.tunnels@.len() && 0 <= b < self.tunnels@.len() && a != b
                        implies #[trigger] self.tunnels@[a].tunnel_id != #[trigger] self.tunnels@[b].tunnel_id by {
                        assert(self.tunnels@[a].tunnel_id == old(self).tunnels@[a].tunnel_id);
                        assert(self.tunnels@[b].tunnel_id == old(self).tunnels@[b].tunnel_id);
                    }
                    assert(self.tunnels@[i as int].tunnel_id == id);
                    let k2 = self.index_of(id)->Some_0;
                    assert(self.tunnels@[k2].tunnel_id == id);
                    assert(k2 == i);
                }
                Ok(m)
            },
            Err(e) => {
                self.tunnels.insert(i, t);
                assert(self.tunnels@ =~= old(self).tunnels@);
                Err(e)
            },
        }
    }

    /// Installs the new keys of a rekey this end started: the nonce counter
    /// restarts under the new key. The tunnel is Established again either
    /// way; on failure the old keys stay in force.
    pub fn finish_rekey(&mut self, id: u128, response: &IKEMessage) -> (r: Result<(), IKEError>)
        requires
            old(self).wf(),
        ensures
            final(self).wf(),
            !old(self).has_tunnel(id) ==> (r matches Err(e) && e is Protocol) && final(self).tunnels@ == old(self).tunnels@,
            old(self).has_tunnel(id) && old(self).tunnel(id).status != TunnelStatus::Rekeying
                ==> (r matches Err(e) && e is Protocol) && final(self).tunnels@ == old(self).tunnels@,
            old(self).has_tunnel(id) && old(self).tunnel(id).status == TunnelStatus::Rekeying
                ==> final(self).has_tunnel(id) && final(self).tunnel(id).status == TunnelStatus::Established,
            r is Ok ==> final(self).tunnel(id).next_nonce == 0,
    {
        let i = match self.find(id) {
            Some(i) => i,
            None => {
                return Err(IKEError::Protocol(String::from_str("tunnel not found")));
            },
        };
        if self.tunnels[i].status != TunnelStatus::Rekeying {
            return Err(IKEError::Protocol(String::from_str("no rekey in progress")));
        }
        let mut t = self.tunnels.remove(i);
        proof {
            assert(old(self).tunnels@[i as int] == t);
        }
        let r = t.ike_session.complete_rekey(response);
        if r.is_ok() {
            t.next_nonce = 0;
        }
        t.status = TunnelStatus::Established;
        self.tunnels.insert(i, t);
        proof {
            assert(self.tunnels@ =~= old(self).tunnels@.update(i as int, t));
            assert forall|a: int, b: int| 0 <= a < self.tunnels@.len() && 0 <= b < self.tunnels@.len() && a != b
                implies #[trigger] self.tunnels@[a].tunnel_id != #[trigger] self.tunnels@[b].tunnel_id by {
                assert(self.tunnels@[a].tunnel_id == old(self).tunnels@[a].tunnel_id);
                assert(self.tunnels@[b].tunnel_id == old(self).tunnels@[b].tunnel_id);
            }
            assert(self.tunnels@[i as int].tunnel_id == id);
            let k2 = self.index_of(id)->Some_0;
            assert(self.tunnels@[k2].tunnel_id == id);
            assert(k2 == i);
        }
        r
    }

    /// Answers a rekey the peer started: the new keys are installed at once
    /// and the nonce counter restarts under them. On failure nothing changes.
    pub fn answer_rekey(&mut self, id: u128, request: &IKEMessage) -> (r: Result<IKEMessage, IKEError>)
        requires
            old(self).wf(),
        ensures
            final(self).wf(),
            !old(self).has_tunnel(id) ==> (r matches Err(e) && e is Protocol),
            old(self).has_tunnel(id) && old(self).tunnel(id).status != TunnelStatus::Established ==> r is Err,
            r is Err ==> final(self).tunnels@ == old(self).tunnels@,
            r is Ok ==> final(self).has_tunnel(id) && final(self).tunnel(id).status == TunnelStatus::Established
                && final(self).tunnel(id).next_nonce == 0,
    {
        let i = match self.find(id) {
            Some(i) => i,
            None => {
                return Err(IKEError::Protocol(String::from_str("tunnel not found")));
            },
        };
        if self.tunnels[i].status != TunnelStatus::Established {
            return Err(IKEError::Protocol(String::from_str("tunnel not established")));
        }
        let mut t = self.tunnels.remove(i);
        proof {
            assert(old(self).tunnels@[i as int] == t);
        }
        match t.ike_session.respond_rekey(request) {
            Ok(m) => {
                t.next_nonce = 0;
                self.tunnels.insert(i, t);
                proof {
                    assert(self.tunnels@ =~= old(self).tunnels@.update(i as int, t));
                    assert forall|a: int, b: int| 0 <= a < self.tunnels@.len() && 0 <= b < self.tunnels@.len() && a != b
                        implies #[trigger] self.tunnels@[a].tunnel_id != #[trigger] self.tunnels@[b].tunnel_id by {
                        assert(self.tunnels@[a].tunnel_id == old(self).tunnels@[a].tunnel_id);
                        assert(self.tunnels@[b].tunnel_id == old(self).tunnels@[b].tunnel_id);
                    }
                    assert(self.tunnels@[i as int].tunnel_id == id);
                    let k2 = self.index_of(id)->Some_0;
                    assert(self.tunnels@[k2].tunnel_id == id);
                    assert(k2 == i);
                }
                Ok(m)
            },
            Err(e) => {
                self.tunnels.insert(i, t);
                assert(self.tunnels@ =~= old(self).tunnels@);
                Err(e)
            },
        }
    }
}

/// A packet sealed by `send_packet` under a key opens under the same key in
/// `receive_packet` to the packet that was sent.
pub proof fn lemma_tunnel_round_trip(key: Seq<u8>, dir: u8, counter: u64, packet: Seq<u8>, wire: Seq<u8>, r: Option<Seq<u8>>)
    requires
        wire == nonce_bytes(dir, counter) + aead_sealed(1, key, nonce_bytes(dir, counter), packet),
        opened(1, key, wire.subrange(0, NONCE_LEN as int), wire.subrange(NONCE_LEN as int, wire.len() as int), r),
    ensures
        r == Some(packet),
{
    let nonce = nonce_bytes(dir, counter);
    let sealed = aead_sealed(1, key, nonce, packet);
    assert(wire.subrange(0, NONCE_LEN as int) =~= nonce);
    assert(wire.subrange(NONCE_LEN as int, wire.len() as int) =~= sealed);
}

/// No nonce repeats under a key: nonces of different counters differ, and
/// so do nonces of the two directions.
pub proof fn lemma_nonces_distinct(d1: u8, c1: u64, d2: u8, c2: u64)
    requires
        d1 != d2 || c1 != c2,
    ensures
        nonce_bytes(d1, c1) != nonce_bytes(d2, c2),
{
    if nonce_bytes(d1, c1) == nonce_bytes(d2, c2) {
        assert(nonce_bytes(d1, c1)[0] == nonce_bytes(d2, c2)[0]);
        assert(nonce_bytes(d1, c1)[4] == nonce_bytes(d2, c2)[4]);
        assert(nonce_bytes(d1, c1)[5] == nonce_bytes(d2, c2)[5]);
        assert(nonce_bytes(d1, c1)[6] == nonce_bytes(d2, c2)[6]);
        assert(nonce_bytes(d1, c1)[7] == nonce_bytes(d2, c2)[7]);
        assert(nonce_bytes(d1, c1)[8] == nonce_bytes(d2, c2)[8]);
        assert(nonce_bytes(d1, c1)[9] == nonce_bytes(d2, c2)[9]);
        assert(nonce_bytes(d1, c1)[10] == nonce_bytes(d2, c2)[10]);
        assert(nonce_bytes(d1, c1)[11] == nonce_bytes(d2, c2)[11]);
        assert(
            ((c1 >> 56u64) & 0xffu64) as u8 == ((c2 >> 56u64) & 0xffu64) as u8
            && ((c1 >> 48u64) & 0xffu64) as u8 == ((c2 >> 48u64) & 0xffu64) as u8
            && ((c1 >> 40u64) & 0xffu64) as u8 == ((c2 >> 40u64) & 0xffu64) as u8
            && ((c1 >> 32u64) & 0xffu64) as u8 == ((c2 >> 32u64) & 0xffu64) as u8
            && ((c1 >> 24u64) & 0xffu64) as u8 == ((c2 >> 24u64) & 0xffu64) as u8
            && ((c1 >> 16u64) & 0xffu64) as u8 == ((c2 >> 16u64) & 0xffu64) as u8
            && ((c1 >> 8u64) & 0xffu64) as u8 == ((c2 >> 8u64) & 0xffu64) as u8
            && (c1 & 0xffu64) as u8 == (c2 & 0xffu64) as u8
            ==> c1 == c2
        ) by (bit_vector);
    }
}

} // verus!
