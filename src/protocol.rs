//! Peering wire records and their framing: each record travels as a 32-bit
//! big-endian length followed by the payload, at most 65,536 bytes.
use vstd::prelude::*;
use crate::addr::{IpAddress, Prefix};
use crate::rib::{BGPOrigin, RouteEntry, copy_vec};
use crate::session::{BGPSession, BGPSessionState, SessionEvent};
use crate::tier::NodeTier;

verus! {

/// Largest payload a frame may carry.
pub const MAX_MESSAGE_SIZE: u32 = 65536;

/// Kind of a peering record.
#[derive(Debug, Clone, Copy, PartialEq, Eq, Structural)]
pub enum BGPMessageType {
    Open,
    Update,
    Keepalive,
    Notification,
}

/// A route as carried on the wire.
#[derive(Debug)]
pub struct BGPRoute {
    pub network: Prefix,
    pub next_hop: IpAddress,
    pub as_path: Vec<u32>,
    pub origin: BGPOrigin,
    pub local_pref: u32,
    pub med: u32,
}

/// A peering record.
#[derive(Debug)]
pub struct BGPMessage {
    pub message_type: BGPMessageType,
    pub asn: u32,
    pub router_id: IpAddress,
    pub routes: Vec<BGPRoute>,
    /// Milliseconds since the Unix epoch.
    pub timestamp: i64,
}

/// Errors of the peering layer.
#[derive(Debug)]
pub enum BGPError {
    Connection(String),
    Protocol(String),
    Configuration(String),
    Route(String),
    IO(String),
    Serialization(String),
}

/// Outcome of looking for one frame at the start of a buffer.
#[derive(Debug, PartialEq, Eq)]
pub enum FrameStatus {
    /// The buffer does not hold a whole frame yet.
    Incomplete,
    /// A whole frame: its payload starts at byte 4 and is `len` bytes long.
    Complete { len: u32 },
}

/// Big-endian value of four bytes.
pub open spec fn be32(b0: u8, b1: u8, b2: u8, b3: u8) -> int {
    b0 as int * 0x1000000 + b1 as int * 0x10000 + b2 as int * 0x100 + b3 as int
}

/// The frame that carries `payload`.
pub open spec fn spec_frame(payload: Seq<u8>) -> Seq<u8> {
    seq![
        (payload.len() / 0x1000000) as u8,
        ((payload.len() / 0x10000) % 0x100) as u8,
        ((payload.len() / 0x100) % 0x100) as u8,
        (payload.len() % 0x100) as u8,
    ] + payload
}

/// Frames `payload`; fails with a protocol error when it is over the size limit.
pub fn encode_frame(payload: &Vec<u8>) -> (r: Result<Vec<u8>, BGPError>)
    ensures
        r is Err <==> payload@.len() > MAX_MESSAGE_SIZE,
        r matches Err(e) ==> e is Protocol,
        r matches Ok(f) ==> f@ == spec_frame(payload@),
{
    if payload.len() > 65536 {
        return Err(BGPError::Protocol(String::from_str("message too large")));
    }
    let n = payload.len() as u32;
    let mut out: Vec<u8> = Vec::new();
    out.push((n / 0x1000000) as u8);
    out.push(((n / 0x10000) % 0x100) as u8);
    out.push(((n / 0x100) % 0x100) as u8);
    out.push((n % 0x100) as u8);
    let mut i: usize = 0;
    while i < payload.len()
        invariant
            i <= payload@.len(),
            n as int == payload@.len(),
            out@.len() == 4 + i,
            out@.subrange(0, 4) == spec_frame(payload@).subrange(0, 4),
            forall|j: int| 0 <= j < i ==> out@[4 + j] == payload@[j],
        decreases payload.len() - i,
    {
        out.push(payload[i]);
        i += 1;
    }
    proof {
        let f = spec_frame(payload@);
        assert forall|j: int| 0 <= j < out@.len() implies out@[j] == f[j] by {
            if j < 4 {
                assert(out@.subrange(0, 4)[j] == f.subrange(0, 4)[j]);
            } else {
                assert(out@[4 + (j - 4)] == payload@[j - 4]);
            }
        }
        assert(out@ =~= f);
    }
    Ok(out)
}

/// Looks for a frame at the start of `buf`. A declared length over the limit
/// is a protocol error.
pub fn check_frame(buf: &Vec<u8>) -> (r: Result<FrameStatus, BGPError>)
    ensures
        buf@.len() < 4 ==> r == Ok::<FrameStatus, BGPError>(FrameStatus::Incomplete),
        buf@.len() >= 4 ==> {
            let n = be32(buf@[0], buf@[1], buf@[2], buf@[3]);
            &&& (r is Err <==> n > MAX_MESSAGE_SIZE)
            &&& (r matches Err(e) ==> e is Protocol)
            &&& (n <= MAX_MESSAGE_SIZE && buf@.len() < 4 + n ==> r == Ok::<FrameStatus, BGPError>(FrameStatus::Incomplete))
            &&& (n <= MAX_MESSAGE_SIZE && buf@.len() >= 4 + n ==> r == Ok::<FrameStatus, BGPError>(FrameStatus::Complete { len: n as u32 }))
        },
{
    if buf.len() < 4 {
        return Ok(FrameStatus::Incomplete);
    }
    let n: u64 = (buf[0] as u64) * 0x1000000 + (buf[1] as u64) * 0x10000 + (buf[2] as u64) * 0x100 + (buf[3] as u64);
    if n > 65536 {
        return Err(BGPError::Protocol(String::from_str("message too large")));
    }
    if (buf.len() as u64) < 4 + n {
        Ok(FrameStatus::Incomplete)
    } else {
        Ok(FrameStatus::Complete { len: n as u32 })
    }
}

/// The payload of a whole frame at the start of `buf`, and the bytes after it.
pub fn split_frame(buf: &Vec<u8>) -> (r: Result<Option<(Vec<u8>, Vec<u8>)>, BGPError>)
    ensures
        buf@.len() < 4 ==> r matches Ok(None),
        buf@.len() >= 4 ==> {
            let n = be32(buf@[0], buf@[1], buf@[2], buf@[3]);
            &&& (r is Err <==> n > MAX_MESSAGE_SIZE)
            &&& (r matches Err(e) ==> e is Protocol)
            &&& (n <= MAX_MESSAGE_SIZE && buf@.len() < 4 + n ==> r matches Ok(None))
            &&& (n <= MAX_MESSAGE_SIZE && buf@.len() >= 4 + n ==> (r matches Ok(Some((p, rest)))
                && p@ == buf@.subrange(4, 4 + n) && rest@ == buf@.subrange(4 + n, buf@.len() as int)))
        },
{
    match check_frame(buf) {
        Err(e) => Err(e),
        Ok(FrameStatus::Incomplete) => Ok(None),
        Ok(FrameStatus::Complete { len }) => {
            let end: usize = 4 + len as usize;
            let mut payload: Vec<u8> = Vec::new();
            let mut i: usize = 4;
            while i < end
                invariant
                    4 <= i <= end <= buf@.len(),
                    payload@ == buf@.subrange(4, i as int),
                decreases end - i,
            {
                payload.push(buf[i]);
                assert(payload@ =~= buf@.subrange(4, i + 1));
                i += 1;
            }
            let mut rest: Vec<u8> = Vec::new();
            let mut k: usize = end;
            while k < buf.len()
                invariant
                    end <= k <= buf@.len(),
                    rest@ == buf@.subrange(end as int, k as int),
                decreases buf.len() - k,
            {
                rest.push(buf[k]);
                assert(rest@ =~= buf@.subrange(end as int, k + 1));
                k += 1;
            }
            Ok(Some((payload, rest)))
        },
    }
}

impl BGPRoute {
    /// The wire form of a stored route.
    pub fn from_entry(e: &RouteEntry) -> (r: BGPRoute)
        ensures
            r.network == e.network,
            r.next_hop == e.next_hop,
            r.as_path@ == e.as_path@,
            r.origin == e.origin,
            r.local_pref == e.local_pref,
            r.med == e.med,
    {
        BGPRoute {
            network: e.network,
            next_hop: e.next_hop,
            as_path: copy_vec(&e.as_path),
            origin: e.origin,
            local_pref: e.local_pref,
            med: e.med,
        }
    }
}

/// The event a received record is for a session.
pub fn event_for(message_type: BGPMessageType) -> (r: SessionEvent)
    ensures
        r == match message_type {
            BGPMessageType::Open => SessionEvent::OpenReceived { valid: true },
            BGPMessageType::Update => SessionEvent::UpdateReceived,
            BGPMessageType::Keepalive => SessionEvent::KeepaliveReceived,
            BGPMessageType::Notification => SessionEvent::TransportError,
        },
{
    match message_type {
        BGPMessageType::Open => SessionEvent::OpenReceived { valid: true },
        BGPMessageType::Update => SessionEvent::UpdateReceived,
        BGPMessageType::Keepalive => SessionEvent::KeepaliveReceived,
        BGPMessageType::Notification => SessionEvent::TransportError,
    }
}

/// What one end of the peering protocol says about itself.
#[derive(Debug, Clone, Copy)]
pub struct BGPProtocol {
    pub local_asn: u32,
    pub router_id: IpAddress,
    pub tier: NodeTier,
}

impl BGPProtocol {
    pub fn new(local_asn: u32, router_id: IpAddress, tier: NodeTier) -> (r: BGPProtocol)
        ensures
            r.local_asn == local_asn,
            r.router_id == router_id,
            r.tier == tier,
    {
        BGPProtocol { local_asn, router_id, tier }
    }

    /// A record of type `message_type` from this end, carrying no routes.
    pub fn message(&self, message_type: BGPMessageType, timestamp: i64) -> (r: BGPMessage)
        ensures
            r.message_type == message_type,
            r.asn == self.local_asn,
            r.router_id == self.router_id,
            r.routes@.len() == 0,
            r.timestamp == timestamp,
    {
        BGPMessage { message_type, asn: self.local_asn, router_id: self.router_id, routes: Vec::new(), timestamp }
    }

    /// An Update record announcing `routes`.
    pub fn update_message(&self, routes: &Vec<RouteEntry>, timestamp: i64) -> (r: BGPMessage)
        ensures
            r.message_type == BGPMessageType::Update,
            r.asn == self.local_asn,
            r.router_id == self.router_id,
            r.routes@.len() == routes@.len(),
            forall|i: int| 0 <= i < routes@.len() ==> (#[trigger] r.routes@[i]).network == routes@[i].network
                && r.routes@[i].as_path@ == routes@[i].as_path@ && r.routes@[i].next_hop == routes@[i].next_hop
                && r.routes@[i].origin == routes@[i].origin && r.routes@[i].local_pref == routes@[i].local_pref
                && r.routes@[i].med == routes@[i].med,
    {
        let mut out: Vec<BGPRoute> = Vec::new();
        let mut i: usize = 0;
        while i < routes.len()
            invariant
                i <= routes@.len(),
                out@.len() == i,
                forall|j: int| 0 <= j < i ==> (#[trigger] out@[j]).network == routes@[j].network
                    && out@[j].as_path@ == routes@[j].as_path@ && out@[j].next_hop == routes@[j].next_hop
                    && out@[j].origin == routes@[j].origin && out@[j].local_pref == routes@[j].local_pref
                    && out@[j].med == routes@[j].med,
            decreases routes.len() - i,
        {
            out.push(BGPRoute::from_entry(&routes[i]));
            i += 1;
        }
        BGPMessage { message_type: BGPMessageType::Update, asn: self.local_asn, router_id: self.router_id, routes: out, timestamp }
    }

    /// Checks the peer's answer to our Open: only an Open is accepted, and it
    /// yields a session with the ASN the peer announced.
    pub fn accept_open_response(&self, peer_ip: IpAddress, response: &BGPMessage) -> (r: Result<BGPSession, BGPError>)
        ensures
            r is Err <==> response.message_type != BGPMessageType::Open,
            r matches Err(e) ==> e is Protocol,
            r matches Ok(s) ==> s.wf() && s.local_asn == self.local_asn && s.peer_asn == response.asn
                && s.peer_ip == peer_ip && s.state == BGPSessionState::Idle,
    {
        match response.message_type {
            BGPMessageType::Open => Ok(BGPSession::new(self.local_asn, response.asn, peer_ip)),
            _ => Err(BGPError::Protocol(String::from_str("invalid open response"))),
        }
    }
}

} // verus!
