//! Peering session: the per-peer state machine and how a received update
//! changes the route table.
use vstd::prelude::*;
use crate::addr::{IpAddress, Prefix};
use crate::policy::{RoutingPolicy, spec_accept, vec_contains};
use crate::protocol::{BGPError, BGPMessageType, BGPRoute, event_for};
use crate::rib::{RouteEntry, RouteModel, RouteTable, added, removed, bumped, set_add, set_remove, lemma_added_set, lemma_removed_set};

verus! {

#[derive(Debug, Clone, Copy, PartialEq, Eq, Structural)]
pub enum BGPSessionState {
    Idle,
    Connect,
    Active,
    OpenSent,
    OpenConfirm,
    Established,
}

/// What happened to a session.
#[derive(Debug, Clone, Copy, PartialEq, Eq, Structural)]
pub enum SessionEvent {
    /// Start and wait for the peer to open.
    StartPassive,
    /// Start and connect to the peer.
    StartActive,
    /// The outbound connection is up.
    ConnectionOk,
    /// An Open arrived; `valid` tells whether it passed its checks.
    OpenReceived { valid: bool },
    KeepaliveReceived,
    UpdateReceived,
    /// Nothing arrived for the hold time.
    HoldTimerExpired,
    /// The local side closes the session.
    Close,
    /// The transport failed or the peer broke the protocol.
    TransportError,
}

/// What the driver of a session must do next.
#[derive(Debug, Clone, Copy, PartialEq, Eq, Structural)]
pub enum SessionAction {
    Nothing,
    AwaitOpen,
    InitiateConnection,
    SendOpen,
    SendKeepalive,
    StartKeepaliveTimer,
    ApplyUpdate,
    /// Send a hold-timer-expired notification, then close.
    NotifyHoldTimerExpired,
    /// Send a cease notification, then close.
    NotifyCease,
    /// Close the connection.
    CloseConnection,
}

/// The transition table.
pub open spec fn spec_step(s: BGPSessionState, e: SessionEvent) -> (BGPSessionState, SessionAction) {
    match (s, e) {
        (BGPSessionState::Idle, SessionEvent::StartPassive) => (BGPSessionState::Active, SessionAction::AwaitOpen),
        (BGPSessionState::Idle, SessionEvent::StartActive) => (BGPSessionState::Connect, SessionAction::InitiateConnection),
        (BGPSessionState::Connect, SessionEvent::ConnectionOk) => (BGPSessionState::OpenSent, SessionAction::SendOpen),
        (BGPSessionState::Active, SessionEvent::OpenReceived { valid: true }) => (BGPSessionState::OpenConfirm, SessionAction::SendOpen),
        (BGPSessionState::OpenSent, SessionEvent::OpenReceived { valid: true }) => (BGPSessionState::OpenConfirm, SessionAction::SendKeepalive),
        (BGPSessionState::OpenConfirm, SessionEvent::KeepaliveReceived) => (BGPSessionState::Established, SessionAction::StartKeepaliveTimer),
        (BGPSessionState::Established, SessionEvent::KeepaliveReceived) => (BGPSessionState::Established, SessionAction::Nothing),
        (BGPSessionState::Established, SessionEvent::UpdateReceived) => (BGPSessionState::Established, SessionAction::ApplyUpdate),
        (BGPSessionState::Established, SessionEvent::HoldTimerExpired) => (BGPSessionState::Idle, SessionAction::NotifyHoldTimerExpired),
        (BGPSessionState::Established, SessionEvent::Close) => (BGPSessionState::Idle, SessionAction::NotifyCease),
        _ => (BGPSessionState::Idle, SessionAction::CloseConnection),
    }
}

/// One transition of the session state machine. Any event that the table
/// does not list for a state is a protocol violation: back to Idle, close.
pub fn step(s: BGPSessionState, e: SessionEvent) -> (r: (BGPSessionState, SessionAction))
    ensures
        r == spec_step(s, e),
{
    match (s, e) {
        (BGPSessionState::Idle, SessionEvent::StartPassive) => (BGPSessionState::Active, SessionAction::AwaitOpen),
        (BGPSessionState::Idle, SessionEvent::StartActive) => (BGPSessionState::Connect, SessionAction::InitiateConnection),
        (BGPSessionState::Connect, SessionEvent::ConnectionOk) => (BGPSessionState::OpenSent, SessionAction::SendOpen),
        (BGPSessionState::Active, SessionEvent::OpenReceived { valid: true }) => (BGPSessionState::OpenConfirm, SessionAction::SendOpen),
        (BGPSessionState::OpenSent, SessionEvent::OpenReceived { valid: true }) => (BGPSessionState::OpenConfirm, SessionAction::SendKeepalive),
        (BGPSessionState::OpenConfirm, SessionEvent::KeepaliveReceived) => (BGPSessionState::Established, SessionAction::StartKeepaliveTimer),
        (BGPSessionState::Established, SessionEvent::KeepaliveReceived) => (BGPSessionState::Established, SessionAction::Nothing),
        (BGPSessionState::Established, SessionEvent::UpdateReceived) => (BGPSessionState::Established, SessionAction::ApplyUpdate),
        (BGPSessionState::Established, SessionEvent::HoldTimerExpired) => (BGPSessionState::Idle, SessionAction::NotifyHoldTimerExpired),
        (BGPSessionState::Established, SessionEvent::Close) => (BGPSessionState::Idle, SessionAction::NotifyCease),
        _ => (BGPSessionState::Idle, SessionAction::CloseConnection),
    }
}

/// Keepalive period for a hold time: a third of it.
pub fn keepalive_interval(hold_time: u16) -> (r: u16)
    ensures
        r as int == hold_time as int / 3,
{
    hold_time / 3
}

/// A route as received, before anything is prepended.
pub open spec fn received_model(r: BGPRoute) -> RouteModel {
    RouteModel {
        network: r.network,
        next_hop: r.next_hop,
        as_path: r.as_path@,
        origin: r.origin,
        local_pref: r.local_pref,
        med: r.med,
        communities: Seq::empty(),
        timestamp: 0,
    }
}

/// The route installed for an accepted announcement from `peer_asn`.
pub open spec fn installed_model(r: BGPRoute, peer_asn: u32, timestamp: i64) -> RouteModel {
    RouteModel {
        network: r.network,
        next_hop: r.next_hop,
        as_path: seq![peer_asn] + r.as_path@,
        origin: r.origin,
        local_pref: r.local_pref,
        med: r.med,
        communities: Seq::empty(),
        timestamp,
    }
}

/// Whether an announcement from `peer_asn` is installed: it must not loop
/// through `local_asn` and must pass the accept filter.
pub open spec fn spec_admits(policy: RoutingPolicy, local_asn: u32, peer_asn: u32, r: BGPRoute) -> bool {
    !r.as_path@.contains(local_asn) && spec_accept(policy.route_policy, policy.local_asn, received_model(r), peer_asn)
}

/// The state an update acts on: the set of routes in the table, and the set
/// of prefixes this session has installed.
pub type UpdateState = (Set<RouteModel>, Set<Prefix>);

/// One withdrawal: a prefix this session installed leaves the table and
/// the session's record; any other withdrawal changes nothing.
pub open spec fn withdraw_step(st: UpdateState, p: Prefix) -> UpdateState {
    if st.1.contains(p) { (set_remove(st.0, p), st.1.remove(p)) } else { st }
}

/// The withdrawals of `ws`, in order.
pub open spec fn withdraw_all(st: UpdateState, ws: Seq<Prefix>) -> UpdateState
    decreases ws.len(),
{
    if ws.len() == 0 { st } else { withdraw_step(withdraw_all(st, ws.drop_last()), ws.last()) }
}

/// One announcement: when admitted it is installed at time `now`, replacing
/// the route for its network, and recorded as this session's.
pub open spec fn announce_step(st: UpdateState, policy: RoutingPolicy, local_asn: u32, peer_asn: u32, now: i64, a: BGPRoute) -> UpdateState {
    if spec_admits(policy, local_asn, peer_asn, a) {
        (set_add(st.0, installed_model(a, peer_asn, now)), st.1.insert(a.network))
    } else {
        st
    }
}

/// The announcements of `anns`, in order; later ones replace earlier ones.
pub open spec fn announce_all(st: UpdateState, policy: RoutingPolicy, local_asn: u32, peer_asn: u32, now: i64, anns: Seq<BGPRoute>) -> UpdateState
    decreases anns.len(),
{
    if anns.len() == 0 {
        st
    } else {
        announce_step(announce_all(st, policy, local_asn, peer_asn, now, anns.drop_last()), policy, local_asn, peer_asn, now, anns.last())
    }
}

/// How many announcements of `anns` are admitted.
pub open spec fn admitted_count(policy: RoutingPolicy, local_asn: u32, peer_asn: u32, anns: Seq<BGPRoute>) -> nat
    decreases anns.len(),
{
    if anns.len() == 0 {
        0
    } else {
        admitted_count(policy, local_asn, peer_asn, anns.drop_last())
            + if spec_admits(policy, local_asn, peer_asn, anns.last()) { 1nat } else { 0nat }
    }
}

/// The update state of a session over a table.
pub open spec fn update_state(rib: RouteTable, session: BGPSession) -> UpdateState {
    (rib.entries().to_set(), session.installed@.to_set())
}

/// The table and session after an update, as `apply_update` leaves them.
pub open spec fn spec_apply(st: UpdateState, policy: RoutingPolicy, local_asn: u32, peer_asn: u32, now: i64, withdrawn: Seq<Prefix>, announced: Seq<BGPRoute>) -> UpdateState {
    announce_all(withdraw_all(st, withdrawn), policy, local_asn, peer_asn, now, announced)
}

/// A peering session with one peer.
#[derive(Debug)]
pub struct BGPSession {
    pub peer_asn: u32,
    pub local_asn: u32,
    pub peer_ip: IpAddress,
    pub state: BGPSessionState,
    pub hold_time: u16,
    pub keepalive_time: u16,
    /// Prefixes this session has installed in the route table.
    pub installed: Vec<Prefix>,
}

impl BGPSession {
    pub open spec fn wf(&self) -> bool {
        self.installed@.no_duplicates()
    }

    pub fn new(local_asn: u32, peer_asn: u32, peer_ip: IpAddress) -> (r: BGPSession)
        ensures
            r.wf(),
            r.local_asn == local_asn,
            r.peer_asn == peer_asn,
            r.peer_ip == peer_ip,
            r.state == BGPSessionState::Idle,
            r.hold_time == 90,
            r.keepalive_time == 30,
            r.installed@.len() == 0,
    {
        BGPSession {
            peer_asn,
            local_asn,
            peer_ip,
            state: BGPSessionState::Idle,
            hold_time: 90,
            keepalive_time: 30,
            installed: Vec::new(),
        }
    }

    /// Feeds one event to the state machine and returns the action to perform.
    pub fn handle_event(&mut self, event: SessionEvent) -> (r: SessionAction)
        ensures
            (final(self).state, r) == spec_step(old(self).state, event),
            final(self).installed == old(self).installed,
            final(self).local_asn == old(self).local_asn,
            final(self).peer_asn == old(self).peer_asn,
            final(self).hold_time == old(self).hold_time,
            final(self).peer_ip == old(self).peer_ip,
    {
        let (next, action) = step(self.state, event);
        self.state = next;
        action
    }

    /// Feeds a received record to the state machine. An Open also tells the
    /// session its peer's ASN.
    pub fn handle_message(&mut self, message_type: BGPMessageType, asn: u32) -> (r: SessionAction)
        ensures
            (final(self).state, r) == spec_step(old(self).state, match message_type {
                BGPMessageType::Open => SessionEvent::OpenReceived { valid: true },
                BGPMessageType::Update => SessionEvent::UpdateReceived,
                BGPMessageType::Keepalive => SessionEvent::KeepaliveReceived,
                BGPMessageType::Notification => SessionEvent::TransportError,
            }),
            final(self).peer_asn == (if message_type == BGPMessageType::Open { asn } else { old(self).peer_asn }),
            final(self).installed == old(self).installed,
            final(self).local_asn == old(self).local_asn,
            final(self).peer_ip == old(self).peer_ip,
            final(self).hold_time == old(self).hold_time,
    {
        if message_type == BGPMessageType::Open {
            self.peer_asn = asn;
        }
        self.handle_event(event_for(message_type))
    }

    pub fn is_established(&self) -> (r: bool)
        ensures
            r == (self.state == BGPSessionState::Established),
    {
        match self.state {
            BGPSessionState::Established => true,
            _ => false,
        }
    }

    /// Closes the session: back to Idle. An established session owes its
    /// peer a cease notification.
    pub fn close(&mut self) -> (r: SessionAction)
        ensures
            final(self).state == BGPSessionState::Idle,
            r == (if old(self).state == BGPSessionState::Established { SessionAction::NotifyCease } else { SessionAction::CloseConnection }),
            final(self).installed == old(self).installed,
            final(self).peer_ip == old(self).peer_ip,
    {
        self.handle_event(SessionEvent::Close)
    }

    /// The wire routes of an update to send; only an established session sends.
    pub fn send_update(&self, routes: &Vec<RouteEntry>) -> (r: Result<Vec<BGPRoute>, BGPError>)
        ensures
            r is Err <==> self.state != BGPSessionState::Established,
            r matches Err(e) ==> e is Protocol,
            r matches Ok(v) ==> v@.len() == routes@.len() && forall|i: int| 0 <= i < routes@.len() ==>
                (#[trigger] v@[i]).network == routes@[i].network && v@[i].as_path@ == routes@[i].as_path@
                && v@[i].next_hop == routes@[i].next_hop && v@[i].origin == routes@[i].origin
                && v@[i].local_pref == routes@[i].local_pref && v@[i].med == routes@[i].med,
    {
        if !self.is_established() {
            return Err(BGPError::Protocol(String::from_str("session not established")));
        }
        let mut out: Vec<BGPRoute> = Vec::new();
        let mut i: usize = 0;
        while i < routes.len()
            invariant
                i <= routes@.len(),
                out@.len() == i,
                forall|j: int| 0 <= j < i ==>
                    (#[trigger] out@[j]).network == routes@[j].network && out@[j].as_path@ == routes@[j].as_path@
                    && out@[j].next_hop == routes@[j].next_hop && out@[j].origin == routes@[j].origin
                    && out@[j].local_pref == routes@[j].local_pref && out@[j].med == routes@[j].med,
            decreases routes.len() - i,
        {
            out.push(BGPRoute::from_entry(&routes[i]));
            i += 1;
        }
        Ok(out)
    }

    /// Handles one announcement from the peer, received at time `now`. It is
    /// installed, with the peer's ASN prepended to its path, when it does not
    /// loop through the local ASN and passes the accept filter; otherwise
    /// nothing changes.
    pub fn accept_announcement(&mut self, rib: &mut RouteTable, policy: &RoutingPolicy, route: &BGPRoute, now: i64) -> (accepted: bool)
        requires
            old(self).wf(),
            old(rib).wf(),
        ensures
            final(self).wf(),
            final(rib).wf(),
            accepted == spec_admits(*policy, old(self).local_asn, old(self).peer_asn, *route),
            update_state(*final(rib), *final(self)) == announce_step(update_state(*old(rib), *old(self)),
                *policy, old(self).local_asn, old(self).peer_asn, now, *route),
            accepted ==> final(rib).version == bumped(old(rib).version)
                && added(old(rib).entries(), final(rib).entries(), installed_model(*route, old(self).peer_asn, now))
                && (forall|q: Prefix| #[trigger] final(self).installed@.contains(q) <==>
                    (old(self).installed@.contains(q) || q == route.network)),
            !accepted ==> *final(rib) == *old(rib) && *final(self) == *old(self),
            final(self).state == old(self).state,
            final(self).local_asn == old(self).local_asn,
            final(self).peer_asn == old(self).peer_asn,
            final(self).peer_ip == old(self).peer_ip,
    {
        if vec_contains(&route.as_path, self.local_asn) {
            return false;
        }
        let candidate = RouteEntry {
            network: route.network,
            next_hop: route.next_hop,
            as_path: crate::rib::copy_vec(&route.as_path),
            origin: route.origin,
            local_pref: route.local_pref,
            med: route.med,
            communities: Vec::new(),
            timestamp: 0,
        };
        assert(candidate@ == received_model(*route));
        if !policy.should_accept_route(&candidate, self.peer_asn) {
            return false;
        }
        let mut as_path: Vec<u32> = Vec::new();
        as_path.push(self.peer_asn);
        let mut i: usize = 0;
        while i < route.as_path.len()
            invariant
                i <= route.as_path@.len(),
                as_path@ == seq![old(self).peer_asn] + route.as_path@.subrange(0, i as int),
                *self == *old(self),
                *rib == *old(rib),
            decreases route.as_path.len() - i,
        {
            as_path.push(route.as_path[i]);
            assert(as_path@ =~= seq![old(self).peer_asn] + route.as_path@.subrange(0, i + 1));
            i += 1;
        }
        assert(route.as_path@.subrange(0, route.as_path@.len() as int) =~= route.as_path@);
        let ts = now;
        let entry = RouteEntry {
            network: route.network,
            next_hop: route.next_hop,
            as_path,
            origin: route.origin,
            local_pref: route.local_pref,
            med: route.med,
            communities: Vec::new(),
            timestamp: ts,
        };
        assert(entry@ =~= installed_model(*route, self.peer_asn, ts));
        rib.add_route(entry);
        let mut k: usize = 0;
        let mut present = false;
        while k < self.installed.len()
            invariant
                k <= self.installed@.len(),
                !present ==> forall|j: int| 0 <= j < k ==> self.installed@[j] != route.network,
                present ==> self.installed@.contains(route.network),
                *self == *old(self),
                old(self).wf(),
            decreases self.installed.len() - k,
        {
            if self.installed[k].same(&route.network) {
                present = true;
            }
            k += 1;
        }
        if !present {
            self.installed.push(route.network);
        }
        proof {
            assert forall|q: Prefix| #[trigger] self.installed@.contains(q) <==>
                (old(self).installed@.contains(q) || q == route.network) by {
                if !present {
                    if self.installed@.contains(q) {
                        let j = choose|j: int| 0 <= j < self.installed@.len() && self.installed@[j] == q;
                        if j < old(self).installed@.len() {
                            assert(old(self).installed@[j] == q);
                        }
                    }
                    if old(self).installed@.contains(q) {
                        let j = choose|j: int| 0 <= j < old(self).installed@.len() && old(self).installed@[j] == q;
                        assert(self.installed@[j] == q);
                    }
                    assert(self.installed@[old(self).installed@.len() as int] == route.network);
                }
            }
            lemma_added_set(old(rib).entries(), rib.entries(), installed_model(*route, self.peer_asn, now));
            assert(self.installed@.to_set() =~= old(self).installed@.to_set().insert(route.network));
        }
        true
    }

    /// Handles one withdrawal from the peer: the prefix leaves the route table
    /// only when this session installed it; otherwise nothing changes.
    pub fn withdraw(&mut self, rib: &mut RouteTable, network: &Prefix) -> (done: bool)
        requires
            old(self).wf(),
            old(rib).wf(),
        ensures
            final(self).wf(),
            final(rib).wf(),
            done == old(self).installed@.contains(*network),
            update_state(*final(rib), *final(self)) == withdraw_step(update_state(*old(rib), *old(self)), *network),
            done ==> removed(old(rib).entries(), final(rib).entries(), *network)
                && final(rib).version >= old(rib).version && final(rib).version <= old(rib).version + 1
                && (forall|q: Prefix| #[trigger] final(self).installed@.contains(q) <==>
                    (old(self).installed@.contains(q) && q != *network)),
            !done ==> *final(rib) == *old(rib) && *final(self) == *old(self),
            final(self).state == old(self).state,
            final(self).local_asn == old(self).local_asn,
            final(self).peer_asn == old(self).peer_asn,
            final(self).peer_ip == old(self).peer_ip,
    {
        let mut k: usize = 0;
        while k < self.installed.len()
            invariant
                k <= self.installed@.len(),
                forall|j: int| 0 <= j < k ==> self.installed@[j] != *network,
                *self == *old(self),
                *rib == *old(rib),
                old(self).wf(),
                old(rib).wf(),
            decreases self.installed.len() - k,
        {
            if self.installed[k].same(network) {
                let ghost before = self.installed@;
                self.installed.remove(k);
                proof {
                    assert forall|q: Prefix| #[trigger] self.installed@.contains(q) <==>
                        (before.contains(q) && q != *network) by {
                        if self.installed@.contains(q) {
                            let j = choose|j: int| 0 <= j < self.installed@.len() && self.installed@[j] == q;
                            let jo = if j < k { j } else { j + 1 };
                            assert(before[jo] == q);
                            assert(jo != k);
                        }
                        if before.contains(q) && q != *network {
                            let j = choose|j: int| 0 <= j < before.len() && before[j] == q;
                            let jn = if j < k { j } else { j - 1 };
                            assert(self.installed@[jn] == q);
                        }
                    }
                    assert(before[k as int] == *network);
                }
                let _ = rib.remove_route(network);
                proof {
                    lemma_removed_set(old(rib).entries(), rib.entries(), *network);
                    assert(self.installed@.to_set() =~= old(self).installed@.to_set().remove(*network));
                    assert(old(self).installed@.contains(*network));
                }
                return true;
            }
            k += 1;
        }
        assert(!old(self).installed@.to_set().contains(*network));
        false
    }

    /// Applies an update received at time `now`: withdrawals first, then
    /// announcements, each as `withdraw` and `accept_announcement` do.
    /// Returns how many announcements were installed.
    pub fn apply_update(
        &mut self,
        rib: &mut RouteTable,
        policy: &RoutingPolicy,
        withdrawn: &Vec<Prefix>,
        announced: &Vec<BGPRoute>,
        now: i64,
    ) -> (count: usize)
        requires
            old(self).wf(),
            old(rib).wf(),
        ensures
            final(self).wf(),
            final(rib).wf(),
            final(self).peer_ip == old(self).peer_ip,
            final(self).peer_asn == old(self).peer_asn,
            final(self).local_asn == old(self).local_asn,
            final(self).state == old(self).state,
            update_state(*final(rib), *final(self)) == spec_apply(update_state(*old(rib), *old(self)),
                *policy, old(self).local_asn, old(self).peer_asn, now, withdrawn@, announced@),
            count == admitted_count(*policy, old(self).local_asn, old(self).peer_asn, announced@),
            final(rib).version >= old(rib).version,
            (forall|p: Prefix| #[trigger] withdrawn@.contains(p) ==> !old(self).installed@.contains(p))
                && (forall|i: int| 0 <= i < announced@.len() ==> (#[trigger] announced@[i]).as_path@.contains(old(self).local_asn))
                ==> *final(rib) == *old(rib) && count == 0,
    {
        let ghost rib0 = *rib;
        let ghost self0 = *self;
        let ghost st0 = update_state(*rib, *self);
        let mut i: usize = 0;
        while i < withdrawn.len()
            invariant
                i <= withdrawn@.len(),
                self.wf(),
                rib.wf(),
                rib.version >= rib0.version,
                self.local_asn == self0.local_asn,
                self.peer_asn == self0.peer_asn,
                self.peer_ip == self0.peer_ip,
                self.state == self0.state,
                update_state(*rib, *self) == withdraw_all(st0, withdrawn@.subrange(0, i as int)),
                (forall|p: Prefix| #[trigger] withdrawn@.contains(p) ==> !self0.installed@.contains(p))
                    ==> *rib == rib0 && *self == self0,
            decreases withdrawn.len() - i,
        {
            proof {
                if forall|p: Prefix| #[trigger] withdrawn@.contains(p) ==> !self0.installed@.contains(p) {
                    assert(withdrawn@.contains(withdrawn@[i as int]));
                }
                let ws = withdrawn@.subrange(0, i + 1);
                assert(ws.drop_last() =~= withdrawn@.subrange(0, i as int));
                assert(ws.last() == withdrawn@[i as int]);
            }
            let _ = self.withdraw(rib, &withdrawn[i]);
            i += 1;
        }
        assert(withdrawn@.subrange(0, i as int) =~= withdrawn@);
        let ghost st1 = update_state(*rib, *self);
        let mut count: usize = 0;
        let mut k: usize = 0;
        let ghost rib1 = *rib;
        while k < announced.len()
            invariant
                k <= announced@.len(),
                count <= k,
                self.wf(),
                rib.wf(),
                rib.version >= rib1.version,
                rib1.version >= rib0.version,
                self.local_asn == self0.local_asn,
                self.peer_asn == self0.peer_asn,
                self.peer_ip == self0.peer_ip,
                self.state == self0.state,
                update_state(*rib, *self) == announce_all(st1, *policy, self0.local_asn, self0.peer_asn, now, announced@.subrange(0, k as int)),
                count == admitted_count(*policy, self0.local_asn, self0.peer_asn, announced@.subrange(0, k as int)),
                (forall|j: int| 0 <= j < announced@.len() ==> (#[trigger] announced@[j]).as_path@.contains(self0.local_asn))
                    ==> *rib == rib1 && count == 0,
            decreases announced.len() - k,
        {
            proof {
                let an = announced@.subrange(0, k + 1);
                assert(an.drop_last() =~= announced@.subrange(0, k as int));
                assert(an.last() == announced@[k as int]);
                if forall|j: int| 0 <= j < announced@.len() ==> (#[trigger] announced@[j]).as_path@.contains(self0.local_asn) {
                    assert(announced@[k as int].as_path@.contains(self0.local_asn));
                }
            }
            if self.accept_announcement(rib, policy, &announced[k], now) {
                count += 1;
            }
            k += 1;
        }
        assert(announced@.subrange(0, k as int) =~= announced@);
        count
    }
}

/// An announcement whose path already holds the local ASN is never
/// installed, whatever the policy.
pub proof fn lemma_looped_announcement_rejected(policy: RoutingPolicy, local_asn: u32, peer_asn: u32, route: BGPRoute)
    requires
        route.as_path@.contains(local_asn),
    ensures
        !spec_admits(policy, local_asn, peer_asn, route),
{
}

} // verus!
