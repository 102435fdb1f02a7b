//! Peering daemon state: the route table shared by all sessions and the
//! registry of sessions by peer address. Listening and the per-session
//! drivers run outside; they report here what arrived.
use vstd::prelude::*;
use crate::addr::{IpAddress, Prefix};
use crate::clock::now_millis;
use crate::policy::RoutingPolicy;
use crate::protocol::{BGPError, BGPRoute};
use crate::rib::{BGPOrigin, RouteEntry, RouteModel, RouteTable, added, bumped, models};
use crate::session::{BGPSession, BGPSessionState, admitted_count, spec_apply, update_state};

verus! {

pub struct BGPDaemon {
    pub local_asn: u32,
    pub router_id: IpAddress,
    /// Port to listen on; `None` builds a daemon that does not listen.
    pub listen_port: Option<u16>,
    pub sessions: Vec<BGPSession>,
    pub route_table: RouteTable,
}

impl BGPDaemon {
    /// Peer addresses are unique, every session is well formed, and so is the table.
    pub open spec fn wf(&self) -> bool {
        &&& forall|i: int, j: int| 0 <= i < self.sessions@.len() && 0 <= j < self.sessions@.len() && i != j
            ==> #[trigger] self.sessions@[i].peer_ip != #[trigger] self.sessions@[j].peer_ip
        &&& forall|i: int| 0 <= i < self.sessions@.len() ==> (#[trigger] self.sessions@[i]).wf()
        &&& self.route_table.wf()
    }

    pub fn new(local_asn: u32, router_id: IpAddress, listen_port: Option<u16>) -> (r: BGPDaemon)
        ensures
            r.wf(),
            r.local_asn == local_asn,
            r.router_id == router_id,
            r.listen_port == listen_port,
            r.sessions@.len() == 0,
            r.route_table.entries().len() == 0,
            r.route_table.version == 0,
    {
        BGPDaemon { local_asn, router_id, listen_port, sessions: Vec::new(), route_table: RouteTable::new() }
    }

    /// Originates `network` via `next_hop`: as_path `[local_asn]`,
    /// local_pref 100, med 0. Never fails.
    pub fn add_route(&mut self, network: Prefix, next_hop: IpAddress, origin: BGPOrigin) -> (r: Result<(), BGPError>)
        requires
            old(self).wf(),
        ensures
            final(self).wf(),
            r is Ok,
            final(self).route_table.version == bumped(old(self).route_table.version),
            exists|m: RouteModel| added(old(self).route_table.entries(), final(self).route_table.entries(), m)
                && m.network == network && m.next_hop == next_hop && m.origin == origin
                && m.as_path == seq![old(self).local_asn] && m.local_pref == 100 && m.med == 0,
            final(self).sessions == old(self).sessions,
    {
        let mut as_path: Vec<u32> = Vec::new();
        as_path.push(self.local_asn);
        let route = RouteEntry {
            network,
            next_hop,
            as_path,
            origin,
            local_pref: 100,
            med: 0,
            communities: Vec::new(),
            timestamp: now_millis(),
        };
        assert(route@.as_path =~= seq![self.local_asn]);
        let ghost m = route@;
        self.route_table.add_route(route);
        assert(added(old(self).route_table.entries(), self.route_table.entries(), m));
        Ok(())
    }

    /// A copy of every route in the table.
    pub fn get_routes(&self) -> (r: Vec<RouteEntry>)
        ensures
            models(r@) == self.route_table.entries(),
    {
        self.route_table.get_all_routes()
    }

    fn find_session(&self, peer_ip: &IpAddress) -> (r: Option<usize>)
        ensures
            r matches Some(i) ==> i < self.sessions@.len() && self.sessions@[i as int].peer_ip == *peer_ip,
            r is None ==> forall|j: int| 0 <= j < self.sessions@.len() ==> #[trigger] self.sessions@[j].peer_ip != *peer_ip,
    {
        let mut i: usize = 0;
        while i < self.sessions.len()
            invariant
                i <= self.sessions@.len(),
                forall|j: int| 0 <= j < i ==> #[trigger] self.sessions@[j].peer_ip != *peer_ip,
            decreases self.sessions.len() - i,
        {
            if self.sessions[i].peer_ip == *peer_ip {
                return Some(i);
            }
            i += 1;
        }
        None
    }

    /// Records `session` under its peer address, replacing any earlier one.
    pub fn register_session(&mut self, session: BGPSession)
        requires
            old(self).wf(),
            session.wf(),
        ensures
            final(self).wf(),
            exists|i: int| 0 <= i < final(self).sessions@.len() && final(self).sessions@[i] == session,
            forall|j: int| 0 <= j < old(self).sessions@.len() && (#[trigger] old(self).sessions@[j]).peer_ip != session.peer_ip
                ==> final(self).sessions@.contains(old(self).sessions@[j]),
            final(self).sessions@.len() <= old(self).sessions@.len() + 1,
            final(self).route_table == old(self).route_table,
    {
        let ghost before = self.sessions@;
        let ghost s = session;
        match self.find_session(&session.peer_ip) {
            Some(i) => {
                self.sessions.set(i, session);
                proof {
                    assert(self.sessions@[i as int] == s);
                    assert forall|j: int| 0 <= j < before.len() && (#[trigger] before[j]).peer_ip != s.peer_ip
                        implies self.sessions@.contains(before[j]) by {
                        assert(self.sessions@[j] == before[j]);
                    }
                }
            },
            None => {
                self.sessions.push(session);
                proof {
                    assert(self.sessions@[before.len() as int] == s);
                    assert forall|j: int| 0 <= j < before.len() && (#[trigger] before[j]).peer_ip != s.peer_ip
                        implies self.sessions@.contains(before[j]) by {
                        assert(self.sessions@[j] == before[j]);
                    }
                }
            },
        }
    }

    pub fn session_count(&self) -> (r: usize)
        ensures
            r == self.sessions@.len(),
    {
        self.sessions.len()
    }

    /// Index of the session with `peer_ip`.
    pub open spec fn session_index(&self, peer_ip: IpAddress) -> Option<int> {
        if exists|i: int| 0 <= i < self.sessions@.len() && #[trigger] self.sessions@[i].peer_ip == peer_ip {
            Some(choose|i: int| 0 <= i < self.sessions@.len() && #[trigger] self.sessions@[i].peer_ip == peer_ip)
        } else {
            None
        }
    }

    /// Applies an update that arrived at time `now` on the session with
    /// `peer_ip`, as `BGPSession::apply_update` does, and returns how many
    /// announcements were installed. The session must exist and be
    /// Established; otherwise it is a protocol error and nothing changes.
    pub fn handle_update(&mut self, peer_ip: &IpAddress, policy: &RoutingPolicy, withdrawn: &Vec<Prefix>, announced: &Vec<BGPRoute>, now: i64) -> (r: Result<usize, BGPError>)
        requires
            old(self).wf(),
        ensures
            final(self).wf(),
            match old(self).session_index(*peer_ip) {
                None => (r matches Err(e) && e is Protocol) && *final(self) == *old(self),
                Some(i) => {
                    let s = old(self).sessions@[i];
                    if s.state != BGPSessionState::Established {
                        (r matches Err(e) && e is Protocol) && *final(self) == *old(self)
                    } else {
                        &&& r == Ok::<usize, BGPError>(admitted_count(*policy, s.local_asn, s.peer_asn, announced@) as usize)
                        &&& update_state(final(self).route_table, final(self).sessions@[i]) == spec_apply(
                            update_state(old(self).route_table, s), *policy, s.local_asn, s.peer_asn, now, withdrawn@, announced@)
                        &&& final(self).sessions@ == old(self).sessions@.update(i, final(self).sessions@[i])
                        &&& final(self).sessions@[i].peer_asn == s.peer_asn
                        &&& final(self).sessions@[i].state == s.state
                        &&& final(self).route_table.version >= old(self).route_table.version
                    }
                },
            },
            final(self).local_asn == old(self).local_asn,
    {
        let i = match self.find_session(peer_ip) {
            Some(i) => i,
            None => {
                return Err(BGPError::Protocol(String::from_str("no session with peer")));
            },
        };
        proof {
            let k = self.session_index(*peer_ip)->Some_0;
            assert(self.sessions@[i as int].peer_ip == *peer_ip);
            if k != i {
                assert(self.sessions@[k].peer_ip != self.sessions@[i as int].peer_ip);
            }
        }
        if self.sessions[i].state != BGPSessionState::Established {
            return Err(BGPError::Protocol(String::from_str("session not established")));
        }
        let mut session = self.sessions.remove(i);
        proof {
            assert(old(self).sessions@[i as int] == session);
        }
        let count = session.apply_update(&mut self.route_table, policy, withdrawn, announced, now);
        self.sessions.insert(i, session);
        proof {
            assert(self.sessions@ =~= old(self).sessions@.update(i as int, session));
            assert forall|a: int, b: int| 0 <= a < self.sessions@.len() && 0 <= b < self.sessions@.len() && a != b
                implies #[trigger] self.sessions@[a].peer_ip != #[trigger] self.sessions@[b].peer_ip by {
                assert(self.sessions@[a].peer_ip == old(self).sessions@[a].peer_ip);
                assert(self.sessions@[b].peer_ip == old(self).sessions@[b].peer_ip);
            }
            assert forall|a: int| 0 <= a < self.sessions@.len() implies (#[trigger] self.sessions@[a]).wf() by {
                if a != i {
                    assert(self.sessions@[a] == old(self).sessions@[a]);
                }
            }
        }
        Ok(count)
    }

    /// Drains every session back to Idle.
    pub fn shutdown(&mut self)
        requires
            old(self).wf(),
        ensures
            final(self).wf(),
            final(self).sessions@.len() == old(self).sessions@.len(),
            forall|i: int| 0 <= i < final(self).sessions@.len() ==> (#[trigger] final(self).sessions@[i]).state == BGPSessionState::Idle,
            final(self).route_table == old(self).route_table,
    {
        let mut i: usize = 0;
        while i < self.sessions.len()
            invariant
                i <= self.sessions@.len(),
                self.sessions@.len() == old(self).sessions@.len(),
                forall|j: int| 0 <= j < i ==> (#[trigger] self.sessions@[j]).state == BGPSessionState::Idle,
                forall|j: int| 0 <= j < self.sessions@.len() ==> (#[trigger] self.sessions@[j]).peer_ip == old(self).sessions@[j].peer_ip
                    && self.sessions@[j].wf(),
                self.route_table == old(self).route_table,
                old(self).wf(),
            decreases self.sessions.len() - i,
        {
            let mut s = self.sessions.remove(i);
            let _ = s.close();
            self.sessions.insert(i, s);
            i += 1;
        }
        proof {
            assert forall|a: int, b: int| 0 <= a < self.sessions@.len() && 0 <= b < self.sessions@.len() && a != b
                implies #[trigger] self.sessions@[a].peer_ip != #[trigger] self.sessions@[b].peer_ip by {
                assert(self.sessions@[a].peer_ip == old(self).sessions@[a].peer_ip);
                assert(self.sessions@[b].peer_ip == old(self).sessions@[b].peer_ip);
            }
        }
    }
}

} // verus!
