//! The authoritative vehicle directory: the table of live vehicles, the
//! per-client local-id to server-id mapping, and the snapshot of connected
//! clients used for fan-out.
//!
//! Fan-out operations do not perform delivery here: they return the exact
//! list of per-client notices to hand to the transport, so a failing send
//! can be isolated to its client by the caller.

use vstd::prelude::*;
use std::collections::HashMap;
use crate::vehicle::{Electrics, Gearbox, Transform, Vehicle, VehicleData};
use crate::outgoing::Outgoing;

verus! {

broadcast use vstd::std_specs::hash::group_hash_axioms;

/// The server-side shared state that every session task depends on for
/// addressing: vehicles by server-assigned id, each client's local-id to
/// server-id mapping, and the connected-client snapshot.
pub struct Server {
    /// Live vehicles, keyed by server-assigned identifier.
    pub vehicles: HashMap<u32, Vehicle>,
    /// Per client: that client's local in-game id to server id mapping.
    pub vehicle_ids: HashMap<u32, HashMap<u32, u32>>,
    /// Snapshot of the connected clients, in connection order.
    pub connections: Vec<u32>,
    /// The next server-assigned vehicle identifier.
    pub next_vehicle_id: u32,
}

/// The connected clients that a fan-out excluding `except` reaches, in
/// connection order.
pub open spec fn spec_recipients(conns: Seq<u32>, except: Option<u32>) -> Seq<u32>
    decreases conns.len(),
{
    if conns.len() == 0 {
        Seq::empty()
    } else {
        let rest = spec_recipients(conns.drop_last(), except);
        if except == Some(conns.last()) {
            rest
        } else {
            rest.push(conns.last())
        }
    }
}

/// A fan-out excluding `except` reaches exactly the connected clients
/// other than `except`; with no exclusion it reaches all of them, in
/// order; and it never reaches a client twice when the connection
/// snapshot has no duplicates.
pub proof fn lemma_recipients(conns: Seq<u32>, except: Option<u32>)
    ensures
        forall|c: u32|
            #[trigger] spec_recipients(conns, except).contains(c) <==> (conns.contains(c)
                && Some(c) != except),
        except is None ==> spec_recipients(conns, except) == conns,
        conns.no_duplicates() ==> spec_recipients(conns, except).no_duplicates(),
        spec_recipients(conns, except).len() <= conns.len(),
    decreases conns.len(),
{
    if conns.len() > 0 {
        let prefix = conns.drop_last();
        lemma_recipients(prefix, except);
        let rest = spec_recipients(prefix, except);
        assert forall|c: u32| #[trigger] spec_recipients(conns, except).contains(c) implies (
        conns.contains(c) && Some(c) != except) by {
            if spec_recipients(conns, except).contains(c) {
                if rest.contains(c) {
                    assert(prefix.contains(c));
                    let i = choose|i: int| 0 <= i < prefix.len() && prefix[i] == c;
                    assert(conns[i] == c);
                } else {
                    assert(c == conns.last());
                }
            }
        }
        assert forall|c: u32| (conns.contains(c) && Some(c) != except) implies #[trigger]
        spec_recipients(conns, except).contains(c) by {
            let i = choose|i: int| 0 <= i < conns.len() && conns[i] == c;
            if i < conns.len() - 1 {
                assert(prefix[i] == c);
                assert(rest.contains(c));
                if except != Some(conns.last()) {
                    assert(spec_recipients(conns, except) == rest.push(conns.last()));
                    let j = choose|j: int| 0 <= j < rest.len() && rest[j] == c;
                    assert(spec_recipients(conns, except)[j] == c);
                }
            } else {
                assert(c == conns.last());
                assert(spec_recipients(conns, except).last() == c);
            }
        }
        if except is None {
            assert(spec_recipients(conns, except) =~= conns);
        }
        if conns.no_duplicates() {
            assert(prefix.no_duplicates());
            if except != Some(conns.last()) {
                assert(!prefix.contains(conns.last())) by {
                    if prefix.contains(conns.last()) {
                        let i = choose|i: int|
                            0 <= i < prefix.len() && prefix[i] == conns.last();
                        assert(conns[i] == conns[conns.len() - 1]);
                    }
                }
                assert(!rest.contains(conns.last()));
            }
        }
    }
}

impl Server {
    /// A fresh directory with no vehicles, no mappings and no clients.
    pub fn new() -> (s: Server)
        ensures
            s.wf(),
            s.vehicles@ == Map::<u32, Vehicle>::empty(),
            s.connections@ == Seq::<u32>::empty(),
            forall|c: u32, l: u32| #[trigger] s.spec_resolve(c, l) is None,
            s.next_vehicle_id == 0,
    {
        Server {
            vehicles: HashMap::new(),
            vehicle_ids: HashMap::new(),
            connections: Vec::new(),
            next_vehicle_id: 0,
        }
    }

    /// Resolution of a client's local in-game id to the server-assigned
    /// id: absent when the client is unknown or has no such mapping.
    pub open spec fn spec_resolve(self, client_id: u32, game_id: u32) -> Option<u32> {
        if self.vehicle_ids@.contains_key(client_id) && self.vehicle_ids@[client_id]@.contains_key(
            game_id,
        ) {
            Some(self.vehicle_ids@[client_id]@[game_id])
        } else {
            None
        }
    }

    /// Directory well-formedness: the connection snapshot names each
    /// client once; every client-local mapping entry points at a live
    /// vehicle that the client owns under that local id; and every live
    /// vehicle carries its own key as `server_id`, below the allocation
    /// cursor.
    pub open spec fn wf(self) -> bool {
        &&& self.connections@.no_duplicates()
        &&& forall|c: u32, l: u32|
            (#[trigger] self.spec_resolve(c, l)) matches Some(sid) ==> {
                &&& self.vehicles@.contains_key(sid)
                &&& self.vehicles@[sid].data.owner == Some(c)
                &&& self.vehicles@[sid].data.in_game_id == l
            }
        &&& forall|sid: u32| #[trigger]
            self.vehicles@.contains_key(sid) ==> {
                &&& sid < self.next_vehicle_id
                &&& self.vehicles@[sid].data.server_id == Some(sid)
            }
    }

    /// A local id that was never registered for the client resolves to
    /// absent — an ordinary outcome, not an error.
    pub proof fn lemma_unregistered_resolves_absent(self, client_id: u32, game_id: u32)
        requires
            !self.vehicle_ids@.contains_key(client_id) || !self.vehicle_ids@[client_id]@.contains_key(
                game_id,
            ),
        ensures
            self.spec_resolve(client_id, game_id) is None,
    {
    }

    /// Pure lookup of the server-assigned id for a client's local
    /// in-game id.  Absence is a normal outcome, never an error: it is
    /// returned whenever the client is unknown or the id is unmapped.
    pub fn get_server_id_from_game_id(&self, client_id: u32, game_id: u32) -> (r: Option<u32>)
        ensures
            r == self.spec_resolve(client_id, game_id),
    {
        if let Some(client_vehicles) = self.vehicle_ids.get(&client_id) {
            if let Some(server_id) = client_vehicles.get(&game_id) {
                Some(*server_id)
            } else {
                None
            }
        } else {
            None
        }
    }

    /// Marks a client as connected.  Idempotent; keeps every mapping and
    /// vehicle unchanged.
    pub fn connect_client(&mut self, client_id: u32)
        ensures
            final(self).vehicles@ == old(self).vehicles@,
            final(self).vehicle_ids == old(self).vehicle_ids,
            final(self).next_vehicle_id == old(self).next_vehicle_id,
            final(self).connections@ == (if old(self).connections@.contains(client_id) {
                old(self).connections@
            } else {
                old(self).connections@.push(client_id)
            }),
            forall|c: u32|
                #[trigger] final(self).connections@.contains(c) <==> (old(
                    self,
                ).connections@.contains(c) || c == client_id),
            old(self).connections@.no_duplicates() ==> final(self).connections@.no_duplicates(),
            old(self).wf() ==> final(self).wf(),
    {
        let mut i: usize = 0;
        let n = self.connections.len();
        while i < n
            invariant
                i <= n,
                n == self.connections@.len(),
                forall|j: int| 0 <= j < i ==> self.connections@[j] != client_id,
            decreases n - i,
        {
            if self.connections[i] == client_id {
                proof {
                    assert(self.connections@[i as int] == client_id);
                    assert(self.connections@.contains(client_id));
                }
                return ;
            }
            i = i + 1;
        }
        assert(!self.connections@.contains(client_id));
        self.connections.push(client_id);
        proof {
            assert forall|c: u32, l: u32|
                #[trigger] self.spec_resolve(c, l) == old(self).spec_resolve(c, l) by {}
            if old(self).connections@.no_duplicates() {
                assert forall|p: int, q: int|
                    0 <= p < self.connections@.len() && 0 <= q < self.connections@.len() && p
                        != q implies self.connections@[p] != self.connections@[q] by {
                    let last = self.connections@.len() - 1;
                    if p == last {
                        assert(old(self).connections@[q] == self.connections@[q]);
                    } else if q == last {
                        assert(old(self).connections@[p] == self.connections@[p]);
                    }
                }
            }
            assert forall|c: u32| #[trigger]
                self.connections@.contains(c) <==> (old(self).connections@.contains(c) || c
                    == client_id) by {
                if self.connections@.contains(c) {
                    let j = choose|j: int|
                        0 <= j < self.connections@.len() && self.connections@[j] == c;
                    if j < old(self).connections@.len() {
                        assert(old(self).connections@[j] == c);
                    }
                }
                if old(self).connections@.contains(c) {
                    let j = choose|j: int|
                        0 <= j < old(self).connections@.len() && old(self).connections@[j] == c;
                    assert(self.connections@[j] == c);
                }
                assert(self.connections@.last() == client_id);
            }
        }
    }

    /// The entry that removing vehicle `id` on behalf of `client_id`
    /// deletes from the local-id mapping, if any: that client's entry for
    /// the vehicle's own in-game id, when it indeed points at `id`.
    pub open spec fn spec_removed_entry(self, id: u32, client_id: Option<u32>) -> Option<
        (u32, u32),
    > {
        match client_id {
            Some(c) => {
                if self.vehicles@.contains_key(id) {
                    let l = self.vehicles@[id].data.in_game_id;
                    if self.spec_resolve(c, l) == Some(id) {
                        Some((c, l))
                    } else {
                        None
                    }
                } else {
                    None
                }
            },
            None => None,
        }
    }

    /// The full state transition of `remove_vehicle`: the vehicle record
    /// goes, the requesting client's mapping entry for it goes, and
    /// nothing else changes.
    pub open spec fn spec_removes(pre: Server, post: Server, id: u32, client_id: Option<u32>) -> bool {
        &&& post.vehicles@ == pre.vehicles@.remove(id)
        &&& post.connections@ == pre.connections@
        &&& post.next_vehicle_id == pre.next_vehicle_id
        &&& forall|c: u32, l: u32|
            #[trigger] post.spec_resolve(c, l) == (if Some((c, l)) == pre.spec_removed_entry(
                id,
                client_id,
            ) {
                None::<u32>
            } else {
                pre.spec_resolve(c, l)
            })
    }

    /// Removes the vehicle record unconditionally if present; no error if
    /// absent.  Returns one removal notice per connected client, the
    /// owner included, for delivery over the unordered channel.  When
    /// `client_id` is given, also deletes that client's local-id mapping
    /// entry for this vehicle.
    pub fn remove_vehicle(&mut self, id: u32, client_id: Option<u32>) -> (notices: Vec<
        (u32, Outgoing),
    >)
        ensures
            Server::spec_removes(*old(self), *final(self), id, client_id),
            notices@.len() == old(self).connections@.len(),
            forall|i: int|
                0 <= i < notices@.len() ==> notices@[i] == ((
                    old(self).connections@[i],
                    Outgoing::RemoveVehicle(id),
                )),
            old(self).wf() && (old(self).vehicles@.contains_key(id) ==> (old(
                self,
            ).vehicles@[id].data.owner is None || client_id == old(self).vehicles@[id].data.owner))
                ==> final(self).wf(),
    {
        let local: Option<u32> = match self.vehicles.get(&id) {
            Some(v) => Some(v.data.in_game_id),
            None => None,
        };
        self.vehicles.remove(&id);
        let mut notices: Vec<(u32, Outgoing)> = Vec::new();
        let mut i: usize = 0;
        let n = self.connections.len();
        while i < n
            invariant
                i <= n,
                n == self.connections@.len(),
                notices@.len() == i,
                forall|j: int|
                    0 <= j < i ==> notices@[j] == ((
                        self.connections@[j],
                        Outgoing::RemoveVehicle(id),
                    )),
            decreases n - i,
        {
            notices.push((self.connections[i], Outgoing::RemoveVehicle(id)));
            i = i + 1;
        }
        if let Some(c) = client_id {
            if let Some(l) = local {
                if let Some(inner) = self.vehicle_ids.remove(&c) {
                    let mut inner = inner;
                    let points_here = match inner.get(&l) {
                        Some(s) => *s == id,
                        None => false,
                    };
                    if points_here {
                        inner.remove(&l);
                    }
                    self.vehicle_ids.insert(c, inner);
                }
            }
        }
        proof {
            self.lemma_after_remove(*old(self), id, client_id);
        }
        notices
    }

    /// Establishes the resolution characterization and conditional
    /// well-formedness after `remove_vehicle`'s mutations.
    proof fn lemma_after_remove(self, pre: Server, id: u32, client_id: Option<u32>)
        requires
            self.vehicles@ == pre.vehicles@.remove(id),
            self.connections@ == pre.connections@,
            self.next_vehicle_id == pre.next_vehicle_id,
            forall|c: u32, l: u32|
                #[trigger] self.spec_resolve(c, l) == (if Some((c, l)) == pre.spec_removed_entry(
                    id,
                    client_id,
                ) {
                    None::<u32>
                } else {
                    pre.spec_resolve(c, l)
                }),
        ensures
            pre.wf() && (pre.vehicles@.contains_key(id) ==> (pre.vehicles@[id].data.owner is None
                || client_id == pre.vehicles@[id].data.owner)) ==> self.wf(),
    {
        if pre.wf() && (pre.vehicles@.contains_key(id) ==> (pre.vehicles@[id].data.owner is None
            || client_id == pre.vehicles@[id].data.owner)) {
            assert forall|c: u32, l: u32| (#[trigger] self.spec_resolve(c, l)) is Some implies {
                let sid = self.spec_resolve(c, l)->Some_0;
                &&& self.vehicles@.contains_key(sid)
                &&& self.vehicles@[sid].data.owner == Some(c)
                &&& self.vehicles@[sid].data.in_game_id == l
            } by {
                if self.spec_resolve(c, l) is Some {
                    let sid = self.spec_resolve(c, l)->Some_0;
                    assert(pre.spec_resolve(c, l) == Some(sid));
                    if sid == id {
                        assert(pre.vehicles@.contains_key(id));
                        assert(pre.vehicles@[id].data.owner == Some(c));
                        assert(pre.vehicles@[id].data.in_game_id == l);
                        assert(client_id == Some(c));
                        assert(pre.spec_removed_entry(id, client_id) == Some((c, l)));
                        assert(false);
                    }
                }
            }
        }
    }

    /// Applying the removal of the same vehicle twice changes nothing the
    /// second time: the vehicle table and every resolution are already in
    /// their final state after the first removal.  (Each call still emits
    /// one notice per connected client; notices are not deduplicated.)
    pub proof fn lemma_remove_vehicle_idempotent(
        s0: Server,
        s1: Server,
        s2: Server,
        id: u32,
        client_id: Option<u32>,
    )
        requires
            Server::spec_removes(s0, s1, id, client_id),
            Server::spec_removes(s1, s2, id, client_id),
        ensures
            s2.vehicles@ == s1.vehicles@,
            forall|c: u32, l: u32| #[trigger] s2.spec_resolve(c, l) == s1.spec_resolve(c, l),
            s2.connections@ == s1.connections@,
            s2.next_vehicle_id == s1.next_vehicle_id,
    {
        assert(s2.vehicles@ =~= s1.vehicles@);
        assert(s1.spec_removed_entry(id, client_id) is None);
    }

    /// Builds one reset notice for every connected client except the
    /// requesting one; with no requester, for every connected client.
    /// Advisory only: directory state is not mutated.
    pub fn reset_vehicle(&self, server_id: u32, client_id: Option<u32>) -> (notices: Vec<
        (u32, Outgoing),
    >)
        ensures
            notices@.len() == spec_recipients(self.connections@, client_id).len(),
            forall|i: int|
                0 <= i < notices@.len() ==> notices@[i] == ((
                    spec_recipients(self.connections@, client_id)[i],
                    Outgoing::ResetVehicle(server_id),
                )),
    {
        let mut notices: Vec<(u32, Outgoing)> = Vec::new();
        let mut i: usize = 0;
        let n = self.connections.len();
        while i < n
            invariant
                i <= n,
                n == self.connections@.len(),
                notices@.len() == spec_recipients(self.connections@.take(i as int), client_id).len(),
                forall|j: int|
                    0 <= j < notices@.len() ==> notices@[j] == ((
                        spec_recipients(self.connections@.take(i as int), client_id)[j],
                        Outgoing::ResetVehicle(server_id),
                    )),
            decreases n - i,
        {
            let cid = self.connections[i];
            let excluded = match client_id {
                Some(cc) => cc == cid,
                None => false,
            };
            if !excluded {
                notices.push((cid, Outgoing::ResetVehicle(server_id)));
            }
            proof {
                let t = self.connections@.take(i + 1 as int);
                assert(t.drop_last() =~= self.connections@.take(i as int));
                assert(t.last() == self.connections@[i as int]);
            }
            i = i + 1;
        }
        proof {
            assert(self.connections@.take(self.connections@.len() as int) =~= self.connections@);
        }
        notices
    }

    /// Registers a vehicle for a client: assigns the next server id,
    /// stores the identity record with `server_id` and `owner` set, and
    /// maps the client's local in-game id to the new server id.
    pub fn spawn_vehicle(&mut self, client_id: u32, data: VehicleData) -> (server_id: u32)
        requires
            old(self).wf(),
            old(self).next_vehicle_id < u32::MAX,
        ensures
            final(self).wf(),
            server_id == old(self).next_vehicle_id,
            final(self).next_vehicle_id == old(self).next_vehicle_id + 1,
            final(self).connections@ == old(self).connections@,
            final(self).vehicles@ == old(self).vehicles@.insert(
                server_id,
                (Vehicle {
                    transform: None,
                    electrics: None,
                    gearbox: None,
                    data: (VehicleData {
                        server_id: Some(server_id),
                        owner: Some(client_id),
                        ..data
                    }),
                }),
            ),
            forall|c: u32, l: u32|
                #[trigger] final(self).spec_resolve(c, l) == (if c == client_id && l
                    == data.in_game_id {
                    Some(server_id)
                } else {
                    old(self).spec_resolve(c, l)
                }),
    {
        let sid = self.next_vehicle_id;
        self.next_vehicle_id = sid + 1;
        let game_id = data.in_game_id;
        let vd = VehicleData {
            parts_config: data.parts_config,
            in_game_id: data.in_game_id,
            color: data.color,
            palete_0: data.palete_0,
            palete_1: data.palete_1,
            name: data.name,
            server_id: Some(sid),
            owner: Some(client_id),
        };
        self.vehicles.insert(
            sid,
            Vehicle { transform: None, electrics: None, gearbox: None, data: vd },
        );
        let mut inner: HashMap<u32, u32> = match self.vehicle_ids.remove(&client_id) {
            Some(m) => m,
            None => HashMap::new(),
        };
        inner.insert(game_id, sid);
        self.vehicle_ids.insert(client_id, inner);
        proof {
            assert forall|c: u32, l: u32|
                #[trigger] self.spec_resolve(c, l) == (if c == client_id && l == game_id {
                    Some(sid)
                } else {
                    old(self).spec_resolve(c, l)
                }) by {}
            assert forall|c: u32, l: u32| (#[trigger] self.spec_resolve(c, l)) is Some implies {
                let sid2 = self.spec_resolve(c, l)->Some_0;
                &&& self.vehicles@.contains_key(sid2)
                &&& self.vehicles@[sid2].data.owner == Some(c)
                &&& self.vehicles@[sid2].data.in_game_id == l
            } by {
                if self.spec_resolve(c, l) is Some {
                    let sid2 = self.spec_resolve(c, l)->Some_0;
                    if !(c == client_id && l == game_id) {
                        assert(old(self).spec_resolve(c, l) == Some(sid2));
                        assert(old(self).vehicles@.contains_key(sid2));
                        assert(sid2 < old(self).next_vehicle_id);
                    }
                }
            }
        }
        sid
    }

    /// Stores the latest transform snapshot for a live vehicle.  A stale
    /// update for an unknown vehicle is not an error: it changes nothing
    /// and reports `false`.  The other sub-states and the identity record
    /// are untouched.
    pub fn update_transform(&mut self, server_id: u32, t: Transform) -> (updated: bool)
        ensures
            final(self).vehicle_ids == old(self).vehicle_ids,
            final(self).connections@ == old(self).connections@,
            final(self).next_vehicle_id == old(self).next_vehicle_id,
            updated == old(self).vehicles@.contains_key(server_id),
            updated ==> final(self).vehicles@ == old(self).vehicles@.insert(
                server_id,
                (Vehicle {
                    transform: Some(t),
                    electrics: old(self).vehicles@[server_id].electrics,
                    gearbox: old(self).vehicles@[server_id].gearbox,
                    data: old(self).vehicles@[server_id].data,
                }),
            ),
            !updated ==> final(self).vehicles@ == old(self).vehicles@,
            old(self).wf() ==> final(self).wf(),
    {
        match self.vehicles.remove(&server_id) {
            Some(v) => {
                let mut v = v;
                v.transform = Some(t);
                self.vehicles.insert(server_id, v);
                proof {
                    assert(self.vehicles@ =~= old(self).vehicles@.insert(
                        server_id,
                        (Vehicle {
                            transform: Some(t),
                            electrics: old(self).vehicles@[server_id].electrics,
                            gearbox: old(self).vehicles@[server_id].gearbox,
                            data: old(self).vehicles@[server_id].data,
                        }),
                    ));
                    assert(self.vehicles@.dom() =~= old(self).vehicles@.dom());
                    self.lemma_substate_update_wf(*old(self), server_id);
                }
                true
            },
            None => {
                proof {
                    assert(self.vehicles@ =~= old(self).vehicles@);
                    self.lemma_substate_unchanged_wf(*old(self));
                }
                false
            },
        }
    }

    /// Stores the latest electrics snapshot for a live vehicle; same
    /// contract shape as `update_transform`.
    pub fn update_electrics(&mut self, server_id: u32, e: Electrics) -> (updated:
        bool)
        ensures
            final(self).vehicle_ids == old(self).vehicle_ids,
            final(self).connections@ == old(self).connections@,
            final(self).next_vehicle_id == old(self).next_vehicle_id,
            updated == old(self).vehicles@.contains_key(server_id),
            updated ==> final(self).vehicles@ == old(self).vehicles@.insert(
                server_id,
                (Vehicle {
                    transform: old(self).vehicles@[server_id].transform,
                    electrics: Some(e),
                    gearbox: old(self).vehicles@[server_id].gearbox,
                    data: old(self).vehicles@[server_id].data,
                }),
            ),
            !updated ==> final(self).vehicles@ == old(self).vehicles@,
            old(self).wf() ==> final(self).wf(),
    {
        match self.vehicles.remove(&server_id) {
            Some(v) => {
                let mut v = v;
                v.electrics = Some(e);
                self.vehicles.insert(server_id, v);
                proof {
                    assert(self.vehicles@ =~= old(self).vehicles@.insert(
                        server_id,
                        (Vehicle {
                            transform: old(self).vehicles@[server_id].transform,
                            electrics: Some(e),
                            gearbox: old(self).vehicles@[server_id].gearbox,
                            data: old(self).vehicles@[server_id].data,
                        }),
                    ));
                    assert(self.vehicles@.dom() =~= old(self).vehicles@.dom());
                    self.lemma_substate_update_wf(*old(self), server_id);
                }
                true
            },
            None => {
                proof {
                    assert(self.vehicles@ =~= old(self).vehicles@);
                    self.lemma_substate_unchanged_wf(*old(self));
                }
                false
            },
        }
    }

    /// Stores the latest gearbox snapshot for a live vehicle; same
    /// contract shape as `update_transform`.
    pub fn update_gearbox(&mut self, server_id: u32, g: Gearbox) -> (updated:
        bool)
        ensures
            final(self).vehicle_ids == old(self).vehicle_ids,
            final(self).connections@ == old(self).connections@,
            final(self).next_vehicle_id == old(self).next_vehicle_id,
            updated == old(self).vehicles@.contains_key(server_id),
            updated ==> final(self).vehicles@ == old(self).vehicles@.insert(
                server_id,
                (Vehicle {
                    transform: old(self).vehicles@[server_id].transform,
                    electrics: old(self).vehicles@[server_id].electrics,
                    gearbox: Some(g),
                    data: old(self).vehicles@[server_id].data,
                }),
            ),
            !updated ==> final(self).vehicles@ == old(self).vehicles@,
            old(self).wf() ==> final(self).wf(),
    {
        match self.vehicles.remove(&server_id) {
            Some(v) => {
                let mut v = v;
                v.gearbox = Some(g);
                self.vehicles.insert(server_id, v);
                proof {
                    assert(self.vehicles@ =~= old(self).vehicles@.insert(
                        server_id,
                        (Vehicle {
                            transform: old(self).vehicles@[server_id].transform,
                            electrics: old(self).vehicles@[server_id].electrics,
                            gearbox: Some(g),
                            data: old(self).vehicles@[server_id].data,
                        }),
                    ));
                    assert(self.vehicles@.dom() =~= old(self).vehicles@.dom());
                    self.lemma_substate_update_wf(*old(self), server_id);
                }
                true
            },
            None => {
                proof {
                    assert(self.vehicles@ =~= old(self).vehicles@);
                    self.lemma_substate_unchanged_wf(*old(self));
                }
                false
            },
        }
    }

    /// A state whose views all match a well-formed one is well-formed.
    proof fn lemma_substate_unchanged_wf(self, pre: Server)
        requires
            self.vehicle_ids == pre.vehicle_ids,
            self.connections@ == pre.connections@,
            self.next_vehicle_id == pre.next_vehicle_id,
            self.vehicles@ == pre.vehicles@,
        ensures
            pre.wf() ==> self.wf(),
    {
        if pre.wf() {
            assert forall|c: u32, l: u32|
                #[trigger] self.spec_resolve(c, l) == pre.spec_resolve(c, l) by {}
            assert forall|c: u32, l: u32| (#[trigger] self.spec_resolve(c, l)) is Some implies {
                let sid = self.spec_resolve(c, l)->Some_0;
                &&& self.vehicles@.contains_key(sid)
                &&& self.vehicles@[sid].data.owner == Some(c)
                &&& self.vehicles@[sid].data.in_game_id == l
            } by {
                if self.spec_resolve(c, l) is Some {
                    assert(pre.spec_resolve(c, l) == self.spec_resolve(c, l));
                }
            }
            assert forall|sid: u32| #[trigger] self.vehicles@.contains_key(sid) implies {
                &&& sid < self.next_vehicle_id
                &&& self.vehicles@[sid].data.server_id == Some(sid)
            } by {
                assert(pre.vehicles@.contains_key(sid));
            }
        }
    }

    /// A sub-state update keeps the directory well-formed: the identity
    /// record of the updated vehicle, the mappings and the connection
    /// snapshot are all unchanged.
    proof fn lemma_substate_update_wf(self, pre: Server, server_id: u32)
        requires
            self.vehicle_ids == pre.vehicle_ids,
            self.connections@ == pre.connections@,
            self.next_vehicle_id == pre.next_vehicle_id,
            pre.vehicles@.contains_key(server_id),
            self.vehicles@.dom() == pre.vehicles@.dom(),
            forall|sid: u32| #[trigger]
                self.vehicles@.contains_key(sid) ==> self.vehicles@[sid].data
                    == pre.vehicles@[sid].data,
        ensures
            pre.wf() ==> self.wf(),
    {
        if pre.wf() {
            assert forall|c: u32, l: u32|
                #[trigger] self.spec_resolve(c, l) == pre.spec_resolve(c, l) by {}
            assert forall|c: u32, l: u32| (#[trigger] self.spec_resolve(c, l)) is Some implies {
                let sid = self.spec_resolve(c, l)->Some_0;
                &&& self.vehicles@.contains_key(sid)
                &&& self.vehicles@[sid].data.owner == Some(c)
                &&& self.vehicles@[sid].data.in_game_id == l
            } by {
                if self.spec_resolve(c, l) is Some {
                    let sid = self.spec_resolve(c, l)->Some_0;
                    assert(pre.vehicles@.contains_key(sid));
                    assert(self.vehicles@.dom().contains(sid));
                    assert(self.vehicles@.contains_key(sid));
                }
            }
            assert forall|sid: u32| #[trigger] self.vehicles@.contains_key(sid) implies {
                &&& sid < self.next_vehicle_id
                &&& self.vehicles@[sid].data.server_id == Some(sid)
            } by {
                assert(pre.vehicles@.dom().contains(sid));
                assert(pre.vehicles@.contains_key(sid));
            }
        }
    }

    /// Unregisters a disconnecting client: drops the whole local-id
    /// mapping of that client and removes it from the connection
    /// snapshot.  Vehicles themselves are kept.
    pub fn remove_client(&mut self, client_id: u32)
        ensures
            final(self).vehicles@ == old(self).vehicles@,
            final(self).next_vehicle_id == old(self).next_vehicle_id,
            forall|c: u32, l: u32|
                #[trigger] final(self).spec_resolve(c, l) == (if c == client_id {
                    None::<u32>
                } else {
                    old(self).spec_resolve(c, l)
                }),
            final(self).connections@ == spec_recipients(old(self).connections@, Some(client_id)),
            old(self).wf() ==> final(self).wf(),
    {
        self.vehicle_ids.remove(&client_id);
        let mut kept: Vec<u32> = Vec::new();
        let mut i: usize = 0;
        let n = self.connections.len();
        while i < n
            invariant
                i <= n,
                n == self.connections@.len(),
                kept@ == spec_recipients(self.connections@.take(i as int), Some(client_id)),
            decreases n - i,
        {
            let cid = self.connections[i];
            if cid != client_id {
                kept.push(cid);
            }
            proof {
                let t = self.connections@.take(i + 1 as int);
                assert(t.drop_last() =~= self.connections@.take(i as int));
                assert(t.last() == self.connections@[i as int]);
            }
            i = i + 1;
        }
        proof {
            assert(self.connections@.take(self.connections@.len() as int) =~= self.connections@);
        }
        self.connections = kept;
        proof {
            if old(self).wf() {
                lemma_recipients(old(self).connections@, Some(client_id));
                assert forall|c: u32, l: u32| (#[trigger] self.spec_resolve(c, l)) is Some
                    implies {
                    let sid = self.spec_resolve(c, l)->Some_0;
                    &&& self.vehicles@.contains_key(sid)
                    &&& self.vehicles@[sid].data.owner == Some(c)
                    &&& self.vehicles@[sid].data.in_game_id == l
                } by {
                    if self.spec_resolve(c, l) is Some {
                        assert(old(self).spec_resolve(c, l) == self.spec_resolve(c, l));
                    }
                }
            }
        }
    }
}


} // verus!
