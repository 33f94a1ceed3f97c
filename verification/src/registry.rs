//! The connection registry: the authoritative list of live connections, each
//! with its role and, for agents, its profile.

use vstd::prelude::*;

use crate::models::Agent;
use crate::models::AgentStatus;
use crate::models::clone_opt_string;
use crate::text::str_eq;

verus! {

/// Which side of the hub a connection belongs to.
#[derive(Clone, Copy, Debug, PartialEq, Eq, Structural)]
pub enum Role {
    Agent,
    Operator,
}

/// One live connection. The outbound channel itself lives with the network
/// layer, keyed by this id; the registry records role and profile.
#[derive(Debug)]
pub struct Connection {
    pub id: String,
    pub role: Role,
    pub agent: Option<Agent>,
}

/// A connection is sound: only an agent connection carries a profile, and the
/// profile's id is the connection's id.
pub open spec fn conn_wf(c: Connection) -> bool {
    &&& c.role == Role::Operator ==> c.agent is None
    &&& (c.agent matches Some(a) ==> a.id@ == c.id@)
}

/// The ids in `conns` are pairwise distinct.
pub open spec fn unique_conn_ids(conns: Seq<Connection>) -> bool {
    forall|i: int, j: int|
        0 <= i < j < conns.len() ==> conns[i].id@ != conns[j].id@
}

/// Some connection in `conns` has id `id`.
pub open spec fn has_conn(conns: Seq<Connection>, id: Seq<char>) -> bool {
    exists|i: int| 0 <= i < conns.len() && conns[i].id@ == id
}

/// The index of the connection with id `id`; meaningful when `has_conn` holds
/// and the ids are distinct.
pub open spec fn conn_index(conns: Seq<Connection>, id: Seq<char>) -> int {
    choose|i: int| 0 <= i < conns.len() && conns[i].id@ == id
}

/// The connection with id `id`.
pub open spec fn conn_of(conns: Seq<Connection>, id: Seq<char>) -> Connection {
    conns[conn_index(conns, id)]
}

/// The connections of `conns` that have role `role`, in registration order.
pub open spec fn of_role(conns: Seq<Connection>, role: Role) -> Seq<Connection>
    decreases conns.len(),
{
    if conns.len() == 0 {
        Seq::empty()
    } else {
        let rest = of_role(conns.drop_last(), role);
        if conns.last().role == role {
            rest.push(conns.last())
        } else {
            rest
        }
    }
}

/// The agent profiles carried by `conns`, in registration order.
pub open spec fn profiles(conns: Seq<Connection>) -> Seq<Agent>
    decreases conns.len(),
{
    if conns.len() == 0 {
        Seq::empty()
    } else {
        let rest = profiles(conns.drop_last());
        match conns.last().agent {
            Some(a) => rest.push(a),
            None => rest,
        }
    }
}

impl Connection {
    /// An exact copy of this connection.
    pub fn duplicate(&self) -> (r: Connection)
        ensures
            r == *self,
    {
        Connection {
            id: self.id.clone(),
            role: self.role,
            agent: match &self.agent {
                Option::Some(a) => Option::Some(a.duplicate()),
                Option::None => Option::None,
            },
        }
    }
}

/// The registry of live connections.
pub struct ConnectionRegistry {
    pub connections: Vec<Connection>,
}

impl ConnectionRegistry {
    /// Ids are pairwise distinct and every connection is sound.
    pub open spec fn wf(self) -> bool {
        &&& unique_conn_ids(self.connections@)
        &&& forall|i: int|
            0 <= i < self.connections@.len() ==> conn_wf(#[trigger] self.connections@[i])
    }

    /// An empty registry.
    pub fn new() -> (r: ConnectionRegistry)
        ensures
            r.wf(),
            r.connections@.len() == 0,
    {
        ConnectionRegistry { connections: Vec::new() }
    }

    /// The index of the connection with id `id`, if any.
    pub fn find(&self, id: &str) -> (r: Option<usize>)
        requires
            self.wf(),
        ensures
            match r {
                Some(i) => i < self.connections@.len() && self.connections@[i as int].id@ == id@
                    && i as int == conn_index(self.connections@, id@),
                None => !has_conn(self.connections@, id@),
            },
    {
        let n = self.connections.len();
        for i in 0..n
            invariant
                self.wf(),
                n == self.connections@.len(),
                forall|k: int| 0 <= k < i ==> self.connections@[k].id@ != id@,
        {
            if str_eq(self.connections[i].id.as_str(), id) {
                proof {
                    assert(has_conn(self.connections@, id@));
                    let c = conn_index(self.connections@, id@);
                    assert(self.connections@[c].id@ == id@);
                    assert(c == i as int);
                }
                return Some(i);
            }
        }
        None
    }

    /// Insert a new connection. Fails, changing nothing, exactly when a
    /// connection with the same id is already present.
    pub fn register(&mut self, conn: Connection) -> (r: bool)
        requires
            old(self).wf(),
            conn_wf(conn),
        ensures
            final(self).wf(),
            r == !has_conn(old(self).connections@, conn.id@),
            r ==> final(self).connections@ == old(self).connections@.push(conn),
            !r ==> *final(self) == *old(self),
    {
        let found = self.find(conn.id.as_str());
        match found {
            Some(_) => false,
            None => {
                self.connections.push(conn);
                proof {
                    assert forall|i: int, j: int|
                        0 <= i < j < self.connections@.len() implies self.connections@[i].id@
                        != self.connections@[j].id@ by {
                        if j < self.connections@.len() - 1 {
                            assert(unique_conn_ids(old(self).connections@));
                        } else {
                            assert(!has_conn(old(self).connections@, self.connections@[j].id@));
                        }
                    }
                }
                true
            },
        }
    }

    /// Remove and return the connection with id `id`, if any.
    pub fn unregister(&mut self, id: &str) -> (r: Option<Connection>)
        requires
            old(self).wf(),
        ensures
            final(self).wf(),
            r is Some <==> has_conn(old(self).connections@, id@),
            r matches Some(c) ==> c == conn_of(old(self).connections@, id@)
                && final(self).connections@ == old(self).connections@.remove(
                conn_index(old(self).connections@, id@),
            ),
            r is None ==> *final(self) == *old(self),
    {
        let found = self.find(id);
        match found {
            Some(i) => {
                let c = self.connections.remove(i);
                proof {
                    assert forall|x: int, y: int|
                        0 <= x < y < self.connections@.len() implies self.connections@[x].id@
                        != self.connections@[y].id@ by {
                        assert(unique_conn_ids(old(self).connections@));
                        let ox: int = if x < i as int {
                            x
                        } else {
                            x + 1
                        };
                        let oy: int = if y < i as int {
                            y
                        } else {
                            y + 1
                        };
                        assert(self.connections@[x] == old(self).connections@[ox]);
                        assert(self.connections@[y] == old(self).connections@[oy]);
                    }
                }
                Some(c)
            },
            None => None,
        }
    }

    /// A point-in-time copy of every connection with role `role`, in
    /// registration order.
    pub fn list_by_role(&self, role: Role) -> (r: Vec<Connection>)
        requires
            self.wf(),
        ensures
            r@ == of_role(self.connections@, role),
    {
        let mut r: Vec<Connection> = Vec::new();
        let n = self.connections.len();
        for i in 0..n
            invariant
                self.wf(),
                n == self.connections@.len(),
                r@ == of_role(self.connections@.take(i as int), role),
        {
            if self.connections[i].role == role {
                r.push(self.connections[i].duplicate());
            }
            proof {
                assert(self.connections@.take(i + 1 as int).drop_last() =~= self.connections@.take(
                    i as int,
                ));
                assert(self.connections@.take(i + 1 as int).last() == self.connections@[i as int]);
            }
        }
        proof {
            assert(self.connections@.take(n as int) =~= self.connections@);
        }
        r
    }

    /// A copy of the connection with id `id`, if any.
    pub fn lookup(&self, id: &str) -> (r: Option<Connection>)
        requires
            self.wf(),
        ensures
            r is Some <==> has_conn(self.connections@, id@),
            r matches Some(c) ==> c == conn_of(self.connections@, id@),
    {
        let found = self.find(id);
        match found {
            Some(i) => Some(self.connections[i].duplicate()),
            None => None,
        }
    }

    /// A snapshot of at most `limit` agent profiles, in registration order.
    pub fn list_agents(&self, limit: usize) -> (r: Vec<Agent>)
        requires
            self.wf(),
        ensures
            r@ == if limit <= profiles(self.connections@).len() {
                profiles(self.connections@).take(limit as int)
            } else {
                profiles(self.connections@)
            },
    {
        let mut all: Vec<Agent> = Vec::new();
        let n = self.connections.len();
        for i in 0..n
            invariant
                self.wf(),
                n == self.connections@.len(),
                all@ == profiles(self.connections@.take(i as int)),
        {
            match &self.connections[i].agent {
                Option::Some(a) => all.push(a.duplicate()),
                Option::None => {},
            }
            proof {
                assert(self.connections@.take(i + 1 as int).drop_last() =~= self.connections@.take(
                    i as int,
                ));
                assert(self.connections@.take(i + 1 as int).last() == self.connections@[i as int]);
            }
        }
        proof {
            assert(self.connections@.take(n as int) =~= self.connections@);
        }
        if all.len() <= limit {
            return all;
        }
        let mut r: Vec<Agent> = Vec::new();
        for k in 0..limit
            invariant
                limit < all@.len(),
                all@ == profiles(self.connections@),
                r@ =~= all@.take(k as int),
            decreases limit - k,
        {
            r.push(all[k].duplicate());
            proof {
                assert(r@ =~= all@.take(k + 1 as int));
            }
        }
        r
    }

    /// Attach a profile to an existing agent connection. Fails, changing
    /// nothing, when no agent connection with that id exists.
    pub fn attach_agent_profile(&mut self, id: &str, agent: Agent) -> (r: bool)
        requires
            old(self).wf(),
            agent.id@ == id@,
        ensures
            final(self).wf(),
            r == (has_conn(old(self).connections@, id@) && conn_of(
                old(self).connections@,
                id@,
            ).role == Role::Agent),
            r ==> final(self).connections@ == old(self).connections@.update(
                conn_index(old(self).connections@, id@),
                (Connection {
                    agent: Some(agent),
                    ..old(self).connections@[conn_index(old(self).connections@, id@)]
                }),
            ),
            !r ==> *final(self) == *old(self),
    {
        let found = self.find(id);
        match found {
            Some(i) => {
                if self.connections[i].role == Role::Agent {
                    let mut c = self.connections.remove(i);
                    c.agent = Some(agent);
                    self.connections.insert(i, c);
                    proof {
                        assert(self.connections@ =~= old(self).connections@.update(
                            conn_index(old(self).connections@, id@),
                            (Connection {
                                agent: self.connections@[i as int].agent,
                                ..old(self).connections@[i as int]
                            }),
                        ));
                    }
                    true
                } else {
                    false
                }
            },
            None => false,
        }
    }

    /// Record activity from the agent on connection `id`: its profile turns
    /// `Active` and its `last_activity` becomes `now`. Without an agent
    /// profile under that id, nothing changes.
    pub fn update_activity(&mut self, id: &str, now: &str) -> (r: bool)
        requires
            old(self).wf(),
        ensures
            final(self).wf(),
            r == (has_conn(old(self).connections@, id@) && conn_of(
                old(self).connections@,
                id@,
            ).agent is Some),
            activity_updated(old(self).connections@, final(self).connections@, id@, now@),
            !r ==> *final(self) == *old(self),
    {
        let found = self.find(id);
        match found {
            Some(i) => {
                let has_profile = self.connections[i].agent.is_some();
                if has_profile {
                    let mut c = self.connections.remove(i);
                    let a = match c.agent {
                        Option::Some(a) => a,
                        Option::None => {
                            proof {
                                assert(false);
                            }
                            unreached()
                        },
                    };
                    let a2 = Agent {
                        status: AgentStatus::Active,
                        last_activity: now.to_owned(),
                        ..a
                    };
                    c.agent = Some(a2);
                    self.connections.insert(i, c);
                    proof {
                        assert forall|x: int, y: int|
                            0 <= x < y < self.connections@.len() implies self.connections@[x].id@
                            != self.connections@[y].id@ by {
                            assert(unique_conn_ids(old(self).connections@));
                            assert(self.connections@[x].id@ == old(self).connections@[x].id@);
                            assert(self.connections@[y].id@ == old(self).connections@[y].id@);
                        }
                    }
                    true
                } else {
                    false
                }
            },
            None => false,
        }
    }
}

/// `c1` is `c0` with its agent profile marked active at `now`.
/// `reg1` is `reg0` after activity from connection `id`: with an agent
/// profile under that id, exactly that profile is touched; otherwise
/// nothing changes.
pub open spec fn activity_updated(
    reg0: Seq<Connection>,
    reg1: Seq<Connection>,
    id: Seq<char>,
    now: Seq<char>,
) -> bool {
    if has_conn(reg0, id) && conn_of(reg0, id).agent is Some {
        &&& reg1.len() == reg0.len()
        &&& touched(reg0[conn_index(reg0, id)], reg1[conn_index(reg0, id)], now)
        &&& forall|j: int|
            0 <= j < reg0.len() && j != conn_index(reg0, id) ==> reg1[j] == reg0[j]
    } else {
        reg1 == reg0
    }
}

pub open spec fn touched(c0: Connection, c1: Connection, now: Seq<char>) -> bool {
    &&& c1.id == c0.id
    &&& c1.role == c0.role
    &&& c0.agent matches Some(a0) && c1.agent matches Some(a1) && a1.id == a0.id && a1.name
        == a0.name && a1.status == AgentStatus::Active && a1.connected_at == a0.connected_at
        && a1.last_activity@ == now && a1.metadata == a0.metadata
}

} // verus!
