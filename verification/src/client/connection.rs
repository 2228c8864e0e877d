//! The Transport Connections of a Client and the Sessions bound to them.

use vstd::prelude::*;
use vstd::string::*;

use crate::error::SendError;
use crate::keyed::{Key, KeyedMap};
use crate::runtime::session::SessionId;
use crate::transport::Endpoint;

verus! {

/// A connection to a Server, shared by the Sessions that are bound to it.
pub struct TransportConnection {
    id: u64,
    endpoint: Endpoint,
    sessions: KeyedMap<SessionId, ()>,
    closed: bool,
}

/// A connection as a mathematical value.
#[verifier::ext_equal]
pub struct ConnectionView {
    pub id: u64,
    pub endpoint: Seq<char>,
    pub sessions: Set<Seq<u8>>,
    pub closed: bool,
}

impl View for TransportConnection {
    type V = ConnectionView;

    closed spec fn view(&self) -> ConnectionView {
        ConnectionView {
            id: self.id,
            endpoint: self.endpoint@,
            sessions: self.sessions@.dom(),
            closed: self.closed,
        }
    }
}

impl TransportConnection {
    /// No Session is bound twice.
    pub closed spec fn wf(&self) -> bool {
        self.sessions.wf()
    }

    /// The Sessions that are bound to a connection are finitely many.
    pub proof fn lemma_finite(&self)
        requires
            self.wf(),
        ensures
            self@.sessions.finite(),
    {
        self.sessions.lemma_order();
    }

    /// A new connection without Sessions.
    pub fn new(id: u64, endpoint: &Endpoint) -> (connection: Self)
        ensures
            connection.wf(),
            connection@ == (ConnectionView {
                id,
                endpoint: endpoint@,
                sessions: Set::empty(),
                closed: false,
            }),
    {
        let connection = TransportConnection {
            id,
            endpoint: endpoint.duplicate(),
            sessions: KeyedMap::new(),
            closed: false,
        };
        assert(connection@.sessions =~= Set::<Seq<u8>>::empty());
        connection
    }

    /// The identity of the connection.
    pub fn id(&self) -> (id: u64)
        ensures
            id == self@.id,
    {
        self.id
    }

    /// Whether the connection goes to an endpoint.
    pub fn goes_to(&self, endpoint: &Endpoint) -> (goes: bool)
        ensures
            goes == (self@.endpoint == endpoint@),
    {
        self.endpoint.same(endpoint)
    }

    /// Whether the connection is closed.
    pub fn is_closed(&self) -> (closed: bool)
        ensures
            closed == self@.closed,
    {
        self.closed
    }

    /// The number of Sessions that are bound to the connection.
    pub fn bound_sessions(&self) -> (count: usize)
        requires
            self.wf(),
        ensures
            count == self@.sessions.len(),
    {
        self.sessions.len()
    }

    /// Whether a Session is bound to the connection.
    pub fn is_bound(&self, session_id: &SessionId) -> (bound: bool)
        requires
            self.wf(),
        ensures
            bound == self@.sessions.contains(session_id@),
    {
        self.sessions.contains(session_id)
    }

    /// Binds a Session to the connection.
    pub fn bind(&mut self, session_id: SessionId)
        requires
            old(self).wf(),
        ensures
            final(self).wf(),
            final(self)@ == (ConnectionView {
                sessions: old(self)@.sessions.insert(session_id@),
                ..old(self)@
            }),
    {
        self.sessions.insert(session_id, ());
        assert(self@.sessions =~= old(self)@.sessions.insert(session_id@));
    }

    /// Unbinds a Session from the connection.
    pub fn unbind(&mut self, session_id: &SessionId)
        requires
            old(self).wf(),
        ensures
            final(self).wf(),
            final(self)@ == (ConnectionView {
                sessions: old(self)@.sessions.remove(session_id@),
                ..old(self)@
            }),
    {
        self.sessions.remove(session_id);
        assert(self@.sessions =~= old(self)@.sessions.remove(session_id@));
    }

    /// Whether a message may be put on the connection.
    pub fn admits(&self) -> (result: Result<(), SendError>)
        ensures
            result is Ok == !self@.closed,
            result matches Err(error) ==> error == SendError::RemoteUnavailable,
    {
        if self.closed {
            Err(SendError::RemoteUnavailable)
        } else {
            Ok(())
        }
    }

    /// Closes the connection. The answer is whether it was open, in which case
    /// the host closes its end.
    pub fn close(&mut self) -> (was_open: bool)
        requires
            old(self).wf(),
        ensures
            final(self).wf(),
            was_open == !old(self)@.closed,
            final(self)@ == (ConnectionView { closed: true, ..old(self)@ }),
    {
        let was_open = !self.closed;
        self.closed = true;
        was_open
    }

    /// Unbinds all Sessions and hands them out, each once.
    pub fn drain(&mut self) -> (sessions: Vec<SessionId>)
        requires
            old(self).wf(),
        ensures
            final(self).wf(),
            final(self)@ == (ConnectionView { sessions: Set::empty(), ..old(self)@ }),
            sessions@.map_values(|s: SessionId| s@).no_duplicates(),
            sessions@.map_values(|s: SessionId| s@).to_set() == old(self)@.sessions,
    {
        proof {
            self.sessions.lemma_order();
        }
        let sessions = self.sessions.keys();
        self.sessions.clear();
        assert(self@.sessions =~= Set::<Seq<u8>>::empty());
        sessions
    }
}

/// Unbinding a Session undoes binding it.
pub proof fn law_unbind_undoes_bind(connection: ConnectionView, session_id: Seq<u8>)
    requires
        !connection.sessions.contains(session_id),
    ensures
        connection.sessions.insert(session_id).remove(session_id) == connection.sessions,
{
    assert(connection.sessions.insert(session_id).remove(session_id) =~= connection.sessions);
}

/// The connections of a Client, in the order in which they were made.
pub struct ConnectionPools {
    connections: Vec<TransportConnection>,
    next_connection_id: u64,
}

/// What has to be done for a connection to an endpoint.
#[derive(Clone, Copy, Debug, PartialEq, Eq, Structural)]
pub enum ConnectionPlan {
    /// Make a new one.
    Connect,
    /// Use the one with this identity.
    Reuse(u64),
}

/// A connection to an endpoint that can be used.
pub open spec fn serves(connection: ConnectionView, endpoint: Seq<char>) -> bool {
    connection.endpoint == endpoint && !connection.closed
}

/// The connections without the closed ones to an endpoint.
pub open spec fn swept(
    connections: Seq<ConnectionView>,
    endpoint: Seq<char>,
) -> Seq<ConnectionView> {
    connections.filter(|c: ConnectionView| c.endpoint != endpoint || !c.closed)
}

/// The number of connections to an endpoint that can be used.
pub open spec fn serving(connections: Seq<ConnectionView>, endpoint: Seq<char>) -> nat {
    connections.filter(|c: ConnectionView| serves(c, endpoint)).len()
}

/// The connection at a place is the one to use for an endpoint: none that can be
/// used has fewer Sessions, and none before it as few.
pub open spec fn is_least_bound(
    connections: Seq<ConnectionView>,
    endpoint: Seq<char>,
    at: int,
) -> bool {
    &&& 0 <= at < connections.len()
    &&& serves(connections[at], endpoint)
    &&& forall|i: int|
        0 <= i < connections.len() && serves(#[trigger] connections[i], endpoint)
            ==> connections[at].sessions.len() <= connections[i].sessions.len()
    &&& forall|i: int|
        0 <= i < at && serves(#[trigger] connections[i], endpoint)
            ==> connections[at].sessions.len() < connections[i].sessions.len()
}

/// `plan` and `after` are what a Session that wants a connection to an endpoint
/// comes to.
pub open spec fn planned(
    before: Seq<ConnectionView>,
    after: Seq<ConnectionView>,
    endpoint: Seq<char>,
    session_id: Seq<u8>,
    limit: usize,
    plan: ConnectionPlan,
) -> bool {
    let open = swept(before, endpoint);
    if serving(open, endpoint) < limit {
        plan == ConnectionPlan::Connect && after == open
    } else {
        &&& plan matches ConnectionPlan::Reuse(id)
        &&& exists|at: int| #[trigger]
            is_least_bound(open, endpoint, at) && open[at].id == id && after == open.update(
                at,
                ConnectionView { sessions: open[at].sessions.insert(session_id), ..open[at] },
            )
    }
}

impl View for ConnectionPools {
    type V = Seq<ConnectionView>;

    closed spec fn view(&self) -> Seq<ConnectionView> {
        self.connections@.map_values(|c: TransportConnection| c@)
    }
}

impl ConnectionPools {
    /// Every connection is sound.
    pub closed spec fn wf(&self) -> bool {
        forall|i: int| 0 <= i < self.connections@.len() ==> (#[trigger] self.connections@[i]).wf()
    }

    /// The identity of the next connection.
    pub closed spec fn next_id(&self) -> u64 {
        self.next_connection_id
    }

    /// No connections.
    pub fn new() -> (pools: Self)
        ensures
            pools.wf(),
            pools@ == Seq::<ConnectionView>::empty(),
            pools.next_id() == 1,
    {
        let pools = ConnectionPools { connections: Vec::new(), next_connection_id: 1 };
        assert(pools@ =~= Seq::<ConnectionView>::empty());
        pools
    }

    fn sweep(&mut self, endpoint: &Endpoint)
        requires
            old(self).wf(),
        ensures
            final(self).wf(),
            final(self)@ == swept(old(self)@, endpoint@),
            final(self).next_id() == old(self).next_id(),
    {
        let ghost before = self@;
        let ghost keep = |c: ConnectionView| c.endpoint != endpoint@ || !c.closed;
        let mut i: usize = 0;
        let ghost mut done: int = 0;
        assert(before.take(0) =~= Seq::<ConnectionView>::empty());
        reveal(Seq::filter);
        assert(before.skip(0) =~= before);
        assert(self@.take(0) =~= before.take(0).filter(keep));
        while i < self.connections.len()
            invariant
                self.wf(),
                self.next_connection_id == old(self).next_connection_id,
                i <= self.connections@.len(),
                0 <= done <= before.len(),
                keep == (|c: ConnectionView| c.endpoint != endpoint@ || !c.closed),
                self@.len() - i == before.len() - done,
                self@.take(i as int) == before.take(done).filter(keep),
                self@.skip(i as int) == before.skip(done),
            decreases self.connections@.len() - i,
        {
            let ghost step = self@;
            assert(step[i as int] == step.skip(i as int)[0]);
            assert(step[i as int] == before[done]);
            assert(before.take(done + 1).drop_last() =~= before.take(done));
            reveal(Seq::filter);
            if self.connections[i].goes_to(endpoint) && self.connections[i].is_closed() {
                self.connections.remove(i);
                assert(self@ =~= step.remove(i as int));
                assert(self@.take(i as int) =~= step.take(i as int));
                assert(self@.skip(i as int) =~= before.skip(done + 1)) by {
                    assert forall|j: int| 0 <= j < self@.skip(i as int).len() implies (
                    #[trigger] self@.skip(i as int)[j]) == before.skip(done + 1)[j] by {
                        assert(step.skip(i as int)[j + 1] == before.skip(done)[j + 1]);
                    }
                }
            } else {
                assert(step.take(i + 1) =~= step.take(i as int).push(step[i as int]));
                assert(self@.skip(i + 1) =~= before.skip(done + 1)) by {
                    assert forall|j: int| 0 <= j < self@.skip(i + 1).len() implies (
                    #[trigger] self@.skip(i + 1)[j]) == before.skip(done + 1)[j] by {
                        assert(step.skip(i as int)[j + 1] == before.skip(done)[j + 1]);
                    }
                }
                i += 1;
            }
            proof {
                done = done + 1;
            }
        }
        assert(self@.take(i as int) =~= self@);
        assert(before.take(done) =~= before);
    }

    fn count_serving(&self, endpoint: &Endpoint) -> (count: usize)
        requires
            self.wf(),
        ensures
            count == serving(self@, endpoint@),
    {
        let mut count: usize = 0;
        let mut i: usize = 0;
        let ghost keep = |c: ConnectionView| serves(c, endpoint@);
        assert(self@.take(0) =~= Seq::<ConnectionView>::empty());
        reveal(Seq::filter);
        while i < self.connections.len()
            invariant
                self.wf(),
                i <= self.connections@.len(),
                keep == (|c: ConnectionView| serves(c, endpoint@)),
                count == self@.take(i as int).filter(keep).len(),
                count <= i,
            decreases self.connections@.len() - i,
        {
            reveal(Seq::filter);
            assert(self@.take(i + 1).drop_last() =~= self@.take(i as int));
            assert(self@[i as int] == self.connections@[i as int]@);
            if self.connections[i].goes_to(endpoint) && !self.connections[i].is_closed() {
                count += 1;
            }
            i += 1;
        }
        assert(self@.take(i as int) =~= self@);
        count
    }

    fn least_bound(&self, endpoint: &Endpoint) -> (at: Option<usize>)
        requires
            self.wf(),
        ensures
            at matches Some(i) ==> is_least_bound(self@, endpoint@, i as int),
            at is None ==> forall|i: int|
                0 <= i < self@.len() ==> !serves(#[trigger] self@[i], endpoint@),
    {
        let mut best: Option<usize> = None;
        let mut i: usize = 0;
        while i < self.connections.len()
            invariant
                self.wf(),
                i <= self.connections@.len(),
                best matches Some(b) ==> {
                    &&& b < i
                    &&& serves(self@[b as int], endpoint@)
                    &&& forall|k: int|
                        0 <= k < i && serves(#[trigger] self@[k], endpoint@)
                            ==> self@[b as int].sessions.len() <= self@[k].sessions.len()
                    &&& forall|k: int|
                        0 <= k < b && serves(#[trigger] self@[k], endpoint@)
                            ==> self@[b as int].sessions.len() < self@[k].sessions.len()
                },
                best is None ==> forall|k: int|
                    0 <= k < i ==> !serves(#[trigger] self@[k], endpoint@),
            decreases self.connections@.len() - i,
        {
            assert(self@[i as int] == self.connections@[i as int]@);
            if self.connections[i].goes_to(endpoint) && !self.connections[i].is_closed() {
                let count: usize = self.connections[i].bound_sessions();
                match best {
                    Some(b) => {
                        assert(self@[b as int] == self.connections@[b as int]@);
                        if count < self.connections[b].bound_sessions() {
                            best = Some(i);
                        }
                    },
                    None => {
                        best = Some(i);
                    },
                }
            }
            i += 1;
        }
        best
    }

    /// Finds a connection to an endpoint for a Session. As long as the endpoint
    /// has fewer connections than the limit, a new one is made; after that the
    /// one with the fewest Sessions is shared.
    pub fn plan(&mut self, endpoint: &Endpoint, session_id: SessionId, limit: usize) -> (plan:
        ConnectionPlan)
        requires
            old(self).wf(),
            limit > 0,
        ensures
            final(self).wf(),
            final(self).next_id() == old(self).next_id(),
            planned(old(self)@, final(self)@, endpoint@, session_id@, limit, plan),
    {
        self.sweep(endpoint);
        let ghost open = self@;
        if self.count_serving(endpoint) < limit {
            return ConnectionPlan::Connect;
        }
        match self.least_bound(endpoint) {
            Some(at) => {
                assert(open[at as int] == self.connections@[at as int]@);
                let id: u64 = self.connections[at].id();
                self.connections[at].bind(session_id);
                assert(self@ =~= open.update(
                    at as int,
                    ConnectionView {
                        sessions: open[at as int].sessions.insert(session_id@),
                        ..open[at as int]
                    },
                ));
                ConnectionPlan::Reuse(id)
            },
            None => {
                proof {
                    lemma_filter_none(open, |c: ConnectionView| serves(c, endpoint@));
                }
                ConnectionPlan::Connect
            },
        }
    }

    /// Takes in a connection that was just made, with its first Session. The
    /// answer is its identity.
    pub fn connected(&mut self, endpoint: &Endpoint, session_id: SessionId) -> (id: u64)
        requires
            old(self).wf(),
        ensures
            final(self).wf(),
            id == old(self).next_id(),
            final(self).next_id() == if id == u64::MAX {
                0
            } else {
                (id + 1) as u64
            },
            final(self)@ == old(self)@.push(
                ConnectionView {
                    id,
                    endpoint: endpoint@,
                    sessions: Set::<Seq<u8>>::empty().insert(session_id@),
                    closed: false,
                },
            ),
    {
        let id: u64 = self.next_connection_id;
        self.next_connection_id = id.wrapping_add(1);
        let mut connection = TransportConnection::new(id, endpoint);
        connection.bind(session_id);
        self.connections.push(connection);
        assert(self@ =~= old(self)@.push(connection@));
        id
    }

    fn position(&self, id: u64) -> (at: Option<usize>)
        ensures
            at matches Some(i) ==> i < self@.len() && self@[i as int].id == id && forall|k: int|
                0 <= k < i ==> (#[trigger] self@[k]).id != id,
            at is None ==> forall|k: int| 0 <= k < self@.len() ==> (#[trigger] self@[k]).id != id,
    {
        let mut i: usize = 0;
        while i < self.connections.len()
            invariant
                i <= self.connections@.len(),
                forall|k: int| 0 <= k < i ==> (#[trigger] self@[k]).id != id,
            decreases self.connections@.len() - i,
        {
            assert(self@[i as int] == self.connections@[i as int]@);
            if self.connections[i].id() == id {
                return Some(i);
            }
            i += 1;
        }
        None
    }

    /// Whether a Session is bound to a connection.
    pub fn is_bound(&self, id: u64, session_id: &SessionId) -> (bound: bool)
        requires
            self.wf(),
        ensures
            bound == bound_on(self@, id, session_id@),
    {
        match self.position(id) {
            Some(at) => {
                proof {
                    lemma_first(self@, id, at as int);
                }
                assert(self@[at as int] == self.connections@[at as int]@);
                self.connections[at].is_bound(session_id)
            },
            None => false,
        }
    }

    /// Whether a message may be put on a connection.
    pub fn admits(&self, id: u64) -> (result: Result<(), SendError>)
        requires
            self.wf(),
        ensures
            result is Ok == (has(self@, id) && !self@[first(self@, id)].closed),
            result matches Err(error) ==> error == SendError::RemoteUnavailable,
    {
        match self.position(id) {
            Some(at) => {
                proof {
                    lemma_first(self@, id, at as int);
                }
                assert(self@[at as int] == self.connections@[at as int]@);
                self.connections[at].admits()
            },
            None => Err(SendError::RemoteUnavailable),
        }
    }

    /// Unbinds a Session from a connection.
    pub fn unbind(&mut self, id: u64, session_id: &SessionId)
        requires
            old(self).wf(),
        ensures
            final(self).wf(),
            final(self).next_id() == old(self).next_id(),
            final(self)@ == unbound(old(self)@, id, session_id@),
    {
        let ghost before = self@;
        match self.position(id) {
            Some(at) => {
                proof {
                    lemma_first(before, id, at as int);
                }
                assert(before[at as int] == self.connections@[at as int]@);
                self.connections[at].unbind(session_id);
                assert(self@ =~= unbound(before, id, session_id@));
            },
            None => {},
        }
    }

    /// Takes a connection out that is gone: the Sessions that were bound to it,
    /// each once.
    pub fn remove(&mut self, id: u64) -> (sessions: Vec<SessionId>)
        requires
            old(self).wf(),
        ensures
            final(self).wf(),
            final(self).next_id() == old(self).next_id(),
            final(self)@ == if has(old(self)@, id) {
                old(self)@.remove(first(old(self)@, id))
            } else {
                old(self)@
            },
            sessions@.map_values(|s: SessionId| s@).no_duplicates(),
            sessions@.map_values(|s: SessionId| s@).to_set() == if has(old(self)@, id) {
                old(self)@[first(old(self)@, id)].sessions
            } else {
                Set::empty()
            },
    {
        let ghost before = self@;
        match self.position(id) {
            Some(at) => {
                proof {
                    lemma_first(before, id, at as int);
                }
                assert(before[at as int] == self.connections@[at as int]@);
                let mut connection = self.connections.remove(at);
                assert(self@ =~= before.remove(at as int));
                connection.drain()
            },
            None => {
                let sessions: Vec<SessionId> = Vec::new();
                assert(sessions@.map_values(|s: SessionId| s@).to_set() =~= Set::<Seq<u8>>::empty());
                sessions
            },
        }
    }

    /// Takes all connections out: the identities of those that have to be closed.
    pub fn clear(&mut self) -> (ids: Vec<u64>)
        requires
            old(self).wf(),
        ensures
            final(self).wf(),
            final(self)@ == Seq::<ConnectionView>::empty(),
            final(self).next_id() == old(self).next_id(),
            ids@ == old(self)@.filter(|c: ConnectionView| !c.closed).map_values(
                |c: ConnectionView| c.id,
            ),
    {
        let ghost before = self@;
        let ghost keep = |c: ConnectionView| !c.closed;
        let mut ids: Vec<u64> = Vec::new();
        let mut i: usize = 0;
        reveal(Seq::filter);
        assert(before.take(0) =~= Seq::<ConnectionView>::empty());
        assert(ids@ =~= before.take(0).filter(keep).map_values(|c: ConnectionView| c.id));
        while i < self.connections.len()
            invariant
                self.wf(),
                before == self@,
                i <= self.connections@.len(),
                keep == (|c: ConnectionView| !c.closed),
                self.next_connection_id == old(self).next_connection_id,
                ids@ == before.take(i as int).filter(keep).map_values(|c: ConnectionView| c.id),
            decreases self.connections@.len() - i,
        {
            reveal(Seq::filter);
            assert(before.take(i + 1).drop_last() =~= before.take(i as int));
            assert(before[i as int] == self.connections@[i as int]@);
            let ghost earlier = before.take(i as int).filter(keep);
            let ghost held = ids@;
            if !self.connections[i].is_closed() {
                ids.push(self.connections[i].id());
                assert(earlier.push(before[i as int]).map_values(|c: ConnectionView| c.id) =~= held.push(
                    before[i as int].id,
                ));
            }
            i += 1;
        }
        assert(before.take(i as int) =~= before);
        self.connections.clear();
        assert(self@ =~= Seq::<ConnectionView>::empty());
        ids
    }
}

/// A connection with this identity exists.
pub open spec fn has(connections: Seq<ConnectionView>, id: u64) -> bool {
    exists|i: int| 0 <= i < connections.len() && (#[trigger] connections[i]).id == id
}

/// The place of the first connection with this identity.
pub open spec fn first(connections: Seq<ConnectionView>, id: u64) -> int {
    choose|i: int|
        0 <= i < connections.len() && (#[trigger] connections[i]).id == id && forall|k: int|
            0 <= k < i ==> (#[trigger] connections[k]).id != id
}

pub(crate) proof fn lemma_first(connections: Seq<ConnectionView>, id: u64, at: int)
    requires
        0 <= at < connections.len(),
        connections[at].id == id,
        forall|k: int| 0 <= k < at ==> (#[trigger] connections[k]).id != id,
    ensures
        has(connections, id),
        first(connections, id) == at,
{
    let other = first(connections, id);
    assert(0 <= other < connections.len() && connections[other].id == id);
    if other < at {
        assert(connections[other].id != id);
    }
    if at < other {
        assert(connections[at].id != id);
    }
}

/// A Session is bound to the connection with this identity.
pub open spec fn bound_on(connections: Seq<ConnectionView>, id: u64, session_id: Seq<u8>) -> bool {
    has(connections, id) && connections[first(connections, id)].sessions.contains(session_id)
}

/// The connections once a Session is unbound from one of them.
pub open spec fn unbound(
    connections: Seq<ConnectionView>,
    id: u64,
    session_id: Seq<u8>,
) -> Seq<ConnectionView> {
    if has(connections, id) {
        let at = first(connections, id);
        connections.update(
            at,
            ConnectionView {
                sessions: connections[at].sessions.remove(session_id),
                ..connections[at]
            },
        )
    } else {
        connections
    }
}

proof fn lemma_filter_none<A>(s: Seq<A>, keep: spec_fn(A) -> bool)
    requires
        forall|i: int| 0 <= i < s.len() ==> !keep(#[trigger] s[i]),
    ensures
        s.filter(keep).len() == 0,
    decreases s.len(),
{
    reveal(Seq::filter);
    if s.len() > 0 {
        assert(!keep(s[s.len() - 1]));
        lemma_filter_none(s.drop_last(), keep);
    }
}

/// The limit on connections holds: a new connection to an endpoint is asked for
/// only while there are fewer than the limit that can be used.
pub proof fn law_connections_are_limited(
    before: Seq<ConnectionView>,
    after: Seq<ConnectionView>,
    endpoint: Seq<char>,
    session_id: Seq<u8>,
    limit: usize,
    plan: ConnectionPlan,
    made: ConnectionView,
)
    requires
        planned(before, after, endpoint, session_id, limit, plan),
        plan == ConnectionPlan::Connect,
        serves(made, endpoint),
    ensures
        serving(after.push(made), endpoint) <= limit,
{
    let keep = |c: ConnectionView| serves(c, endpoint);
    reveal(Seq::filter);
    assert(after.push(made).drop_last() =~= after);
    assert(after.push(made).filter(keep) == after.filter(keep).push(made));
}

/// A search for a connection to an endpoint drops only the closed connections to that
/// endpoint: every other connection stays, and no closed one to it is left.
pub proof fn law_only_closed_connections_are_swept(
    connections: Seq<ConnectionView>,
    endpoint: Seq<char>,
    connection: ConnectionView,
)
    ensures
        swept(connections, endpoint).contains(connection) <==> connections.contains(connection) && !(
        connection.endpoint == endpoint && connection.closed),
{
    let keep = |c: ConnectionView| c.endpoint != endpoint || !c.closed;
    assert(swept(connections, endpoint) == connections.filter(keep));
    connections.filter_lemma(keep);
    if swept(connections, endpoint).contains(connection) {
        connections.lemma_filter_contains_rev(keep, connection);
        assert(keep(connection));
    }
    if connections.contains(connection) && keep(connection) {
        let at = choose|at: int| 0 <= at < connections.len() && connections[at] == connection;
        connections.lemma_filter_contains(keep, at);
    }
}

/// As long as no open connection goes to an endpoint, a new one is made, whatever the limit;
/// and a connection that is shared is open, goes to the endpoint, and afterwards has the
/// Session bound.
pub proof fn law_shared_connections_serve(
    before: Seq<ConnectionView>,
    after: Seq<ConnectionView>,
    endpoint: Seq<char>,
    session_id: Seq<u8>,
    limit: usize,
    plan: ConnectionPlan,
)
    requires
        planned(before, after, endpoint, session_id, limit, plan),
        limit > 0,
    ensures
        (forall|i: int|
            0 <= i < before.len() ==> (#[trigger] before[i]).endpoint != endpoint
                || before[i].closed) ==> plan == ConnectionPlan::Connect,
        plan matches ConnectionPlan::Reuse(id) ==> exists|at: int|
            0 <= at < after.len() && (#[trigger] after[at]).id == id && after[at].endpoint
                == endpoint && !after[at].closed && after[at].sessions.contains(session_id),
{
    let keep = |c: ConnectionView| c.endpoint != endpoint || !c.closed;
    let used = |c: ConnectionView| serves(c, endpoint);
    let open = swept(before, endpoint);
    assert(open == before.filter(keep));
    before.filter_lemma(keep);
    if forall|i: int|
        0 <= i < before.len() ==> (#[trigger] before[i]).endpoint != endpoint || before[i].closed {
        assert forall|i: int| 0 <= i < open.len() implies !used(#[trigger] open[i]) by {
            assert(open.contains(open[i]));
            before.lemma_filter_contains_rev(keep, open[i]);
        }
        lemma_filter_none(open, used);
    }
    if let ConnectionPlan::Reuse(id) = plan {
        let at = choose|at: int| #[trigger]
            is_least_bound(open, endpoint, at) && open[at].id == id && after == open.update(
                at,
                ConnectionView { sessions: open[at].sessions.insert(session_id), ..open[at] },
            );
        assert(after[at].id == id);
    }
}

/// Sessions are shared out evenly: no open connection to the endpoint has fewer Sessions
/// than the one that is shared had.
pub proof fn law_the_least_used_connection_is_shared(
    before: Seq<ConnectionView>,
    after: Seq<ConnectionView>,
    endpoint: Seq<char>,
    session_id: Seq<u8>,
    limit: usize,
    id: u64,
    other: ConnectionView,
)
    requires
        planned(before, after, endpoint, session_id, limit, ConnectionPlan::Reuse(id)),
        before.contains(other),
        other.endpoint == endpoint,
        !other.closed,
    ensures
        exists|at: int|
            #![trigger before[at]]
            0 <= at < before.len() && before[at].id == id && before[at].endpoint == endpoint
                && !before[at].closed && before[at].sessions.len() <= other.sessions.len(),
{
    let keep = |c: ConnectionView| c.endpoint != endpoint || !c.closed;
    let open = swept(before, endpoint);
    assert(open == before.filter(keep));
    let at = choose|at: int| #[trigger]
        is_least_bound(open, endpoint, at) && open[at].id == id && after == open.update(
            at,
            ConnectionView { sessions: open[at].sessions.insert(session_id), ..open[at] },
        );
    law_only_closed_connections_are_swept(before, endpoint, other);
    assert(open.contains(other));
    let i = choose|i: int| 0 <= i < open.len() && open[i] == other;
    assert(serves(open[i], endpoint));
    assert(open.contains(open[at]));
    before.lemma_filter_contains_rev(keep, open[at]);
    assert(before.contains(open[at]));
}

/// A connection below the limit is made rather than shared.
pub proof fn law_connections_are_made_up_to_the_limit(
    before: Seq<ConnectionView>,
    after: Seq<ConnectionView>,
    endpoint: Seq<char>,
    session_id: Seq<u8>,
    limit: usize,
    plan: ConnectionPlan,
)
    requires
        planned(before, after, endpoint, session_id, limit, plan),
        before.len() < limit,
    ensures
        plan == ConnectionPlan::Connect,
{
    let keep = |c: ConnectionView| c.endpoint != endpoint || !c.closed;
    let open = swept(before, endpoint);
    assert(open == before.filter(keep));
    before.filter_lemma(keep);
    before.lemma_filter_len(keep);
    open.lemma_filter_len(|c: ConnectionView| serves(c, endpoint));
}

/// Where no identity occurs twice, a Session is bound to a connection exactly if the
/// connection with that identity lists it.
pub proof fn law_sessions_are_bound_where_they_are_listed(
    connections: Seq<ConnectionView>,
    at: int,
    session_id: Seq<u8>,
)
    requires
        0 <= at < connections.len(),
        forall|k: int| 0 <= k < at ==> (#[trigger] connections[k]).id != connections[at].id,
    ensures
        bound_on(connections, connections[at].id, session_id) <==> connections[at].sessions.contains(
            session_id,
        ),
{
    lemma_first(connections, connections[at].id, at);
}

/// A connection that is not there has no Sessions.
pub proof fn law_unknown_connections_have_no_sessions(
    connections: Seq<ConnectionView>,
    id: u64,
    session_id: Seq<u8>,
)
    requires
        forall|k: int| 0 <= k < connections.len() ==> (#[trigger] connections[k]).id != id,
    ensures
        !bound_on(connections, id, session_id),
        unbound(connections, id, session_id) == connections,
{
}

/// Unbinding takes the one Session off the one connection: afterwards it is not bound there,
/// and every other Session is bound where it was.
pub proof fn law_unbinding_takes_one_session(
    connections: Seq<ConnectionView>,
    id: u64,
    session_id: Seq<u8>,
    other_id: u64,
    other: Seq<u8>,
)
    ensures
        !bound_on(unbound(connections, id, session_id), id, session_id),
        other_id != id || other != session_id ==> (bound_on(
            unbound(connections, id, session_id),
            other_id,
            other,
        ) <==> bound_on(connections, other_id, other)),
        unbound(connections, id, session_id).len() == connections.len(),
{
    let after = unbound(connections, id, session_id);
    if has(connections, id) {
        lemma_has_first(connections, id);
        let at = first(connections, id);
        assert(after[at].id == id);
        lemma_first(after, id, at);
        if has(connections, other_id) {
            lemma_has_first(connections, other_id);
            let k = first(connections, other_id);
            assert forall|j: int| 0 <= j < k implies (#[trigger] after[j]).id != other_id by {
                assert(connections[j].id != other_id);
            }
            assert(after[k].id == connections[k].id);
            lemma_first(after, other_id, k);
        } else {
            assert forall|j: int| 0 <= j < after.len() implies (#[trigger] after[j]).id
                != other_id by {
                assert(connections[j].id != other_id);
            }
        }
    }
}

proof fn lemma_has_first(connections: Seq<ConnectionView>, id: u64)
    requires
        has(connections, id),
    ensures
        0 <= first(connections, id) < connections.len(),
        connections[first(connections, id)].id == id,
        forall|k: int| 0 <= k < first(connections, id) ==> (#[trigger] connections[k]).id != id,
    decreases connections.len(),
{
    let last = connections.len() - 1;
    let init = connections.drop_last();
    if has(init, id) {
        lemma_has_first(init, id);
        let at = first(init, id);
        assert(connections[at] == init[at]);
        assert forall|k: int| 0 <= k < at implies (#[trigger] connections[k]).id != id by {
            assert(init[k] == connections[k]);
        }
        lemma_first(connections, id, at);
    } else {
        let i = choose|i: int| 0 <= i < connections.len() && (#[trigger] connections[i]).id == id;
        assert(i == last) by {
            if i < last {
                assert(init[i].id == id);
            }
        }
        assert forall|k: int| 0 <= k < last implies (#[trigger] connections[k]).id != id by {
            assert(init[k] == connections[k]);
        }
        lemma_first(connections, id, last);
    }
}

} // verus!
