//! The endpoints and connections of the in-memory transport.

use std::collections::HashMap;

use vstd::prelude::*;
use vstd::std_specs::iter::IteratorSpec;
use vstd::string::*;

use crate::command::api::same_bytes;
use crate::keyed::KeyedMap;
use crate::mailbox::{mailbox, Inbox, InboxView, Mailbox, MailboxView, Offer};
use crate::runtime::session::SessionId;
use crate::transport::{Endpoint, TransportError};
use crate::transport_protocol::Envelope;

verus! {

/// The messages that a connection holds before it refuses more.
pub const INMEM_CHANNEL_CAPACITY: usize = 1024;

broadcast use vstd::std_specs::hash::group_hash_axioms;

/// One message that a caller put on a connection.
pub struct RecordedEnvelope {
    pub connection_id: u64,
    pub session_id: Vec<u8>,
}

/// The endpoints that accept connections, the connections that are open, and a
/// record of what callers sent. `L` is the host's handle on a listener, `C` its
/// handle on a connection.
pub struct InmemRegistry<L, C> {
    endpoints: KeyedMap<String, L>,
    next_connection_id: u64,
    connections: HashMap<u64, InmemConnection<C>>,
    envelopes: Vec<RecordedEnvelope>,
}

/// An open connection.
pub struct InmemConnection<C> {
    pub endpoint: String,
    pub handle: C,
}

impl<L, C> InmemRegistry<L, C> {
    /// The endpoints that accept connections.
    pub closed spec fn listeners(&self) -> Map<Seq<char>, L> {
        self.endpoints@
    }

    /// The connections that are open.
    pub closed spec fn open(&self) -> Map<u64, InmemConnection<C>> {
        self.connections@
    }

    /// The identity of the next connection.
    pub closed spec fn next_id(&self) -> u64 {
        self.next_connection_id
    }

    /// What callers sent: on which connection, for which Session.
    pub closed spec fn sent(&self) -> Seq<(u64, Seq<u8>)> {
        self.envelopes@.map_values(
            |record: RecordedEnvelope| (record.connection_id, record.session_id@),
        )
    }

    /// No endpoint is listed twice.
    pub closed spec fn wf(&self) -> bool {
        self.endpoints.wf()
    }

    /// An empty registry.
    pub fn new() -> (registry: Self)
        ensures
            registry.wf(),
            registry.listeners() == Map::<Seq<char>, L>::empty(),
            registry.open() == Map::<u64, InmemConnection<C>>::empty(),
            registry.next_id() == 0,
            registry.sent() == Seq::<(u64, Seq<u8>)>::empty(),
    {
        let registry = InmemRegistry {
            endpoints: KeyedMap::new(),
            next_connection_id: 0,
            connections: HashMap::new(),
            envelopes: Vec::new(),
        };
        assert(registry.sent() =~= Seq::<(u64, Seq<u8>)>::empty());
        registry
    }

    /// Lets an endpoint accept connections. An endpoint that does so already is
    /// taken over, and the answer is an error.
    pub fn listen(&mut self, advertised: &Endpoint, listener: L) -> (result: Result<
        (),
        TransportError,
    >)
        requires
            old(self).wf(),
        ensures
            final(self).wf(),
            final(self).listeners() == old(self).listeners().insert(advertised@, listener),
            final(self).open() == old(self).open(),
            final(self).next_id() == old(self).next_id(),
            final(self).sent() == old(self).sent(),
            result is Err == old(self).listeners().dom().contains(advertised@),
            result matches Err(error) ==> error matches TransportError::BindFailed(detail)
                && detail@ == "inmem endpoint `"@ + advertised@ + "` already registered"@,
    {
        let key = advertised.as_str().to_owned();
        if self.endpoints.insert(key.clone(), listener).is_some() {
            return Err(
                TransportError::BindFailed(
                    "inmem endpoint `".to_owned().concat(key.as_str()).concat(
                        "` already registered",
                    ),
                ),
            );
        }
        Ok(())
    }

    /// Stops an endpoint from accepting connections.
    pub fn shutdown(&mut self, endpoint: &str)
        requires
            old(self).wf(),
        ensures
            final(self).wf(),
            final(self).listeners() == old(self).listeners().remove(endpoint@),
            final(self).open() == old(self).open(),
            final(self).next_id() == old(self).next_id(),
            final(self).sent() == old(self).sent(),
    {
        self.endpoints.remove(&endpoint.to_owned());
    }

    /// Opens a connection to an endpoint that accepts some: the identity of the
    /// connection, under which it is listed.
    pub fn connect(&mut self, endpoint: &Endpoint, handle: C) -> (connection: Result<
        u64,
        TransportError,
    >)
        requires
            old(self).wf(),
        ensures
            final(self).wf(),
            final(self).listeners() == old(self).listeners(),
            final(self).sent() == old(self).sent(),
            connection is Ok == old(self).listeners().dom().contains(endpoint@),
            connection matches Ok(id) ==> {
                &&& id == old(self).next_id()
                &&& final(self).next_id() == if id == u64::MAX {
                    0
                } else {
                    (id + 1) as u64
                }
                &&& exists|name: String|
                    name@ == endpoint@ && #[trigger] old(self).open().insert(
                        id,
                        InmemConnection { endpoint: name, handle },
                    ) == final(self).open()
            },
            connection matches Err(error) ==> {
                &&& error matches TransportError::ConnectFailed(detail) && detail@
                    == "unknown endpoint `"@ + endpoint@ + "`"@
                &&& final(self).open() == old(self).open()
                &&& final(self).next_id() == old(self).next_id()
            },
    {
        let key = endpoint.as_str().to_owned();
        if !self.endpoints.contains(&key) {
            return Err(
                TransportError::ConnectFailed(
                    "unknown endpoint `".to_owned().concat(key.as_str()).concat("`"),
                ),
            );
        }
        let id: u64 = self.next_connection_id;
        self.next_connection_id = id.wrapping_add(1);
        let ghost name = key;
        self.connections.insert(id, InmemConnection { endpoint: key, handle });
        proof {
            let listed = InmemConnection { endpoint: name, handle };
            assert(name@ == endpoint@);
            assert(old(self).open().insert(id, listed) == self.open());
        }
        Ok(id)
    }

    /// The listener of an endpoint.
    pub fn listener(&mut self, endpoint: &Endpoint) -> (listener: Option<&mut L>)
        requires
            old(self).wf(),
        ensures
            final(self).wf(),
            final(self).open() == old(self).open(),
            final(self).next_id() == old(self).next_id(),
            final(self).sent() == old(self).sent(),
            listener is Some == old(self).listeners().dom().contains(endpoint@),
            listener matches Some(l) ==> *l == old(self).listeners()[endpoint@]
                && final(self).listeners() == old(self).listeners().insert(endpoint@, *final(l)),
            listener is None ==> final(self).listeners() == old(self).listeners(),
    {
        self.endpoints.get_mut(&endpoint.as_str().to_owned())
    }

    /// Records a message of a caller, and says whether the connection is still
    /// open for it.
    pub fn record(&mut self, connection_id: u64, session_id: Vec<u8>) -> (open: bool)
        requires
            old(self).wf(),
        ensures
            final(self).wf(),
            final(self).listeners() == old(self).listeners(),
            final(self).open() == old(self).open(),
            final(self).next_id() == old(self).next_id(),
            open == old(self).open().dom().contains(connection_id),
            final(self).sent() == if open {
                old(self).sent().push((connection_id, session_id@))
            } else {
                old(self).sent()
            },
    {
        if !self.connections.contains_key(&connection_id) {
            return false;
        }
        self.envelopes.push(RecordedEnvelope { connection_id, session_id });
        assert(self.sent() =~= old(self).sent().push((connection_id, session_id@)));
        true
    }

    /// Closes a connection. The handle comes back the first time.
    pub fn close_connection(&mut self, connection_id: u64) -> (closed: Option<C>)
        requires
            old(self).wf(),
        ensures
            final(self).wf(),
            final(self).listeners() == old(self).listeners(),
            final(self).next_id() == old(self).next_id(),
            final(self).sent() == old(self).sent(),
            final(self).open() == old(self).open().remove(connection_id),
            closed is Some == old(self).open().dom().contains(connection_id),
            closed matches Some(handle) ==> handle == old(self).open()[connection_id].handle,
    {
        match self.connections.remove(&connection_id) {
            Some(connection) => Some(connection.handle),
            None => None,
        }
    }

    /// The open connections of an endpoint.
    pub fn connection_ids(&self, endpoint: &str) -> (ids: Vec<u64>)
        requires
            self.wf(),
        ensures
            forall|id: u64|
                ids@.contains(id) <==> self.open().dom().contains(id) && self.open()[id].endpoint@
                    == endpoint@,
            ids@.no_duplicates(),
    {
        let name = endpoint.to_owned();
        let keys = keys_of(&self.connections);
        let ghost order = keys@;
        let mut ids: Vec<u64> = Vec::new();
        let mut i: usize = 0;
        while i < keys.len()
            invariant
                self.wf(),
                i <= keys@.len(),
                name@ == endpoint@,
                order == keys@,
                order.to_set() == self.connections@.dom(),
                order.no_duplicates(),
                ids@.no_duplicates(),
                forall|id: u64|
                    ids@.contains(id) <==> (exists|j: int| 0 <= j < i && keys@[j] == id)
                        && self.open()[id].endpoint@ == endpoint@,
            decreases keys@.len() - i,
        {
            let id: u64 = keys[i];
            let ghost before = ids@;
            assert(order[i as int] == id);
            assert(order.to_set().contains(id));
            let belongs = match self.connections.get(&id) {
                Some(connection) => connection.endpoint == name,
                None => false,
            };
            if belongs {
                assert(!ids@.contains(id)) by {
                    if ids@.contains(id) {
                        let j = choose|j: int| 0 <= j < i && keys@[j] == id;
                        assert(order[j] == order[i as int]);
                    }
                }
                ids.push(id);
            }
            proof {
                assert forall|x: u64|
                    ids@.contains(x) <==> (exists|j: int| 0 <= j < i + 1 && keys@[j] == x)
                        && self.open()[x].endpoint@ == endpoint@ by {
                    if ids@.contains(x) {
                        let p = choose|p: int| 0 <= p < ids@.len() && ids@[p] == x;
                        if p < before.len() {
                            assert(before[p] == x);
                            assert(before.contains(x));
                            let j = choose|j: int| 0 <= j < i && keys@[j] == x;
                            assert(keys@[j] == x);
                        } else {
                            assert(keys@[i as int] == x);
                        }
                    }
                    if (exists|j: int| 0 <= j < i + 1 && keys@[j] == x)
                        && self.open()[x].endpoint@ == endpoint@ {
                        let j = choose|j: int| 0 <= j < i + 1 && keys@[j] == x;
                        if j < i {
                            assert(before.contains(x));
                            let p = choose|p: int| 0 <= p < before.len() && before[p] == x;
                            assert(ids@[p] == x);
                        } else {
                            assert(ids@[before.len() as int] == x);
                        }
                    }
                }
            }
            i += 1;
        }
        proof {
            assert forall|id: u64|
                (exists|j: int| 0 <= j < keys@.len() && keys@[j] == id)
                    <==> self.open().dom().contains(id) by {
                if self.open().dom().contains(id) {
                    assert(order.to_set().contains(id));
                    let j = choose|j: int| 0 <= j < order.len() && order[j] == id;
                    assert(keys@[j] == id);
                }
                if exists|j: int| 0 <= j < keys@.len() && keys@[j] == id {
                    let j = choose|j: int| 0 <= j < keys@.len() && keys@[j] == id;
                    assert(order[j] == id);
                    assert(order.to_set().contains(id));
                }
            }
        }
        ids
    }

    /// The connections on which a caller sent something for a Session, in
    /// ascending order.
    pub fn session_connection_ids(&self, session_id: SessionId) -> (ids: Vec<u64>)
        ensures
            forall|id: u64| #[trigger]
                ids@.contains(id) <==> self.sent().contains((id, session_id@)),
            forall|i: int, j: int| 0 <= i < j < ids@.len() ==> ids@[i] < ids@[j],
    {
        let bytes = session_id.as_bytes();
        let ghost sent = self.sent();
        let mut ids: Vec<u64> = Vec::new();
        let mut i: usize = 0;
        while i < self.envelopes.len()
            invariant
                i <= self.envelopes@.len(),
                bytes@ == session_id@,
                sent == self.sent(),
                sent.len() == self.envelopes@.len(),
                forall|id: u64| #[trigger]
                    ids@.contains(id) <==> sent.take(i as int).contains((id, session_id@)),
                forall|k: int, j: int| 0 <= k < j < ids@.len() ==> ids@[k] < ids@[j],
            decreases self.envelopes@.len() - i,
        {
            let ghost before = ids@;
            let id: u64 = self.envelopes[i].connection_id;
            assert(sent[i as int] == (id, self.envelopes@[i as int].session_id@));
            assert(sent.take(i + 1) =~= sent.take(i as int).push(sent[i as int]));
            if same_bytes(&self.envelopes[i].session_id, &bytes) {
                insert_ascending(&mut ids, id);
            }
            assert forall|x: u64| #[trigger] ids@.contains(x) <==> sent.take(i + 1).contains(
                (x, session_id@),
            ) by {
                lemma_push_contains(sent.take(i as int), sent[i as int], (x, session_id@));
                assert(before.contains(x) == sent.take(i as int).contains((x, session_id@)));
            }
            i += 1;
        }
        assert(sent.take(i as int) =~= sent);
        ids
    }

    /// How many Sessions each open connection of an endpoint has carried, in
    /// ascending order.
    pub fn connection_session_counts(&self, endpoint: &str) -> (counts: Vec<usize>)
        requires
            self.wf(),
        ensures
            exists|ids: Seq<u64>| #[trigger]
                self.lists_connections(endpoint@, ids) && counts@.to_multiset() == counted(
                    self.sent(),
                    ids,
                ).to_multiset(),
            forall|i: int, j: int| 0 <= i < j < counts@.len() ==> counts@[i] <= counts@[j],
    {
        let ids = self.connection_ids(endpoint);
        let mut counts: Vec<usize> = Vec::new();
        let mut i: usize = 0;
        assert(counts@.to_multiset() =~= counted(self.sent(), ids@.take(0)).to_multiset()) by {
            assert(counts@ =~= counted(self.sent(), ids@.take(0)));
        }
        while i < ids.len()
            invariant
                i <= ids@.len(),
                counts@.to_multiset() == counted(self.sent(), ids@.take(i as int)).to_multiset(),
                forall|k: int, j: int| 0 <= k < j < counts@.len() ==> counts@[k] <= counts@[j],
            decreases ids@.len() - i,
        {
            let count: usize = self.session_count(ids[i]);
            insert_count(&mut counts, count);
            proof {
                let done = counted(self.sent(), ids@.take(i as int));
                assert(counted(self.sent(), ids@.take(i + 1)) =~= done.push(count));
                done.to_multiset_ensures();
            }
            i += 1;
        }
        assert(ids@.take(i as int) =~= ids@);
        assert(self.lists_connections(endpoint@, ids@));
        counts
    }

    /// The open connections of an endpoint, each once.
    pub open spec fn lists_connections(&self, endpoint: Seq<char>, ids: Seq<u64>) -> bool {
        &&& ids.no_duplicates()
        &&& forall|id: u64|
            ids.contains(id) <==> self.open().dom().contains(id) && self.open()[id].endpoint@
                == endpoint
    }

    /// How many Sessions a connection has carried.
    fn session_count(&self, connection_id: u64) -> (count: usize)
        ensures
            count == sessions_on(self.sent(), connection_id).len(),
    {
        let ghost sent = self.sent();
        let mut seen: Vec<Vec<u8>> = Vec::new();
        let ghost mut views: Seq<Seq<u8>> = Seq::empty();
        let mut i: usize = 0;
        while i < self.envelopes.len()
            invariant
                i <= self.envelopes@.len(),
                sent == self.sent(),
                sent.len() == self.envelopes@.len(),
                views.len() == seen@.len(),
                forall|k: int| 0 <= k < views.len() ==> #[trigger] views[k] == seen@[k]@,
                views.no_duplicates(),
                forall|session_id: Seq<u8>| #[trigger]
                    views.contains(session_id) <==> sent.take(i as int).contains(
                        (connection_id, session_id),
                    ),
            decreases self.envelopes@.len() - i,
        {
            let ghost before = views;
            let ghost id = self.envelopes@[i as int].session_id@;
            assert(sent[i as int] == (self.envelopes@[i as int].connection_id, id));
            assert(sent.take(i + 1) =~= sent.take(i as int).push(sent[i as int]));
            if self.envelopes[i].connection_id == connection_id && !holds(
                &seen,
                &self.envelopes[i].session_id,
            ) {
                proof {
                    if views.contains(id) {
                        let k = choose|k: int| 0 <= k < views.len() && views[k] == id;
                        assert(seen@[k]@ == id);
                    }
                    views = views.push(id);
                }
                seen.push(crate::runtime::inbound::copy_bytes(&self.envelopes[i].session_id));
            }
            assert forall|session_id: Seq<u8>| #[trigger]
                views.contains(session_id) <==> sent.take(i + 1).contains(
                    (connection_id, session_id),
                ) by {
                lemma_push_contains(
                    sent.take(i as int),
                    sent[i as int],
                    (connection_id, session_id),
                );
                lemma_push_contains(before, id, session_id);
                assert(before.contains(session_id) == sent.take(i as int).contains(
                    (connection_id, session_id),
                ));
                if exists|k: int| 0 <= k < seen@.len() && (#[trigger] seen@[k])@ == id {
                    let k = choose|k: int| 0 <= k < seen@.len() && (#[trigger] seen@[k])@ == id;
                    assert(views[k] == id);
                }
            }
            i += 1;
        }
        proof {
            assert(sent.take(i as int) =~= sent);
            views.unique_seq_to_set();
            assert(views.to_set() =~= sessions_on(sent, connection_id)) by {
                assert forall|session_id: Seq<u8>|
                    views.to_set().contains(session_id) == sessions_on(
                        sent,
                        connection_id,
                    ).contains(session_id) by {
                    assert(views.contains(session_id) == sent.contains(
                        (connection_id, session_id),
                    ));
                }
            }
        }
        seen.len()
    }
}

/// The keys of a map, in some order.
fn keys_of<V>(map: &HashMap<u64, V>) -> (keys: Vec<u64>)
    ensures
        keys@.no_duplicates(),
        keys@.to_set() == map@.dom(),
{
    let mut keys: Vec<u64> = Vec::new();
    let ghost all = vstd::std_specs::hash::spec_keys_iter(map).remaining().unref();
    for key in iter: map.keys()
        invariant
            all == iter.seq().unref(),
            keys@ == all.take(iter.index() as int),
    {
        keys.push(*key);
    }
    assert(keys@ =~= all);
    keys
}

/// The Sessions for which a caller sent something on a connection.
pub open spec fn sessions_on(sent: Seq<(u64, Seq<u8>)>, connection_id: u64) -> Set<Seq<u8>> {
    Set::new(|session_id: Seq<u8>| sent.contains((connection_id, session_id)))
}

/// How many Sessions each of some connections has carried.
pub open spec fn counted(sent: Seq<(u64, Seq<u8>)>, ids: Seq<u64>) -> Seq<usize> {
    ids.map_values(|id: u64| sessions_on(sent, id).len() as usize)
}

proof fn lemma_push_contains<A>(items: Seq<A>, last: A, item: A)
    ensures
        items.push(last).contains(item) == (items.contains(item) || item == last),
{
    let pushed = items.push(last);
    if items.contains(item) {
        let k = choose|k: int| 0 <= k < items.len() && items[k] == item;
        assert(pushed[k] == item);
    }
    if item == last {
        assert(pushed[items.len() as int] == item);
    }
    if pushed.contains(item) {
        let k = choose|k: int| 0 <= k < pushed.len() && pushed[k] == item;
        if k < items.len() {
            assert(items[k] == item);
        }
    }
}

fn holds(seen: &Vec<Vec<u8>>, bytes: &Vec<u8>) -> (found: bool)
    ensures
        found == exists|k: int| 0 <= k < seen@.len() && (#[trigger] seen@[k])@ == bytes@,
{
    let mut i: usize = 0;
    while i < seen.len()
        invariant
            i <= seen@.len(),
            forall|k: int| 0 <= k < i ==> (#[trigger] seen@[k])@ != bytes@,
        decreases seen@.len() - i,
    {
        if same_bytes(&seen[i], bytes) {
            return true;
        }
        i += 1;
    }
    false
}

fn insert_ascending(ids: &mut Vec<u64>, id: u64)
    requires
        forall|i: int, j: int| 0 <= i < j < old(ids)@.len() ==> old(ids)@[i] < old(ids)@[j],
    ensures
        forall|i: int, j: int| 0 <= i < j < final(ids)@.len() ==> final(ids)@[i] < final(ids)@[j],
        forall|x: u64| #[trigger] final(ids)@.contains(x) <==> old(ids)@.contains(x) || x == id,
{
    let mut at: usize = 0;
    while at < ids.len() && ids[at] < id
        invariant
            at <= ids@.len(),
            ids@ == old(ids)@,
            forall|k: int| 0 <= k < at ==> ids@[k] < id,
        decreases ids@.len() - at,
    {
        at += 1;
    }
    if at < ids.len() && ids[at] == id {
        return;
    }
    ids.insert(at, id);
    assert forall|x: u64| #[trigger] ids@.contains(x) <==> old(ids)@.contains(x) || x == id by {
        if old(ids)@.contains(x) {
            let k = choose|k: int| 0 <= k < old(ids)@.len() && old(ids)@[k] == x;
            if k < at {
                assert(ids@[k] == x);
            } else {
                assert(ids@[k + 1] == x);
            }
        }
        if x == id {
            assert(ids@[at as int] == x);
        }
        if ids@.contains(x) {
            let k = choose|k: int| 0 <= k < ids@.len() && ids@[k] == x;
            if k < at {
                assert(old(ids)@[k] == x);
            } else if k > at {
                assert(old(ids)@[k - 1] == x);
            }
        }
    }
}

fn insert_count(counts: &mut Vec<usize>, count: usize)
    requires
        forall|i: int, j: int|
            0 <= i < j < old(counts)@.len() ==> old(counts)@[i] <= old(counts)@[j],
    ensures
        forall|i: int, j: int|
            0 <= i < j < final(counts)@.len() ==> final(counts)@[i] <= final(counts)@[j],
        final(counts)@.to_multiset() == old(counts)@.to_multiset().insert(count),
{
    let mut at: usize = 0;
    while at < counts.len() && counts[at] < count
        invariant
            at <= counts@.len(),
            counts@ == old(counts)@,
            forall|k: int| 0 <= k < at ==> counts@[k] < count,
        decreases counts@.len() - at,
    {
        at += 1;
    }
    counts.insert(at, count);
    proof {
        vstd::seq_lib::to_multiset_insert(old(counts)@, at as int, count);
    }
}

/// A connection that was closed is not open, and closing it again does nothing.
pub proof fn law_closing_is_final<C>(open: Map<u64, InmemConnection<C>>, connection_id: u64)
    ensures
        !open.remove(connection_id).dom().contains(connection_id),
        open.remove(connection_id).remove(connection_id) == open.remove(connection_id),
{
    assert(open.remove(connection_id).remove(connection_id) =~= open.remove(connection_id));
}

/// One end of an in-memory connection: where its messages go, and where those of
/// the other end come from. What callers send is recorded.
pub struct InmemStream {
    pub connection_id: u64,
    pub caller: bool,
    pub sender: Mailbox<Envelope>,
    pub receiver: Inbox<Envelope>,
}

/// The ends of one connection are crossed: what either end sends goes over a
/// channel of its own to the other end.
pub open spec fn crossed(caller: InmemStream, owner: InmemStream) -> bool {
    &&& caller.connection_id == owner.connection_id
    &&& caller.caller && !owner.caller
    &&& caller.receiver@ == InboxView::<Envelope>::fresh(caller.receiver@.channel)
    &&& owner.receiver@ == InboxView::<Envelope>::fresh(owner.receiver@.channel)
    &&& caller.sender@ == MailboxView::<Envelope>::fresh(
        owner.receiver@.channel,
        INMEM_CHANNEL_CAPACITY as nat,
    )
    &&& owner.sender@ == MailboxView::<Envelope>::fresh(
        caller.receiver@.channel,
        INMEM_CHANNEL_CAPACITY as nat,
    )
}

/// What a transport makes of the answer of a channel.
pub open spec fn transport_outcome<M>(answer: Offer<M>) -> Result<(), TransportError> {
    match answer {
        Offer::Taken => Ok(()),
        Offer::Full(_) => Err(TransportError::Full),
        Offer::Closed(_) => Err(TransportError::Closed),
    }
}

/// What a transport makes of the answer of a channel.
pub fn transport_result<M>(answer: Offer<M>) -> (result: Result<(), TransportError>)
    ensures
        result == transport_outcome(answer),
{
    match answer {
        Offer::Taken => Ok(()),
        Offer::Full(_) => Err(TransportError::Full),
        Offer::Closed(_) => Err(TransportError::Closed),
    }
}

/// `after` are the listeners once the one at `endpoint` was offered an end of a
/// connection and gave an answer.
pub open spec fn handed_over(
    before: Map<Seq<char>, Mailbox<InmemStream>>,
    after: Map<Seq<char>, Mailbox<InmemStream>>,
    endpoint: Seq<char>,
    end: InmemStream,
    answer: Offer<InmemStream>,
) -> bool {
    &&& answer.gives_back(end)
    &&& exists|listener: Mailbox<InmemStream>|
        listener@ == before[endpoint]@.offered(end, answer) && after == #[trigger] before.insert(
            endpoint,
            listener,
        )
}

/// Opens a connection to an endpoint: the listener there gets one end, the caller
/// the other, and each end receives what the other sends. A listener that does not
/// take its end refuses the connection.
pub fn connect<C>(
    registry: &mut InmemRegistry<Mailbox<InmemStream>, C>,
    endpoint: &Endpoint,
    handle: C,
) -> (stream: Result<InmemStream, TransportError>)
    requires
        old(registry).wf(),
    ensures
        final(registry).wf(),
        final(registry).sent() == old(registry).sent(),
        !old(registry).listeners().dom().contains(endpoint@) ==> {
            &&& stream matches Err(TransportError::ConnectFailed(detail)) && detail@
                == "unknown endpoint `"@ + endpoint@ + "`"@
            &&& final(registry).listeners() == old(registry).listeners()
            &&& final(registry).open() == old(registry).open()
            &&& final(registry).next_id() == old(registry).next_id()
        },
        old(registry).listeners().dom().contains(endpoint@) ==> {
            &&& final(registry).next_id() == if old(registry).next_id() == u64::MAX {
                0
            } else {
                (old(registry).next_id() + 1) as u64
            }
            &&& exists|owner: InmemStream, answer: Offer<InmemStream>|
                #[trigger] handed_over(
                    old(registry).listeners(),
                    final(registry).listeners(),
                    endpoint@,
                    owner,
                    answer,
                ) && owner.connection_id == old(registry).next_id() && stream is Ok
                    == answer is Taken && (stream matches Ok(caller) ==> crossed(caller, owner))
            &&& match stream {
                Ok(stream) => {
                    &&& stream.connection_id == old(registry).next_id()
                    &&& exists|name: String|
                        name@ == endpoint@ && #[trigger] old(registry).open().insert(
                            stream.connection_id,
                            InmemConnection { endpoint: name, handle },
                        ) == final(registry).open()
                },
                Err(error) => {
                    &&& error == TransportError::Closed
                    &&& final(registry).open() == old(registry).open().remove(
                        old(registry).next_id(),
                    )
                },
            }
        },
{
    let id: u64 = match registry.connect(endpoint, handle) {
        Ok(id) => id,
        Err(error) => return Err(error),
    };
    let ghost name = choose|name: String|
        name@ == endpoint@ && #[trigger] old(registry).open().insert(
            id,
            InmemConnection { endpoint: name, handle },
        ) == registry.open();
    let (caller_sender, owner_receiver) = mailbox::<Envelope>(INMEM_CHANNEL_CAPACITY);
    let (owner_sender, caller_receiver) = mailbox::<Envelope>(INMEM_CHANNEL_CAPACITY);
    let owner_end = InmemStream {
        connection_id: id,
        caller: false,
        sender: owner_sender,
        receiver: owner_receiver,
    };
    let ghost owner = owner_end;
    let ghost listeners = registry.listeners();
    let answer = match registry.listener(endpoint) {
        Some(listener) => {
            let answer = listener.put(owner_end);
            assert(listener@ == listeners[endpoint@]@.offered(owner, answer));
            answer
        },
        None => Offer::Closed(owner_end),
    };
    assert(handed_over(listeners, registry.listeners(), endpoint@, owner, answer));
    match answer {
        Offer::Taken => {
            assert(name@ == endpoint@ && old(registry).open().insert(
                id,
                InmemConnection { endpoint: name, handle },
            ) == registry.open());
            Ok(
                InmemStream {
                    connection_id: id,
                    caller: true,
                    sender: caller_sender,
                    receiver: caller_receiver,
                },
            )
        },
        _ => {
            registry.close_connection(id);
            assert(registry.open() =~= old(registry).open().remove(id));
            Err(TransportError::Closed)
        },
    }
}

/// Puts a message on a connection. A closed connection takes none; an open one
/// offers it to the channel to the other end, which answers. What a caller sends
/// is recorded.
pub fn try_send<L, C>(
    registry: &mut InmemRegistry<L, C>,
    stream: &mut InmemStream,
    envelope: Envelope,
) -> (result: Result<(), TransportError>)
    requires
        old(registry).wf(),
    ensures
        final(registry).wf(),
        final(registry).listeners() == old(registry).listeners(),
        final(registry).open() == old(registry).open(),
        final(registry).next_id() == old(registry).next_id(),
        *final(stream) == (InmemStream { sender: final(stream).sender, ..*old(stream) }),
        if old(registry).open().dom().contains(old(stream).connection_id) {
            &&& exists|answer: Offer<Envelope>| #[trigger]
                answer.gives_back(envelope) && final(stream).sender@
                    == old(stream).sender@.offered(envelope, answer) && result
                    == transport_outcome(answer)
            &&& final(registry).sent() == if old(stream).caller {
                old(registry).sent().push((old(stream).connection_id, envelope.session_id@))
            } else {
                old(registry).sent()
            }
        } else {
            &&& result == Err::<(), TransportError>(TransportError::Closed)
            &&& *final(stream) == *old(stream)
            &&& final(registry).sent() == old(registry).sent()
        },
{
    if !registry.connections.contains_key(&stream.connection_id) {
        return Err(TransportError::Closed);
    }
    if stream.caller {
        registry.record(
            stream.connection_id,
            crate::runtime::inbound::copy_bytes(&envelope.session_id),
        );
    }
    let answer = stream.sender.put(envelope);
    transport_result(answer)
}

/// What one end of a connection sends goes to the other end, and both ends carry the identity
/// of the connection. Each channel starts empty, with room for a thousand and twenty-four
/// messages.
pub proof fn law_ends_are_crossed(caller: InmemStream, owner: InmemStream)
    requires
        crossed(caller, owner),
    ensures
        caller.connection_id == owner.connection_id,
        caller.caller,
        !owner.caller,
        caller.sender@.channel == owner.receiver@.channel,
        owner.sender@.channel == caller.receiver@.channel,
        caller.sender@.capacity == 1024,
        owner.sender@.capacity == 1024,
        caller.sender@.answers.len() == 0,
        owner.sender@.answers.len() == 0,
        !caller.receiver@.closed && caller.receiver@.taken_out.len() == 0,
        !owner.receiver@.closed && owner.receiver@.taken_out.len() == 0,
{
}

/// A message was sent exactly if the channel took it; a full channel and a closed one are
/// told apart.
pub proof fn law_channels_answer_senders<M>(answer: Offer<M>)
    ensures
        transport_outcome(answer) is Ok <==> answer is Taken,
        transport_outcome(answer) == Err::<(), TransportError>(TransportError::Full) <==> answer
            is Full,
        transport_outcome(answer) == Err::<(), TransportError>(TransportError::Closed) <==> answer
            is Closed,
{
}

/// Only the listener at the endpoint is offered the end of a new connection.
pub proof fn law_connections_reach_their_listener(
    before: Map<Seq<char>, Mailbox<InmemStream>>,
    after: Map<Seq<char>, Mailbox<InmemStream>>,
    endpoint: Seq<char>,
    end: InmemStream,
    answer: Offer<InmemStream>,
    other: Seq<char>,
)
    requires
        handed_over(before, after, endpoint, end, answer),
        before.dom().contains(endpoint),
    ensures
        after.dom() == before.dom(),
        after[endpoint]@ == before[endpoint]@.offered(end, answer),
        other != endpoint ==> after[other] == before[other],
        answer matches Offer::Full(returned) ==> returned == end,
        answer matches Offer::Closed(returned) ==> returned == end,
{
    assert(after.dom() =~= before.dom());
}

/// A connection has carried exactly the Sessions that something was sent for on it, however
/// often.
pub proof fn law_sessions_are_counted_once(
    sent: Seq<(u64, Seq<u8>)>,
    connection_id: u64,
    other: u64,
    session_id: Seq<u8>,
)
    ensures
        sessions_on(sent.push((connection_id, session_id)), connection_id) == sessions_on(
            sent,
            connection_id,
        ).insert(session_id),
        other != connection_id ==> sessions_on(sent.push((connection_id, session_id)), other)
            == sessions_on(sent, other),
        sessions_on(Seq::empty(), connection_id) == Set::<Seq<u8>>::empty(),
{
    let more = sent.push((connection_id, session_id));
    assert forall|s: Seq<u8>, id: u64| #[trigger]
        more.contains((id, s)) == (sent.contains((id, s)) || (id, s) == (
            connection_id,
            session_id,
        )) by {
        lemma_push_contains(sent, (connection_id, session_id), (id, s));
    }
    assert(sessions_on(more, connection_id) =~= sessions_on(sent, connection_id).insert(
        session_id,
    ));
    if other != connection_id {
        assert(sessions_on(more, other) =~= sessions_on(sent, other));
    }
    assert(sessions_on(Seq::empty(), connection_id) =~= Set::<Seq<u8>>::empty());
}

/// Each of some connections is counted in its place.
pub proof fn law_connections_are_counted_in_order(
    sent: Seq<(u64, Seq<u8>)>,
    ids: Seq<u64>,
    i: int,
)
    requires
        0 <= i < ids.len(),
    ensures
        counted(sent, ids).len() == ids.len(),
        counted(sent, ids)[i] == sessions_on(sent, ids[i]).len() as usize,
{
}

/// A list of the open connections of an endpoint has each of them once, and no other.
pub proof fn law_open_connections_are_listed<L, C>(
    registry: InmemRegistry<L, C>,
    endpoint: Seq<char>,
    ids: Seq<u64>,
    id: u64,
)
    requires
        registry.lists_connections(endpoint, ids),
    ensures
        ids.contains(id) <==> registry.open().dom().contains(id) && registry.open()[id].endpoint@
            == endpoint,
        forall|i: int, j: int| 0 <= i < j < ids.len() ==> ids[i] != ids[j],
{
}

} // verus!
