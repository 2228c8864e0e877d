//! Servers and stores within one process, for tests of Actors and of clusters.

use std::marker::PhantomData;
use std::time::Duration;

use vstd::prelude::*;
use vstd::string::*;

use crate::actor::{ActorAddress, AddressView, IntoActorConfig};
use crate::cluster::authority::{
    unowned_record, ActorOwnerRecord, MutationOutcome, NodeRecord, NodeSessionId, NodeView,
    RecordView, Revision, VersionedActorOwnerRecord, VersionedView,
};
use crate::time::{after, moment_after};
use crate::keyed::{Key, KeyedMap};
use crate::runtime::builder::{MissingState, ReadyState, ServerBuilderCore};
use crate::runtime::message::Registration;
use crate::text::{decimal, lemma_decimal, push_decimal};
use crate::transport_protocol::PEER_PROTOCOL_VERSION;

verus! {

/// Builder for a Server that is reached within the process.
pub struct TestServerBuilder<S, P> {
    pub core_config: ServerBuilderCore<S>,
    pub phase: PhantomData<P>,
}

impl<S> TestServerBuilder<S, MissingState> {
    /// A builder with the defaults.
    pub fn new() -> (builder: Self)
        ensures
            builder.core_config.state is None,
            builder.core_config.is_default(),
            builder.core_config.fault() is None,
    {
        TestServerBuilder { core_config: ServerBuilderCore::base(None), phase: PhantomData }
    }

    /// Injects the App State shared by every Actor Type in this Server.
    pub fn with_state(self, state: S) -> (builder: TestServerBuilder<S, ReadyState>)
        ensures
            builder.core_config == (ServerBuilderCore { state: Some(state), ..self.core_config }),
    {
        TestServerBuilder { core_config: self.core_config.with_state(state), phase: PhantomData }
    }
}

impl<S, P> TestServerBuilder<S, P> {
    /// Registers an Actor Type with either its name or a configuration.
    pub fn actor<I: IntoActorConfig>(self, config: I) -> (builder: Self)
        ensures
            builder.core_config == (ServerBuilderCore {
                registrations: builder.core_config.registrations,
                ..self.core_config
            }),
            builder.core_config.registrations@ == self.core_config.registrations@.push(
                Registration {
                    name: config.config().name,
                    mailbox_capacity: config.config().mailbox_capacity,
                    idle_timeout: config.config().idle_timeout,
                },
            ),
    {
        let mut builder = self;
        builder.core_config.add_actor(config.into_actor_config());
        builder
    }

    /// Sets the mailbox capacity of Actor Types that do not set their own.
    pub fn default_mailbox_capacity(self, capacity: usize) -> (builder: Self)
        ensures
            builder.core_config == (ServerBuilderCore {
                mailbox_capacity: capacity,
                ..self.core_config
            }),
    {
        let mut builder = self;
        builder.core_config.mailbox_capacity = capacity;
        builder
    }

    /// Sets the limit on Active Actors.
    pub fn max_active_actors(self, maximum: usize) -> (builder: Self)
        ensures
            builder.core_config == (ServerBuilderCore {
                max_active_actors: maximum,
                ..self.core_config
            }),
    {
        let mut builder = self;
        builder.core_config.max_active_actors = maximum;
        builder
    }

    /// Sets the idle timeout of Actor Types that do not set their own.
    pub fn default_idle_timeout(self, timeout: Duration) -> (builder: Self)
        ensures
            builder.core_config == (ServerBuilderCore {
                idle_timeout: timeout,
                ..self.core_config
            }),
    {
        let mut builder = self;
        builder.core_config.idle_timeout = timeout;
        builder
    }

    /// Sets the time that an idle Actor has for its deactivation.
    pub fn deactivation_timeout(self, timeout: Duration) -> (builder: Self)
        ensures
            builder.core_config == (ServerBuilderCore {
                deactivation_timeout: timeout,
                ..self.core_config
            }),
    {
        let mut builder = self;
        builder.core_config.deactivation_timeout = timeout;
        builder
    }

    /// Sets the time that all Actors together have for a graceful shutdown.
    pub fn shutdown_timeout(self, timeout: Duration) -> (builder: Self)
        ensures
            builder.core_config == (ServerBuilderCore {
                shutdown_timeout: timeout,
                ..self.core_config
            }),
    {
        let mut builder = self;
        builder.core_config.shutdown_timeout = timeout;
        builder
    }
}

/// The endpoint of the test Server with a number.
pub fn test_endpoint(number: u64) -> (endpoint: String)
    ensures
        endpoint@ == "inmem://test-"@ + decimal(number as nat),
{
    let mut endpoint = "inmem://test-".to_owned();
    push_decimal(&mut endpoint, number);
    endpoint
}

/// A directory with one Server in it.
pub struct SingleNodeDirectory {
    node: NodeRecord,
}

impl SingleNodeDirectory {
    /// The record of the Server.
    pub closed spec fn record(&self) -> NodeView {
        self.node@
    }

    /// A directory with a Server at an endpoint that has room for any number of
    /// Actors.
    pub fn new(endpoint: String, wall_time_millis: u64) -> (directory: Self)
        ensures
            crate::cluster::authority::uuid_text(directory.record().session_id),
            directory.record() == (NodeView {
                node_id: "test"@,
                session_id: directory.record().session_id,
                advertised_endpoint: endpoint@,
                protocol_version: PEER_PROTOCOL_VERSION,
                lease_generation: 0,
                sampled_at_unix_ms: wall_time_millis,
                active_actor_count: 0,
                max_actor_count: usize::MAX,
                pressured: false,
                draining: false,
            }),
    {
        SingleNodeDirectory {
            node: NodeRecord {
                node_id: "test".to_owned(),
                session_id: NodeSessionId::generate(),
                advertised_endpoint: endpoint,
                protocol_version: PEER_PROTOCOL_VERSION,
                lease_generation: 0,
                sampled_at_unix_ms: wall_time_millis,
                active_actor_count: 0,
                max_actor_count: usize::MAX,
                pressured: false,
                draining: false,
            },
        }
    }

    /// The record of a Server.
    pub fn read_node(&self, node_id: &str) -> (node: Option<NodeRecord>)
        ensures
            node is Some == (self.record().node_id == node_id@),
            node matches Some(n) ==> n@ == self.record(),
    {
        if self.node.node_id == node_id.to_owned() {
            Some(self.node.duplicate())
        } else {
            None
        }
    }

    /// All Servers.
    pub fn list_nodes(&self) -> (nodes: Vec<NodeRecord>)
        ensures
            nodes@.len() == 1,
            nodes@[0]@ == self.record(),
    {
        let mut nodes: Vec<NodeRecord> = Vec::new();
        nodes.push(self.node.duplicate());
        nodes
    }
}

/// A lease in a store within the process.
pub struct TestNodeLease {
    pub node: NodeRecord,
    pub revision: Revision,
    pub expires_at_unix_ms: u64,
}

/// A lease as a mathematical value.
pub struct LeaseView {
    pub node: NodeView,
    pub revision: Seq<char>,
    pub expires: u64,
}

impl View for TestNodeLease {
    type V = LeaseView;

    open spec fn view(&self) -> LeaseView {
        LeaseView {
            node: self.node@,
            revision: self.revision@,
            expires: self.expires_at_unix_ms,
        }
    }
}

/// A Coordination Store within the process.
pub struct TestCoordinationStore {
    leases: KeyedMap<String, TestNodeLease>,
    owners: KeyedMap<ActorAddress, VersionedActorOwnerRecord>,
    next_revision: u64,
}

/// A store as a mathematical value.
pub struct StoreView {
    pub leases: Map<Seq<char>, LeaseView>,
    pub owners: Map<AddressView, VersionedView>,
    pub revisions: nat,
}

impl View for TestCoordinationStore {
    type V = StoreView;

    closed spec fn view(&self) -> StoreView {
        StoreView {
            leases: self.leases@.map_values(|lease: TestNodeLease| lease@),
            owners: self.owners@.map_values(|record: VersionedActorOwnerRecord| record@),
            revisions: self.next_revision as nat,
        }
    }
}

/// The name of a revision.
pub open spec fn revision_name(n: nat) -> Seq<char> {
    "test-revision-"@ + decimal(n)
}

/// A revision is one of the first `count` that were given out.
pub open spec fn is_given_out(revision: Seq<char>, count: nat) -> bool {
    exists|n: nat| 1 <= n <= count && revision == #[trigger] revision_name(n)
}

/// Every revision of an ownership record was given out.
pub open spec fn revisions_known(store: StoreView) -> bool {
    forall|address: AddressView| #[trigger]
        store.owners.dom().contains(address) ==> is_given_out(
            store.owners[address].revision,
            store.revisions,
        )
}

proof fn lemma_more_revisions(store: StoreView, more: StoreView)
    requires
        revisions_known(store),
        more.owners == store.owners,
        more.revisions >= store.revisions,
    ensures
        revisions_known(more),
{
    assert forall|a: AddressView| #[trigger] more.owners.dom().contains(a) implies is_given_out(
        more.owners[a].revision,
        more.revisions,
    ) by {
        assert(store.owners.dom().contains(a));
        let n = choose|n: nat|
            1 <= n <= store.revisions && store.owners[a].revision == #[trigger] revision_name(n);
        assert(more.owners[a].revision == revision_name(n));
    }
}

/// A lease stands at a moment.
pub open spec fn stands(store: StoreView, node_id: Seq<char>, now: u64) -> bool {
    store.leases.dom().contains(node_id) && store.leases[node_id].expires > now
}

/// The nodes are those whose leases stand, each once: `ids` names them.
pub open spec fn lists_standing(
    store: StoreView,
    now: u64,
    nodes: Seq<NodeRecord>,
    ids: Seq<Seq<char>>,
) -> bool {
    &&& ids.no_duplicates()
    &&& ids.len() == nodes.len()
    &&& forall|k: int|
        0 <= k < ids.len() ==> stands(store, #[trigger] ids[k], now) && nodes[k]@
            == store.leases[ids[k]].node
    &&& forall|id: Seq<char>| #[trigger] stands(store, id, now) ==> ids.contains(id)
}

/// The record belongs to a lease that stands at a moment.
pub open spec fn is_live_node(store: StoreView, now: u64, node: NodeView) -> bool {
    exists|id: Seq<char>| #[trigger] stands(store, id, now) && store.leases[id].node == node
}

/// A record is among others.
pub open spec fn has_record(nodes: Seq<NodeRecord>, node: NodeView) -> bool {
    exists|k: int| 0 <= k < nodes.len() && (#[trigger] nodes[k])@ == node
}

/// The store after a lease was written.
pub open spec fn lease_written(store: StoreView, node: NodeView, expires: u64) -> StoreView {
    StoreView {
        leases: store.leases.insert(
            node.node_id,
            LeaseView { node, revision: revision_name(store.revisions + 1), expires },
        ),
        revisions: store.revisions + 1,
        ..store
    }
}

/// The store after an ownership record was written.
pub open spec fn owner_written(
    store: StoreView,
    address: AddressView,
    record: RecordView,
) -> StoreView {
    StoreView {
        owners: store.owners.insert(
            address,
            VersionedView { record, revision: revision_name(store.revisions + 1) },
        ),
        revisions: store.revisions + 1,
        ..store
    }
}

/// A write under a revision meets what is stored.
pub open spec fn owner_unchanged(
    store: StoreView,
    address: AddressView,
    revision: Option<Seq<char>>,
) -> bool {
    match revision {
        None => !store.owners.dom().contains(address),
        Some(revision) => store.owners.dom().contains(address) && store.owners[address].revision
            == revision,
    }
}

impl TestCoordinationStore {
    /// No key is stored twice, and every revision of an ownership record was
    /// given out.
    pub closed spec fn wf(&self) -> bool {
        self.leases.wf() && self.owners.wf() && revisions_known(self@)
    }

    /// In every state of a store the revisions of its ownership records were given
    /// out by it.
    pub proof fn law_revisions_are_known(&self)
        requires
            self.wf(),
        ensures
            revisions_known(self@),
    {
    }

    /// An empty store.
    pub fn new() -> (store: Self)
        ensures
            store.wf(),
            store@ == (StoreView { leases: Map::empty(), owners: Map::empty(), revisions: 0 }),
    {
        let store = TestCoordinationStore {
            leases: KeyedMap::new(),
            owners: KeyedMap::new(),
            next_revision: 0,
        };
        assert(store@.leases =~= Map::<Seq<char>, LeaseView>::empty());
        assert(store@.owners =~= Map::<AddressView, VersionedView>::empty());
        store
    }

    /// How many revisions were given out.
    pub fn revisions(&self) -> (count: u64)
        ensures
            count == self@.revisions,
    {
        self.next_revision
    }

    fn next(&mut self) -> (revision: Revision)
        requires
            old(self)@.revisions < u64::MAX,
        ensures
            final(self).leases == old(self).leases,
            final(self).owners == old(self).owners,
            final(self)@.revisions == old(self)@.revisions + 1,
            revision@ == revision_name(old(self)@.revisions + 1),
    {
        self.next_revision = self.next_revision + 1;
        let mut name = "test-revision-".to_owned();
        push_decimal(&mut name, self.next_revision);
        Revision::new(name)
    }

    /// Lets a lease expire.
    pub fn expire_node(&mut self, node_id: &str)
        requires
            old(self).wf(),
        ensures
            final(self).wf(),
            final(self)@ == if old(self)@.leases.dom().contains(node_id@) {
                StoreView {
                    leases: old(self)@.leases.insert(
                        node_id@,
                        LeaseView { expires: 0, ..old(self)@.leases[node_id@] },
                    ),
                    ..old(self)@
                }
            } else {
                old(self)@
            },
    {
        let key = node_id.to_owned();
        match self.leases.remove(&key) {
            Some(lease) => {
                let expired = TestNodeLease { expires_at_unix_ms: 0, ..lease };
                self.leases.insert(key, expired);
                assert(self@.leases =~= old(self)@.leases.insert(node_id@, expired@));
            },
            None => {
                assert(self@.leases =~= old(self)@.leases);
            },
        }
    }

    /// Removes a lease.
    pub fn remove_node(&mut self, node_id: &str)
        requires
            old(self).wf(),
        ensures
            final(self).wf(),
            final(self)@ == (StoreView {
                leases: old(self)@.leases.remove(node_id@),
                ..old(self)@
            }),
    {
        self.leases.remove(&node_id.to_owned());
        assert(self@.leases =~= old(self)@.leases.remove(node_id@));
    }

    /// The record of a Server whose lease stands.
    pub fn read_node(&self, node_id: &str, now: u64) -> (node: Option<NodeRecord>)
        requires
            self.wf(),
        ensures
            node is Some == stands(self@, node_id@, now),
            node matches Some(n) ==> n@ == self@.leases[node_id@].node,
    {
        match self.read_node_lease(node_id, now) {
            Some((node, _)) => Some(node),
            None => None,
        }
    }

    /// The lease of a Server, if it stands.
    pub fn read_node_lease(&self, node_id: &str, now: u64) -> (lease: Option<
        (NodeRecord, Revision),
    >)
        requires
            self.wf(),
        ensures
            lease is Some == stands(self@, node_id@, now),
            lease matches Some((node, revision)) ==> node@ == self@.leases[node_id@].node
                && revision@ == self@.leases[node_id@].revision,
    {
        match self.leases.get(&node_id.to_owned()) {
            Some(lease) => if lease.expires_at_unix_ms > now {
                Some((lease.node.duplicate(), lease.revision.duplicate()))
            } else {
                None
            },
            None => None,
        }
    }

    /// The records of all Servers whose leases stand.
    pub fn list_nodes(&self, now: u64) -> (nodes: Vec<NodeRecord>)
        requires
            self.wf(),
        ensures
            forall|node: NodeView|
                nodes@.map_values(|n: NodeRecord| n@).contains(node) <==> #[trigger] is_live_node(
                    self@,
                    now,
                    node,
                ),
            exists|ids: Seq<Seq<char>>| #[trigger] lists_standing(self@, now, nodes@, ids),
    {
        let ids = self.leases.keys();
        proof {
            self.leases.lemma_order();
        }
        let ghost order = self.leases.order();
        let mut nodes: Vec<NodeRecord> = Vec::new();
        let ghost mut picked: Seq<Seq<char>> = Seq::empty();
        let mut i: usize = 0;
        while i < ids.len()
            invariant
                self.wf(),
                i <= ids@.len(),
                order == ids@.map_values(|s: String| s@),
                order.to_set() == self.leases@.dom(),
                order.no_duplicates(),
                picked.no_duplicates(),
                picked.len() == nodes@.len(),
                forall|k: int|
                    0 <= k < picked.len() ==> stands(self@, #[trigger] picked[k], now)
                        && nodes@[k]@ == self@.leases[picked[k]].node && order.take(
                        i as int,
                    ).contains(picked[k]),
                forall|j: int|
                    0 <= j < i && stands(self@, #[trigger] order[j], now) ==> picked.contains(
                        order[j],
                    ),
                forall|k: int|
                    0 <= k < nodes@.len() ==> is_live_node(self@, now, (#[trigger] nodes@[k])@),
                forall|j: int|
                    0 <= j < i && stands(self@, #[trigger] order[j], now) ==> has_record(
                        nodes@,
                        self@.leases[order[j]].node,
                    ),
            decreases ids@.len() - i,
        {
            let ghost held = nodes@;
            let ghost chosen = picked;
            assert(order[i as int] == ids@[i as int]@);
            assert forall|id: Seq<char>|
                order.take(i as int).contains(id) implies order.take(i + 1).contains(id) && id
                != order[i as int] by {
                let j = choose|j: int| 0 <= j < i && order.take(i as int)[j] == id;
                assert(order.take(i + 1)[j] == id);
            }
            assert(order.take(i + 1)[i as int] == order[i as int]);
            match self.read_node(ids[i].as_str(), now) {
                Some(node) => {
                    nodes.push(node);
                    proof {
                        assert(stands(self@, order[i as int], now));
                        assert(nodes@[held.len() as int]@ == self@.leases[order[i as int]].node);
                        picked = picked.push(order[i as int]);
                        assert(picked[chosen.len() as int] == order[i as int]);
                        assert forall|j: int|
                            0 <= j < i + 1 && stands(self@, #[trigger] order[j], now) implies
                            picked.contains(order[j]) by {
                            if j < i {
                                let k = choose|k: int| 0 <= k < chosen.len() && chosen[k] == order[j];
                                assert(picked[k] == order[j]);
                            }
                        }
                        assert forall|view: NodeView| has_record(held, view) implies has_record(
                            nodes@,
                            view,
                        ) by {
                            let k = choose|k: int|
                                0 <= k < held.len() && (#[trigger] held[k])@ == view;
                            assert(nodes@[k] == held[k]);
                        }
                    }
                },
                None => {},
            }
            i += 1;
        }
        proof {
            assert forall|id: Seq<char>| #[trigger] stands(self@, id, now) implies picked.contains(
                id,
            ) by {
                assert(order.to_set().contains(id));
                let j = choose|j: int| 0 <= j < order.len() && order[j] == id;
                assert(stands(self@, order[j], now));
            }
            assert(lists_standing(self@, now, nodes@, picked));
            let views = nodes@.map_values(|n: NodeRecord| n@);
            assert forall|node: NodeView|
                views.contains(node) <==> #[trigger] is_live_node(self@, now, node) by {
                if views.contains(node) {
                    let k = choose|k: int| 0 <= k < views.len() && views[k] == node;
                    assert(nodes@[k]@ == node);
                }
                if is_live_node(self@, now, node) {
                    let id = choose|id: Seq<char>| #[trigger]
                        stands(self@, id, now) && self@.leases[id].node == node;
                    assert(order.to_set().contains(id));
                    let j = choose|j: int| 0 <= j < order.len() && order[j] == id;
                    assert(stands(self@, order[j], now));
                    assert(has_record(nodes@, node));
                    let k = choose|k: int| 0 <= k < nodes@.len() && (#[trigger] nodes@[k])@ == node;
                    assert(views[k] == node);
                }
            }
        }
        nodes
    }

    /// Acquires a lease, unless one stands.
    pub fn acquire_node(&mut self, node: NodeRecord, ttl: Duration, now: u64) -> (outcome:
        MutationOutcome<Revision>)
        requires
            old(self).wf(),
            old(self)@.revisions < u64::MAX,
        ensures
            final(self).wf(),
            if stands(old(self)@, node@.node_id, now) {
                &&& outcome is Conflict
                &&& final(self)@ == old(self)@
            } else {
                &&& outcome matches MutationOutcome::Applied(revision) && revision@
                    == revision_name(old(self)@.revisions + 1)
                &&& final(self)@ == lease_written(old(self)@, node@, moment_after(now, ttl))
            },
    {
        if self.read_node_lease(node.node_id.as_str(), now).is_some() {
            return MutationOutcome::Conflict;
        }
        self.write_lease(node, ttl, now)
    }

    fn write_lease(&mut self, node: NodeRecord, ttl: Duration, now: u64) -> (outcome:
        MutationOutcome<Revision>)
        requires
            old(self).wf(),
            old(self)@.revisions < u64::MAX,
        ensures
            final(self).wf(),
            outcome matches MutationOutcome::Applied(revision) && revision@ == revision_name(
                old(self)@.revisions + 1,
            ),
            final(self)@ == lease_written(old(self)@, node@, moment_after(now, ttl)),
    {
        let revision = self.next();
        let lease = TestNodeLease {
            revision: revision.duplicate(),
            expires_at_unix_ms: after(now, &ttl),
            node,
        };
        let key = lease.node.node_id.clone();
        self.leases.insert(key, lease);
        proof {
            assert(self@.leases =~= lease_written(old(self)@, node@, moment_after(now, ttl)).leases);
            lemma_more_revisions(old(self)@, self@);
        }
        MutationOutcome::Applied(revision)
    }

    /// Renews a lease under the revision it was last written with.
    pub fn renew_node(&mut self, node: NodeRecord, ttl: Duration, revision: &Revision, now: u64) -> (
        outcome: MutationOutcome<Revision>)
        requires
            old(self).wf(),
            old(self)@.revisions < u64::MAX,
        ensures
            final(self).wf(),
            if old(self)@.leases.dom().contains(node@.node_id)
                && old(self)@.leases[node@.node_id].revision == revision@ {
                &&& outcome matches MutationOutcome::Applied(next) && next@ == revision_name(
                    old(self)@.revisions + 1,
                )
                &&& final(self)@ == lease_written(old(self)@, node@, moment_after(now, ttl))
            } else {
                &&& outcome is Conflict
                &&& final(self)@ == old(self)@
            },
    {
        let held = match self.leases.get(&node.node_id) {
            Some(lease) => lease.revision.same(revision),
            None => false,
        };
        if !held {
            return MutationOutcome::Conflict;
        }
        self.write_lease(node, ttl, now)
    }

    /// Releases a lease under the revision it was last written with.
    pub fn release_node(&mut self, node_id: &str, revision: &Revision) -> (outcome: MutationOutcome<
        (),
    >)
        requires
            old(self).wf(),
        ensures
            final(self).wf(),
            if old(self)@.leases.dom().contains(node_id@) && old(self)@.leases[node_id@].revision
                == revision@ {
                &&& outcome is Applied
                &&& final(self)@ == (StoreView {
                    leases: old(self)@.leases.remove(node_id@),
                    ..old(self)@
                })
            } else {
                &&& outcome is Conflict
                &&& final(self)@ == old(self)@
            },
    {
        let key = node_id.to_owned();
        let held = match self.leases.get(&key) {
            Some(lease) => lease.revision.same(revision),
            None => false,
        };
        if !held {
            return MutationOutcome::Conflict;
        }
        self.leases.remove(&key);
        assert(self@.leases =~= old(self)@.leases.remove(node_id@));
        MutationOutcome::Applied(())
    }

    /// The ownership record of an Actor.
    pub fn read_actor_owner(&self, address: &ActorAddress) -> (record: Option<
        VersionedActorOwnerRecord,
    >)
        requires
            self.wf(),
        ensures
            record is Some == self@.owners.dom().contains(address@),
            record matches Some(r) ==> r@ == self@.owners[address@],
    {
        match self.owners.get(address) {
            Some(record) => Some(record.clone()),
            None => None,
        }
    }

    /// Writes the ownership record of an Actor, if what is stored is still what
    /// was read.
    pub fn compare_exchange_actor_owner(
        &mut self,
        address: &ActorAddress,
        record: ActorOwnerRecord,
        revision: Option<&Revision>,
    ) -> (outcome: MutationOutcome<Revision>)
        requires
            old(self).wf(),
            old(self)@.revisions < u64::MAX,
        ensures
            final(self).wf(),
            if owner_unchanged(
                old(self)@,
                address@,
                match revision {
                    Some(revision) => Some(revision@),
                    None => None,
                },
            ) {
                &&& outcome matches MutationOutcome::Applied(next) && next@ == revision_name(
                    old(self)@.revisions + 1,
                )
                &&& final(self)@ == owner_written(old(self)@, address@, record@)
            } else {
                &&& outcome is Conflict
                &&& final(self)@ == old(self)@
            },
    {
        let unchanged = match (self.owners.get(address), revision) {
            (None, None) => true,
            (Some(current), Some(revision)) => current.revision.same(revision),
            _ => false,
        };
        if !unchanged {
            return MutationOutcome::Conflict;
        }
        let next = self.next();
        self.owners.insert(
            address.duplicate(),
            VersionedActorOwnerRecord { record, revision: next.duplicate() },
        );
        proof {
            assert(self@.owners =~= owner_written(old(self)@, address@, record@).owners);
            lemma_write_keeps_revisions_known(old(self)@, address@, record@);
        }
        MutationOutcome::Applied(next)
    }

    /// Gives the ownership of an Actor up, if what is stored is still what was
    /// read. The epoch stays.
    pub fn release_actor_owner(
        &mut self,
        address: &ActorAddress,
        current: &VersionedActorOwnerRecord,
    ) -> (outcome: MutationOutcome<Revision>)
        requires
            old(self).wf(),
            old(self)@.revisions < u64::MAX,
        ensures
            final(self).wf(),
            if owner_unchanged(old(self)@, address@, Some(current@.revision)) {
                &&& outcome matches MutationOutcome::Applied(next) && next@ == revision_name(
                    old(self)@.revisions + 1,
                )
                &&& final(self)@ == owner_written(
                    old(self)@,
                    address@,
                    unowned_record(current@.record.ownership_epoch),
                )
            } else {
                &&& outcome is Conflict
                &&& final(self)@ == old(self)@
            },
    {
        self.compare_exchange_actor_owner(
            address,
            ActorOwnerRecord::unowned(current.record.ownership_epoch),
            Some(&current.revision),
        )
    }
}

/// A read of an ownership record gives back what the last write wrote, and a
/// write for one Actor leaves the records of all others alone.
pub proof fn law_reads_give_back_writes(
    store: StoreView,
    address: AddressView,
    record: RecordView,
    other: AddressView,
)
    ensures
        owner_written(store, address, record).owners[address].record == record,
        other != address ==> owner_written(store, address, record).owners.dom().contains(other)
            == store.owners.dom().contains(other),
        other != address && store.owners.dom().contains(other) ==> owner_written(
            store,
            address,
            record,
        ).owners[other] == store.owners[other],
{
}

/// Of two writers that read the same record, only one gets through: what was
/// written under a revision cannot be written over under the same revision.
pub proof fn law_one_writer_wins(
    store: StoreView,
    address: AddressView,
    record: RecordView,
    revision: Option<Seq<char>>,
)
    requires
        revisions_known(store),
        owner_unchanged(store, address, revision),
    ensures
        !owner_unchanged(owner_written(store, address, record), address, revision),
        revisions_known(owner_written(store, address, record)),
{
    lemma_write_keeps_revisions_known(store, address, record);
    if store.owners.dom().contains(address) {
        let n = choose|n: nat|
            1 <= n <= store.revisions && store.owners[address].revision == #[trigger] revision_name(
                n,
            );
        lemma_revision_names_differ(n, store.revisions + 1);
    }
}

proof fn lemma_revision_names_differ(m: nat, n: nat)
    requires
        m != n,
    ensures
        revision_name(m) != revision_name(n),
{
    if revision_name(m) == revision_name(n) {
        let len = "test-revision-"@.len() as int;
        assert(decimal(m) =~= revision_name(m).subrange(len, revision_name(m).len() as int));
        assert(decimal(n) =~= revision_name(n).subrange(len, revision_name(n).len() as int));
        lemma_decimal(m);
        lemma_decimal(n);
    }
}

proof fn lemma_write_keeps_revisions_known(
    store: StoreView,
    address: AddressView,
    record: RecordView,
)
    requires
        revisions_known(store),
    ensures
        revisions_known(owner_written(store, address, record)),
{
    let after = owner_written(store, address, record);
    assert forall|a: AddressView| #[trigger] after.owners.dom().contains(a) implies is_given_out(
        after.owners[a].revision,
        after.revisions,
    ) by {
        if a == address {
            assert(after.owners[a].revision == revision_name(after.revisions));
        } else {
            assert(store.owners.dom().contains(a));
            let n = choose|n: nat|
                1 <= n <= store.revisions && store.owners[a].revision == #[trigger] revision_name(n);
            assert(after.owners[a].revision == revision_name(n));
        }
    }
}

/// A lease stands while it has not expired, and no longer; without a lease nothing stands.
pub proof fn law_leases_stand_until_they_expire(store: StoreView, node_id: Seq<char>, now: u64)
    ensures
        !store.leases.dom().contains(node_id) ==> !stands(store, node_id, now),
        store.leases.dom().contains(node_id) ==> (stands(store, node_id, now) <==> now
            < store.leases[node_id].expires),
{
}

/// A lease that was written is read back as it was written, under a revision that no earlier
/// write had; no other lease and no ownership record changes.
pub proof fn law_leases_are_read_back(
    store: StoreView,
    node: NodeView,
    expires: u64,
    other: Seq<char>,
    earlier: nat,
)
    requires
        earlier <= store.revisions,
    ensures
        ({
            let after = lease_written(store, node, expires);
            &&& after.leases.dom().contains(node.node_id)
            &&& after.leases[node.node_id].node == node
            &&& after.leases[node.node_id].expires == expires
            &&& after.leases[node.node_id].revision != revision_name(earlier)
            &&& other != node.node_id ==> (after.leases.dom().contains(other)
                <==> store.leases.dom().contains(other)) && after.leases[other]
                == store.leases[other]
            &&& after.owners == store.owners
            &&& after.revisions == store.revisions + 1
        }),
{
    lemma_revision_names_differ(store.revisions + 1, earlier);
}

/// An ownership record that was written has a revision that no earlier write had; no lease
/// changes.
pub proof fn law_owners_get_new_revisions(
    store: StoreView,
    address: AddressView,
    record: RecordView,
    earlier: nat,
)
    requires
        earlier <= store.revisions,
    ensures
        ({
            let after = owner_written(store, address, record);
            &&& after.owners.dom().contains(address)
            &&& after.owners[address].revision != revision_name(earlier)
            &&& after.leases == store.leases
            &&& after.revisions == store.revisions + 1
        }),
{
    lemma_revision_names_differ(store.revisions + 1, earlier);
}

/// A write meets what is stored exactly if nothing was read and nothing is stored, or what is
/// stored still has the revision that was read.
pub proof fn law_writes_meet_what_was_read(store: StoreView, address: AddressView, revision: Seq<char>)
    ensures
        owner_unchanged(store, address, None) <==> !store.owners.dom().contains(address),
        owner_unchanged(store, address, Some(revision)) <==> store.owners.dom().contains(address)
            && store.owners[address].revision == revision,
        store.owners.dom().contains(address) ==> owner_unchanged(
            store,
            address,
            Some(store.owners[address].revision),
        ),
{
}

/// A list of the standing leases has every Server whose lease stands, and no other, and none
/// twice.
pub proof fn law_standing_leases_are_listed(
    store: StoreView,
    now: u64,
    nodes: Seq<NodeRecord>,
    ids: Seq<Seq<char>>,
    id: Seq<char>,
    k: int,
)
    requires
        lists_standing(store, now, nodes, ids),
    ensures
        nodes.len() == ids.len(),
        store.leases.dom().contains(id) && now < store.leases[id].expires ==> exists|i: int|
            0 <= i < nodes.len() && ids[i] == id && (#[trigger] nodes[i])@ == store.leases[id].node,
        0 <= k < nodes.len() ==> store.leases.dom().contains(ids[k]) && now < store.leases[ids[k]].expires
            && nodes[k]@ == store.leases[ids[k]].node,
        forall|i: int, j: int| 0 <= i < j < ids.len() ==> ids[i] != ids[j],
{
    if stands(store, id, now) {
        assert(ids.contains(id));
        let i = choose|i: int| 0 <= i < ids.len() && ids[i] == id;
        assert(stands(store, ids[i], now));
        assert(nodes[i]@ == store.leases[ids[i]].node);
    }
    if 0 <= k < nodes.len() {
        assert(stands(store, ids[k], now));
    }
}

/// A record is live exactly if some lease that stands carries it.
pub proof fn law_live_records_have_a_lease(
    store: StoreView,
    now: u64,
    id: Seq<char>,
    node: NodeView,
)
    ensures
        store.leases.dom().contains(id) && now < store.leases[id].expires ==> is_live_node(
            store,
            now,
            store.leases[id].node,
        ),
        is_live_node(store, now, node) ==> exists|other: Seq<char>|
            #![trigger store.leases[other]]
            store.leases.dom().contains(other) && now < store.leases[other].expires
                && store.leases[other].node == node,
{
    if store.leases.dom().contains(id) && now < store.leases[id].expires {
        assert(stands(store, id, now));
    }
    if is_live_node(store, now, node) {
        let other = choose|other: Seq<char>| #[trigger]
            stands(store, other, now) && store.leases[other].node == node;
        assert(store.leases[other].node == node);
    }
}

} // verus!
