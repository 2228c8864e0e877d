//! Finding the Owner of an Actor for a command, and becoming it.
//!
//! A resolution alternates with the ownership storage: it names the next
//! operation, the host performs it and hands back the reply. What was found out
//! is remembered until it turns out to be wrong.

use vstd::prelude::*;
use vstd::string::*;

use crate::cluster::authority::{
    ActorOwner, ActorOwnerRecord, NodeSessionId, OwnerView, RecordView,
};
use crate::cluster::routing::claim_record;
use crate::command::api::{ActorAddress, AddressView};
use crate::command::lease::{
    LeaseMutation, LeaseView, VersionedActorOwnerRecord, VersionedNodeLease, VersionedView,
};
use crate::command::runtime::RuntimeError;
use crate::keyed::{Key, KeyedMap};
use crate::runtime::route::{RouteTable, TableView};

verus! {

/// The rounds that a resolution takes before it gives up.
pub const RESOLUTION_ROUNDS: u8 = 3;

/// The times that an uncertain claim is looked up again.
pub const CONFIRMATION_READS: u8 = 3;

/// An Owner as it is remembered.
pub enum CachedOwner {
    Local,
    Remote { endpoint: String, protocol_version: u32 },
}

/// An Owner as a mathematical value.
pub enum CachedView {
    Local,
    Remote { endpoint: Seq<char>, protocol_version: u32 },
}

impl View for CachedOwner {
    type V = CachedView;

    open spec fn view(&self) -> CachedView {
        match self {
            CachedOwner::Local => CachedView::Local,
            CachedOwner::Remote { endpoint, protocol_version } => CachedView::Remote {
                endpoint: endpoint@,
                protocol_version: *protocol_version,
            },
        }
    }
}

/// Who owns an Actor, once that is settled. `reserved` tells whether the
/// resolution holds a reservation for the route of the Actor.
pub enum ResolvedOwner {
    Local { reserved: bool },
    Remote { endpoint: String, protocol_version: u32 },
}

/// A settled Owner as a mathematical value.
pub enum ResolvedView {
    Local { reserved: bool },
    Remote { endpoint: Seq<char>, protocol_version: u32 },
}

impl View for ResolvedOwner {
    type V = ResolvedView;

    open spec fn view(&self) -> ResolvedView {
        match self {
            ResolvedOwner::Local { reserved } => ResolvedView::Local { reserved: *reserved },
            ResolvedOwner::Remote { endpoint, protocol_version } => ResolvedView::Remote {
                endpoint: endpoint@,
                protocol_version: *protocol_version,
            },
        }
    }
}

/// The identity under which a runtime owns Actors, and what it remembers of the
/// Owners of others.
pub struct DistributedContext {
    identity: ActorOwner,
    resolved: KeyedMap<ActorAddress, CachedOwner>,
}

impl DistributedContext {
    /// The identity of the runtime.
    pub closed spec fn me(&self) -> OwnerView {
        self.identity@
    }

    /// What is remembered.
    pub closed spec fn remembered(&self) -> Map<AddressView, CachedView> {
        self.resolved@.map_values(|owner: CachedOwner| owner@)
    }

    /// No address is remembered twice.
    pub closed spec fn wf(&self) -> bool {
        self.resolved.wf()
    }

    /// The context of a runtime that remembers nothing yet.
    pub fn new(node_id: String, session_id: NodeSessionId) -> (context: Self)
        ensures
            context.wf(),
            context.me() == (OwnerView { node_id: node_id@, session_id: session_id@ }),
            context.remembered() == Map::<AddressView, CachedView>::empty(),
    {
        let context = DistributedContext {
            identity: ActorOwner { node_id, session_id },
            resolved: KeyedMap::new(),
        };
        assert(context.remembered() =~= Map::<AddressView, CachedView>::empty());
        context
    }

    /// Whether this life of this runtime owns the Actor of a record.
    pub fn is_local_owner(&self, record: &ActorOwnerRecord) -> (local: bool)
        ensures
            local == (record@.owner == Some(self.me())),
    {
        match &record.owner {
            Some(owner) => owner.same(&self.identity),
            None => false,
        }
    }

    /// The record by which this runtime claims an Actor.
    pub fn local_claim(&self, epoch: u64) -> (record: ActorOwnerRecord)
        ensures
            record@ == claim_record(self.me(), epoch),
    {
        ActorOwnerRecord { owner: Some(self.identity.duplicate()), ownership_epoch: epoch }
    }

    /// What is remembered of the Owner of an Actor.
    pub fn cached(&self, address: &ActorAddress) -> (owner: Option<ResolvedOwner>)
        requires
            self.wf(),
        ensures
            owner is Some == self.remembered().dom().contains(address@),
            owner matches Some(o) ==> o@ == resolved_from(self.remembered()[address@]),
    {
        match self.resolved.get(address) {
            Some(CachedOwner::Local) => Some(ResolvedOwner::Local { reserved: false }),
            Some(CachedOwner::Remote { endpoint, protocol_version }) => Some(
                ResolvedOwner::Remote {
                    endpoint: endpoint.clone(),
                    protocol_version: *protocol_version,
                },
            ),
            None => None,
        }
    }

    fn remember(&mut self, address: &ActorAddress, owner: CachedOwner)
        requires
            old(self).wf(),
        ensures
            final(self).wf(),
            final(self).me() == old(self).me(),
            final(self).remembered() == old(self).remembered().insert(address@, owner@),
    {
        self.resolved.insert(address.duplicate(), owner);
        assert(self.remembered() =~= old(self).remembered().insert(address@, owner@));
    }

    /// Forgets the Owner of an Actor.
    pub fn invalidate(&mut self, address: &ActorAddress)
        requires
            old(self).wf(),
        ensures
            final(self).wf(),
            final(self).me() == old(self).me(),
            final(self).remembered() == old(self).remembered().remove(address@),
    {
        self.resolved.remove(address);
        assert(self.remembered() =~= old(self).remembered().remove(address@));
    }
}

/// The Owner that is remembered, settled: nothing is reserved for it.
pub open spec fn resolved_from(cached: CachedView) -> ResolvedView {
    match cached {
        CachedView::Local => ResolvedView::Local { reserved: false },
        CachedView::Remote { endpoint, protocol_version } => ResolvedView::Remote {
            endpoint,
            protocol_version,
        },
    }
}

/// What a resolution waits for.
pub enum ResolvePhase {
    /// The ownership record.
    Reading,
    /// The lease of the owner that was read.
    Checking { current: VersionedActorOwnerRecord },
    /// The outcome of a claim.
    Claiming { expected: ActorOwnerRecord },
    /// The ownership record, to see whether an uncertain claim was applied.
    Confirming { expected: ActorOwnerRecord, reads: u8 },
    /// Nothing more.
    Done,
}

/// A resolution in progress.
pub struct Resolution {
    address: ActorAddress,
    rounds: u8,
    phase: ResolvePhase,
}

/// The next operation of a resolution.
pub enum ResolveAction {
    ReadOwner,
    ReadLease { session_id: NodeSessionId },
    Claim { record: ActorOwnerRecord, etag: Option<String> },
    Finish(Result<ResolvedOwner, RuntimeError>),
}

/// A phase as a mathematical value.
pub enum PhaseView {
    Reading,
    Checking { current: VersionedView },
    Claiming { expected: RecordView },
    Confirming { expected: RecordView, reads: nat },
    Done,
}

/// An action as a mathematical value.
pub enum ActionView {
    ReadOwner,
    ReadLease { session_id: Seq<char> },
    Claim { record: RecordView, etag: Option<Seq<char>> },
    Finish(Result<ResolvedView, RuntimeError>),
}

impl View for ResolvePhase {
    type V = PhaseView;

    open spec fn view(&self) -> PhaseView {
        match self {
            ResolvePhase::Reading => PhaseView::Reading,
            ResolvePhase::Checking { current } => PhaseView::Checking { current: current@ },
            ResolvePhase::Claiming { expected } => PhaseView::Claiming { expected: expected@ },
            ResolvePhase::Confirming { expected, reads } => PhaseView::Confirming {
                expected: expected@,
                reads: *reads as nat,
            },
            ResolvePhase::Done => PhaseView::Done,
        }
    }
}

impl View for ResolveAction {
    type V = ActionView;

    open spec fn view(&self) -> ActionView {
        match self {
            ResolveAction::ReadOwner => ActionView::ReadOwner,
            ResolveAction::ReadLease { session_id } => ActionView::ReadLease {
                session_id: session_id@,
            },
            ResolveAction::Claim { record, etag } => ActionView::Claim {
                record: record@,
                etag: match etag {
                    Some(etag) => Some(etag@),
                    None => None,
                },
            },
            ResolveAction::Finish(result) => ActionView::Finish(
                match result {
                    Ok(owner) => Ok(owner@),
                    Err(error) => Err(*error),
                },
            ),
        }
    }
}

/// The state of a resolution: the identity of the runtime, the rounds that are
/// left after the present one, and the phase.
pub struct StateView {
    pub me: OwnerView,
    pub rounds: nat,
    pub phase: PhaseView,
}

/// One step of a resolution: the state it leads to, the next operation, by how
/// much it changes the number of reservations, and what is remembered from now
/// on.
pub struct Step {
    pub state: StateView,
    pub action: ActionView,
    pub reserve: int,
    pub remember: Option<CachedView>,
}

/// The resolution fails.
pub open spec fn fail(state: StateView, error: RuntimeError, reserve: int) -> Step {
    Step {
        state: StateView { phase: PhaseView::Done, ..state },
        action: ActionView::Finish(Err(error)),
        reserve,
        remember: None,
    }
}

/// The resolution ends with an Owner, who is remembered.
pub open spec fn settle(state: StateView, owner: CachedView, reserved: bool) -> Step {
    Step {
        state: StateView { phase: PhaseView::Done, ..state },
        action: ActionView::Finish(
            Ok(
                if reserved {
                    ResolvedView::Local { reserved: true }
                } else {
                    resolved_from(owner)
                },
            ),
        ),
        reserve: 0,
        remember: Some(owner),
    }
}

/// The resolution reads the ownership record anew, if a round is left for it; its
/// reservation is given up.
pub open spec fn next_round(state: StateView) -> Step {
    if state.rounds > 0 {
        Step {
            state: StateView {
                rounds: (state.rounds - 1) as nat,
                phase: PhaseView::Reading,
                ..state
            },
            action: ActionView::ReadOwner,
            reserve: -1,
            remember: None,
        }
    } else {
        fail(state, RuntimeError::OwnershipUnavailable, -1)
    }
}

/// The epoch of a claim that follows on what was read.
pub open spec fn next_epoch(current: Option<VersionedView>) -> u64 {
    match current {
        None => 1,
        Some(current) => if current.record.ownership_epoch == u64::MAX {
            u64::MAX
        } else {
            (current.record.ownership_epoch + 1) as u64
        },
    }
}

/// The resolution claims the Actor over what was read, under a reservation for
/// its route.
pub open spec fn claim(state: StateView, current: Option<VersionedView>, permit: bool) -> Step {
    let expected = claim_record(state.me, next_epoch(current));
    if permit {
        Step {
            state: StateView { phase: PhaseView::Claiming { expected }, ..state },
            action: ActionView::Claim {
                record: expected,
                etag: match current {
                    Some(current) => Some(current.etag),
                    None => None,
                },
            },
            reserve: 1,
            remember: None,
        }
    } else {
        fail(state, RuntimeError::RuntimeAtCapacity, 0)
    }
}

/// What the host learned from one operation of the storage; a failure and a
/// timeout are the same.
pub enum StorageReply<T> {
    Failed,
    Ready(T),
}

/// What follows on a reply that carries an ownership record.
pub open spec fn owner_step(
    state: StateView,
    reply: StorageReply<Option<VersionedActorOwnerRecord>>,
    permit: bool,
) -> Step {
    let read = match reply {
        StorageReply::Ready(Some(read)) => Some(read@),
        _ => None,
    };
    match state.phase {
        PhaseView::Confirming { expected, reads } => if read matches Some(r) && r.record
            == expected {
            settle(state, CachedView::Local, true)
        } else if read matches Some(r) && r.record.owner is Some {
            next_round(state)
        } else if reads > 1 {
            Step {
                state: StateView {
                    phase: PhaseView::Confirming { expected, reads: (reads - 1) as nat },
                    ..state
                },
                action: ActionView::ReadOwner,
                reserve: 0,
                remember: None,
            }
        } else {
            fail(state, RuntimeError::OwnershipUnavailable, -1)
        },
        _ => if reply is Failed {
            fail(state, RuntimeError::OwnershipUnavailable, 0)
        } else {
            match read {
                None => claim(state, None, permit),
                Some(r) => match r.record.owner {
                    None => claim(state, read, permit),
                    Some(owner) => if owner == state.me {
                        settle(state, CachedView::Local, false)
                    } else {
                        Step {
                            state: StateView {
                                phase: PhaseView::Checking { current: r },
                                ..state
                            },
                            action: ActionView::ReadLease { session_id: owner.session_id },
                            reserve: 0,
                            remember: None,
                        }
                    },
                },
            }
        },
    }
}

/// The endpoint that a lease advertises.
pub open spec fn lease_endpoint(lease: LeaseView) -> Seq<char> {
    "http://"@ + lease.advertised_address
}

/// What follows on a reply that carries the lease of the owner: a lease that has
/// not expired keeps the Actor.
pub open spec fn lease_step(
    state: StateView,
    reply: StorageReply<Option<VersionedNodeLease>>,
    wall_time_millis: u64,
    permit: bool,
) -> Step {
    match (state.phase, reply) {
        (PhaseView::Checking { current }, StorageReply::Ready(lease)) => match lease {
            Some(lease) if lease.lease@.expires_at_unix_ms > wall_time_millis => settle(
                state,
                CachedView::Remote {
                    endpoint: lease_endpoint(lease.lease@),
                    protocol_version: lease.lease@.protocol_version,
                },
                false,
            ),
            _ => claim(state, Some(current), permit),
        },
        _ => fail(state, RuntimeError::OwnershipUnavailable, 0),
    }
}

/// What follows on the reply to a claim.
pub open spec fn claim_step(state: StateView, reply: StorageReply<LeaseMutation>) -> Step {
    match (state.phase, reply) {
        (PhaseView::Claiming { expected }, StorageReply::Ready(mutation)) => match mutation {
            LeaseMutation::Applied { .. } => settle(state, CachedView::Local, true),
            LeaseMutation::ConditionalRejected => next_round(state),
            LeaseMutation::Ambiguous(_) => Step {
                state: StateView {
                    phase: PhaseView::Confirming { expected, reads: CONFIRMATION_READS as nat },
                    ..state
                },
                action: ActionView::ReadOwner,
                reserve: 0,
                remember: None,
            },
        },
        _ => fail(state, RuntimeError::OwnershipUnavailable, -1),
    }
}

/// The route table with a step's change to the reservations.
pub open spec fn reserve_by<A, M, T>(table: TableView<A, M, T>, by: int) -> TableView<A, M, T> {
    TableView { reserved: (table.reserved + by) as nat, ..table }
}

/// What is remembered after a step.
pub open spec fn remembers(
    before: Map<AddressView, CachedView>,
    address: AddressView,
    remember: Option<CachedView>,
) -> Map<AddressView, CachedView> {
    match remember {
        Some(owner) => before.insert(address, owner),
        None => before,
    }
}

/// The resolution holds a reservation while a claim is open.
pub open spec fn holds_reservation(phase: PhaseView) -> bool {
    phase is Claiming || phase is Confirming
}

impl Resolution {
    /// The address whose Owner is looked for.
    pub closed spec fn address(&self) -> AddressView {
        self.address@
    }

    /// The state of the resolution on behalf of an identity.
    pub closed spec fn state(&self, me: OwnerView) -> StateView {
        StateView { me, rounds: self.rounds as nat, phase: self.phase@ }
    }

    /// What the resolution waits for.
    pub closed spec fn waits(&self) -> PhaseView {
        self.phase@
    }

    /// The counters are in range.
    pub closed spec fn wf(&self) -> bool {
        &&& self.rounds < RESOLUTION_ROUNDS
        &&& self.phase matches ResolvePhase::Confirming { reads, .. } ==> 0 < reads
            <= CONFIRMATION_READS
    }

    /// Starts a resolution. An Owner that is remembered settles it at once.
    pub fn begin(context: &DistributedContext, address: &ActorAddress) -> (start: (
        Self,
        ResolveAction,
    ))
        requires
            context.wf(),
        ensures
            start.0.wf(),
            start.0.address() == address@,
            if context.remembered().dom().contains(address@) {
                &&& start.0.waits() is Done
                &&& start.1@ == ActionView::Finish(
                    Ok(resolved_from(context.remembered()[address@])),
                )
            } else {
                &&& start.0.waits() is Reading
                &&& start.0.state(context.me()) == (StateView {
                    me: context.me(),
                    rounds: (RESOLUTION_ROUNDS - 1) as nat,
                    phase: PhaseView::Reading,
                })
                &&& start.1@ == ActionView::ReadOwner
            },
    {
        let rounds: u8 = RESOLUTION_ROUNDS - 1;
        match context.cached(address) {
            Some(owner) => (
                Resolution { address: address.duplicate(), rounds, phase: ResolvePhase::Done },
                ResolveAction::Finish(Ok(owner)),
            ),
            None => (
                Resolution { address: address.duplicate(), rounds, phase: ResolvePhase::Reading },
                ResolveAction::ReadOwner,
            ),
        }
    }

    fn fail(&mut self, error: RuntimeError) -> (action: ResolveAction)
        requires
            old(self).wf(),
        ensures
            final(self).wf(),
            final(self).address() == old(self).address(),
            forall|me: OwnerView|
                #![trigger final(self).state(me)]
                final(self).state(me) == (StateView {
                    phase: PhaseView::Done,
                    ..old(self).state(me)
                }),
            action@ == ActionView::Finish(Err(error)),
    {
        self.phase = ResolvePhase::Done;
        ResolveAction::Finish(Err(error))
    }

    fn settle_local(&mut self, context: &mut DistributedContext, reserved: bool) -> (action:
        ResolveAction)
        requires
            old(self).wf(),
            old(context).wf(),
        ensures
            final(self).wf(),
            final(self).address() == old(self).address(),
            final(context).wf(),
            final(context).me() == old(context).me(),
            ({
                let step = settle(old(self).state(old(context).me()), CachedView::Local, reserved);
                &&& final(self).state(old(context).me()) == step.state
                &&& action@ == step.action
                &&& final(context).remembered() == remembers(
                    old(context).remembered(),
                    old(self).address(),
                    step.remember,
                )
            }),
    {
        context.remember(&self.address, CachedOwner::Local);
        self.phase = ResolvePhase::Done;
        ResolveAction::Finish(Ok(ResolvedOwner::Local { reserved }))
    }

    fn next_round(&mut self) -> (action: ResolveAction)
        requires
            old(self).wf(),
        ensures
            final(self).wf(),
            final(self).address() == old(self).address(),
            forall|me: OwnerView|
                #![trigger final(self).state(me)]
                final(self).state(me) == next_round(old(self).state(me)).state && action@
                    == next_round(old(self).state(me)).action,
    {
        if self.rounds > 0 {
            self.rounds = self.rounds - 1;
            self.phase = ResolvePhase::Reading;
            ResolveAction::ReadOwner
        } else {
            self.fail(RuntimeError::OwnershipUnavailable)
        }
    }

    fn claim<K: Key, M, T>(
        &mut self,
        context: &DistributedContext,
        current: Option<VersionedActorOwnerRecord>,
        routes: &mut RouteTable<K, M, T>,
    ) -> (action: ResolveAction)
        requires
            old(self).wf(),
            old(routes).wf(),
        ensures
            final(self).wf(),
            final(self).address() == old(self).address(),
            final(routes).wf(),
            ({
                let current = match current {
                    Some(current) => Some(current@),
                    None => None,
                };
                let step = claim(
                    old(self).state(context.me()),
                    current,
                    old(routes)@.available() > 0,
                );
                &&& final(self).state(context.me()) == step.state
                &&& action@ == step.action
                &&& final(routes)@ == reserve_by(old(routes)@, step.reserve)
                &&& step.remember is None
            }),
    {
        if !routes.try_reserve() {
            return self.fail(RuntimeError::RuntimeAtCapacity);
        }
        let (epoch, etag): (u64, Option<String>) = match current {
            Some(current) => (current.record.ownership_epoch.saturating_add(1), Some(current.etag)),
            None => (1, None),
        };
        let expected = context.local_claim(epoch);
        let record = expected.duplicate();
        self.phase = ResolvePhase::Claiming { expected };
        ResolveAction::Claim { record, etag }
    }

    /// Goes on with what the storage gave for the ownership record.
    pub fn on_owner<K: Key, M, T>(
        &mut self,
        context: &mut DistributedContext,
        reply: StorageReply<Option<VersionedActorOwnerRecord>>,
        routes: &mut RouteTable<K, M, T>,
    ) -> (action: ResolveAction)
        requires
            old(self).wf(),
            old(context).wf(),
            old(routes).wf(),
            old(self).waits() is Reading || old(self).waits() is Confirming,
            holds_reservation(old(self).waits()) ==> old(routes)@.reserved > 0,
        ensures
            final(self).wf(),
            final(context).wf(),
            final(routes).wf(),
            final(self).address() == old(self).address(),
            final(context).me() == old(context).me(),
            ({
                let step = owner_step(
                    old(self).state(old(context).me()),
                    reply,
                    old(routes)@.available() > 0,
                );
                &&& final(self).state(old(context).me()) == step.state
                &&& final(self).waits() == step.state.phase
                &&& action@ == step.action
                &&& final(routes)@ == reserve_by(old(routes)@, step.reserve)
                &&& final(context).remembered() == remembers(
                    old(context).remembered(),
                    old(self).address(),
                    step.remember,
                )
            }),
    {
        match &self.phase {
            ResolvePhase::Confirming { expected, reads } => {
                let reads: u8 = *reads;
                if let StorageReply::Ready(Some(read)) = &reply {
                    if read.record.same(expected) {
                        return self.settle_local(context, true);
                    }
                    if read.record.owner.is_some() {
                        routes.cancel_reservation();
                        return self.next_round();
                    }
                }
                if reads > 1 {
                    let expected = expected.duplicate();
                    self.phase = ResolvePhase::Confirming { expected, reads: reads - 1 };
                    return ResolveAction::ReadOwner;
                }
                routes.cancel_reservation();
                self.fail(RuntimeError::OwnershipUnavailable)
            },
            _ => {
                let current = match reply {
                    StorageReply::Ready(current) => current,
                    StorageReply::Failed => {
                        return self.fail(RuntimeError::OwnershipUnavailable);
                    },
                };
                let read = match current {
                    Some(read) => read,
                    None => return self.claim(context, None, routes),
                };
                if context.is_local_owner(&read.record) {
                    return self.settle_local(context, false);
                }
                let session_id = match &read.record.owner {
                    Some(owner) => owner.session_id.duplicate(),
                    None => return self.claim(context, Some(read), routes),
                };
                self.phase = ResolvePhase::Checking { current: read };
                ResolveAction::ReadLease { session_id }
            },
        }
    }

    /// Goes on with what the storage gave for the lease of the owner.
    pub fn on_lease<K: Key, M, T>(
        &mut self,
        context: &mut DistributedContext,
        reply: StorageReply<Option<VersionedNodeLease>>,
        wall_time_millis: u64,
        routes: &mut RouteTable<K, M, T>,
    ) -> (action: ResolveAction)
        requires
            old(self).wf(),
            old(context).wf(),
            old(routes).wf(),
            old(self).waits() is Checking,
        ensures
            final(self).wf(),
            final(context).wf(),
            final(routes).wf(),
            final(self).address() == old(self).address(),
            final(context).me() == old(context).me(),
            ({
                let step = lease_step(
                    old(self).state(old(context).me()),
                    reply,
                    wall_time_millis,
                    old(routes)@.available() > 0,
                );
                &&& final(self).state(old(context).me()) == step.state
                &&& final(self).waits() == step.state.phase
                &&& action@ == step.action
                &&& final(routes)@ == reserve_by(old(routes)@, step.reserve)
                &&& final(context).remembered() == remembers(
                    old(context).remembered(),
                    old(self).address(),
                    step.remember,
                )
            }),
    {
        let lease = match reply {
            StorageReply::Ready(lease) => lease,
            StorageReply::Failed => return self.fail(RuntimeError::OwnershipUnavailable),
        };
        let current = match &self.phase {
            ResolvePhase::Checking { current } => current.duplicate(),
            _ => return self.fail(RuntimeError::OwnershipUnavailable),
        };
        if let Some(versioned) = lease {
            if versioned.lease.expires_at_unix_ms > wall_time_millis {
                let endpoint = "http://".to_owned().concat(
                    versioned.lease.advertised_address.text.as_str(),
                );
                let protocol_version: u32 = versioned.lease.protocol_version;
                context.remember(
                    &self.address,
                    CachedOwner::Remote { endpoint: endpoint.clone(), protocol_version },
                );
                self.phase = ResolvePhase::Done;
                return ResolveAction::Finish(
                    Ok(ResolvedOwner::Remote { endpoint, protocol_version }),
                );
            }
        }
        self.claim(context, Some(current), routes)
    }

    /// Goes on with the outcome of a claim.
    pub fn on_claim<K: Key, M, T>(
        &mut self,
        context: &mut DistributedContext,
        reply: StorageReply<LeaseMutation>,
        routes: &mut RouteTable<K, M, T>,
    ) -> (action: ResolveAction)
        requires
            old(self).wf(),
            old(context).wf(),
            old(routes).wf(),
            old(self).waits() is Claiming,
            old(routes)@.reserved > 0,
        ensures
            final(self).wf(),
            final(context).wf(),
            final(routes).wf(),
            final(self).address() == old(self).address(),
            final(context).me() == old(context).me(),
            ({
                let step = claim_step(old(self).state(old(context).me()), reply);
                &&& final(self).state(old(context).me()) == step.state
                &&& final(self).waits() == step.state.phase
                &&& action@ == step.action
                &&& final(routes)@ == reserve_by(old(routes)@, step.reserve)
                &&& final(context).remembered() == remembers(
                    old(context).remembered(),
                    old(self).address(),
                    step.remember,
                )
            }),
    {
        let mutation = match reply {
            StorageReply::Ready(mutation) => mutation,
            StorageReply::Failed => {
                routes.cancel_reservation();
                return self.fail(RuntimeError::OwnershipUnavailable);
            },
        };
        let expected = match &self.phase {
            ResolvePhase::Claiming { expected } => expected.duplicate(),
            _ => {
                routes.cancel_reservation();
                return self.fail(RuntimeError::OwnershipUnavailable);
            },
        };
        match mutation {
            LeaseMutation::Applied { .. } => self.settle_local(context, true),
            LeaseMutation::ConditionalRejected => {
                routes.cancel_reservation();
                self.next_round()
            },
            LeaseMutation::Ambiguous(_) => {
                self.phase = ResolvePhase::Confirming { expected, reads: CONFIRMATION_READS };
                ResolveAction::ReadOwner
            },
        }
    }
}

/// What a runtime that only serves its own Actors makes of a resolution: an
/// Actor of another runtime is none of its business.
pub fn resolve_local(result: Result<ResolvedOwner, RuntimeError>) -> (local: Result<
    bool,
    RuntimeError,
>)
    ensures
        local == match result {
            Ok(ResolvedOwner::Local { reserved }) => Ok(reserved),
            Ok(ResolvedOwner::Remote { .. }) => Err(RuntimeError::NotOwner),
            Err(error) => Err(error),
        },
{
    match result {
        Ok(ResolvedOwner::Local { reserved }) => Ok(reserved),
        Ok(ResolvedOwner::Remote { .. }) => Err(RuntimeError::NotOwner),
        Err(error) => Err(error),
    }
}

/// A step of a resolution is one of these.
pub open spec fn is_step(
    state: StateView,
    owner: StorageReply<Option<VersionedActorOwnerRecord>>,
    lease: StorageReply<Option<VersionedNodeLease>>,
    mutation: StorageReply<LeaseMutation>,
    wall_time_millis: u64,
    permit: bool,
    step: Step,
) -> bool {
    match state.phase {
        PhaseView::Reading | PhaseView::Confirming { .. } => step == owner_step(
            state,
            owner,
            permit,
        ),
        PhaseView::Checking { .. } => step == lease_step(state, lease, wall_time_millis, permit),
        PhaseView::Claiming { .. } => step == claim_step(state, mutation),
        PhaseView::Done => false,
    }
}

/// What is left of a resolution: an upper bound on the operations it still asks
/// for.
pub open spec fn resolution_budget(state: StateView) -> nat {
    let round: nat = match state.phase {
        PhaseView::Reading => CONFIRMATION_READS as nat + 3,
        PhaseView::Checking { .. } => CONFIRMATION_READS as nat + 2,
        PhaseView::Claiming { .. } => CONFIRMATION_READS as nat + 1,
        PhaseView::Confirming { reads, .. } => reads,
        PhaseView::Done => 0,
    };
    if state.phase is Done {
        0
    } else {
        round + state.rounds * (CONFIRMATION_READS as nat + 3)
    }
}

/// Every resolution ends: each step brings it closer, whatever the storage
/// replies.
pub proof fn law_resolution_ends(
    state: StateView,
    owner: StorageReply<Option<VersionedActorOwnerRecord>>,
    lease: StorageReply<Option<VersionedNodeLease>>,
    mutation: StorageReply<LeaseMutation>,
    wall_time_millis: u64,
    permit: bool,
    step: Step,
)
    requires
        is_step(state, owner, lease, mutation, wall_time_millis, permit, step),
        state.phase matches PhaseView::Confirming { reads, .. } ==> reads > 0,
    ensures
        resolution_budget(step.state) < resolution_budget(state),
        step.state.phase is Done <==> step.action is Finish,
{
    if state.rounds > 0 {
        let more = CONFIRMATION_READS as nat + 3;
        assert(state.rounds * more == (state.rounds - 1) * more + more) by (nonlinear_arith);
    }
    assert(state.rounds * (CONFIRMATION_READS as nat + 3) >= 0) by (nonlinear_arith);
}

/// The reservations balance, and an Owner is remembered exactly when the
/// resolution ends with one.
pub proof fn law_resolution_keeps_its_books(
    state: StateView,
    owner: StorageReply<Option<VersionedActorOwnerRecord>>,
    lease: StorageReply<Option<VersionedNodeLease>>,
    mutation: StorageReply<LeaseMutation>,
    wall_time_millis: u64,
    permit: bool,
    step: Step,
)
    requires
        is_step(state, owner, lease, mutation, wall_time_millis, permit, step),
    ensures
        ({
            let held: int = if holds_reservation(state.phase) {
                1
            } else {
                0
            };
            let holds: int = if holds_reservation(step.state.phase) || step.action
                == ActionView::Finish(Ok(ResolvedView::Local { reserved: true })) {
                1
            } else {
                0
            };
            holds == held + step.reserve
        }),
        step.remember is Some <==> step.action matches ActionView::Finish(Ok(_)),
{
}

/// A resolution ends in local ownership only on evidence of the storage, and
/// every claim raises the epoch that was read, as long as the counter has not
/// reached its end, under the tag it was read with.
pub proof fn law_ownership_needs_evidence(
    state: StateView,
    owner: StorageReply<Option<VersionedActorOwnerRecord>>,
    lease: StorageReply<Option<VersionedNodeLease>>,
    mutation: StorageReply<LeaseMutation>,
    wall_time_millis: u64,
    permit: bool,
    step: Step,
)
    requires
        is_step(state, owner, lease, mutation, wall_time_millis, permit, step),
    ensures
        step.action matches ActionView::Finish(Ok(ResolvedView::Local { .. })) ==> match state.phase {
            PhaseView::Reading => owner matches StorageReply::Ready(Some(read))
                && read@.record.owner == Some(state.me),
            PhaseView::Claiming { .. } => mutation matches StorageReply::Ready(
                LeaseMutation::Applied { .. },
            ),
            PhaseView::Confirming { expected, .. } => owner matches StorageReply::Ready(Some(read))
                && read@.record == expected,
            _ => false,
        },
        step.action matches ActionView::Claim { record, etag } ==> {
            let read = match state.phase {
                PhaseView::Checking { current } => Some(current),
                _ => match owner {
                    StorageReply::Ready(Some(read)) => Some(read@),
                    _ => None,
                },
            };
            match read {
                Some(read) => etag == Some(read.etag) && (read.record.ownership_epoch < u64::MAX
                    ==> record.ownership_epoch > read.record.ownership_epoch),
                None => etag is None && record.ownership_epoch == 1,
            }
        },
{
}

/// A remembered Owner is found as it was remembered, without a reservation.
pub proof fn law_remembered_owners_are_found(
    before: Map<AddressView, CachedView>,
    address: AddressView,
    owner: CachedView,
    other: AddressView,
)
    ensures
        remembers(before, address, Some(owner)).dom().contains(address),
        remembers(before, address, Some(owner))[address] == owner,
        other != address ==> (remembers(before, address, Some(owner)).dom().contains(other)
            <==> before.dom().contains(other)) && remembers(before, address, Some(owner))[other]
            == before[other],
        remembers(before, address, None) == before,
        owner is Local ==> resolved_from(owner) == (ResolvedView::Local { reserved: false }),
        owner matches CachedView::Remote { endpoint, protocol_version } ==> resolved_from(owner)
            == (ResolvedView::Remote { endpoint, protocol_version }),
{
}

/// An Actor that nobody owns is claimed if there is room for it: for this runtime, one epoch
/// on from what was read (the first is one), and under the tag that was read. Without room
/// the resolution ends at capacity.
pub proof fn law_free_actors_are_claimed(
    state: StateView,
    reply: StorageReply<Option<VersionedActorOwnerRecord>>,
    permit: bool,
)
    requires
        state.phase is Reading,
        reply matches StorageReply::Ready(read) && (read matches Some(record)
            ==> record@.record.owner is None),
    ensures
        ({
            let step = owner_step(state, reply, permit);
            &&& !permit ==> step.action == ActionView::Finish(Err(RuntimeError::RuntimeAtCapacity))
            &&& permit ==> {
                &&& step.action matches ActionView::Claim { record, etag }
                &&& record.owner == Some(state.me)
                &&& reply->Ready_0 is None ==> record.ownership_epoch == 1 && etag is None
                &&& reply->Ready_0 matches Some(read) ==> etag == Some(read@.etag) && (
                read@.record.ownership_epoch < u64::MAX ==> record.ownership_epoch
                    == read@.record.ownership_epoch + 1)
            }
        }),
{
}

/// A runtime that is read to own an Actor finds itself and remembers it; that another is read
/// to own it has the lease of that life read next.
pub proof fn law_owners_are_recognised(
    state: StateView,
    reply: StorageReply<Option<VersionedActorOwnerRecord>>,
    permit: bool,
    owner: OwnerView,
)
    requires
        state.phase is Reading,
        reply matches StorageReply::Ready(Some(read)) && read@.record.owner == Some(owner),
    ensures
        owner == state.me ==> owner_step(state, reply, permit).action == ActionView::Finish(
            Ok(ResolvedView::Local { reserved: false }),
        ) && owner_step(state, reply, permit).remember == Some(CachedView::Local),
        owner != state.me ==> owner_step(state, reply, permit).action == (ActionView::ReadLease {
            session_id: owner.session_id,
        }),
        owner_step(state, StorageReply::Failed, permit).action == ActionView::Finish(
            Err(RuntimeError::OwnershipUnavailable),
        ),
{
}

/// Another runtime keeps the Actor exactly while its lease has not expired, and is reached at
/// the address and in the version of its lease. Otherwise the Actor is claimed, if there is
/// room.
pub proof fn law_standing_leases_keep_their_actors(
    state: StateView,
    current: VersionedView,
    lease: Option<VersionedNodeLease>,
    wall_time_millis: u64,
    permit: bool,
)
    requires
        state.phase == (PhaseView::Checking { current }),
    ensures
        ({
            let step = lease_step(state, StorageReply::Ready(lease), wall_time_millis, permit);
            let stands = lease is Some && wall_time_millis < lease->0.lease@.expires_at_unix_ms;
            &&& stands ==> {
                &&& step.action matches ActionView::Finish(
                    Ok(ResolvedView::Remote { endpoint, protocol_version }),
                )
                &&& endpoint == "http://"@ + lease->0.lease@.advertised_address
                &&& protocol_version == lease->0.lease@.protocol_version
                &&& step.remember == Some(CachedView::Remote { endpoint, protocol_version })
            }
            &&& !stands && !permit ==> step.action == ActionView::Finish(
                Err(RuntimeError::RuntimeAtCapacity),
            )
            &&& !stands && permit ==> {
                &&& step.action matches ActionView::Claim { record, etag }
                &&& record.owner == Some(state.me)
                &&& etag == Some(current.etag)
                &&& current.record.ownership_epoch < u64::MAX ==> record.ownership_epoch
                    == current.record.ownership_epoch + 1
            }
            &&& lease_step(state, StorageReply::Failed, wall_time_millis, permit).action
                == ActionView::Finish(Err(RuntimeError::OwnershipUnavailable))
        }),
{
}

/// A claim that was applied makes this runtime the Owner, with the route reserved. After a
/// rejection the record is read anew while rounds are left; an uncertain claim is looked up,
/// three times at most.
pub proof fn law_claims_end_by_their_outcome(
    state: StateView,
    expected: RecordView,
    mutation: LeaseMutation,
)
    requires
        state.phase == (PhaseView::Claiming { expected }),
    ensures
        ({
            let step = claim_step(state, StorageReply::Ready(mutation));
            &&& mutation is Applied ==> step.action == ActionView::Finish(
                Ok(ResolvedView::Local { reserved: true }),
            ) && step.remember == Some(CachedView::Local)
            &&& mutation is ConditionalRejected && state.rounds > 0 ==> step.action
                == ActionView::ReadOwner && step.state.phase is Reading && step.state.rounds
                == state.rounds - 1
            &&& mutation is ConditionalRejected && state.rounds == 0 ==> step.action
                == ActionView::Finish(Err(RuntimeError::OwnershipUnavailable))
            &&& mutation is Ambiguous ==> step.action == ActionView::ReadOwner && step.state.phase
                == (PhaseView::Confirming { expected, reads: 3 })
            &&& step.state.me == state.me
        }),
        claim_step(state, StorageReply::Failed).action == ActionView::Finish(
            Err(RuntimeError::OwnershipUnavailable),
        ),
        RESOLUTION_ROUNDS == 3,
{
}

/// A look at an uncertain claim settles it if the very record was written. If somebody owns
/// the Actor otherwise a new round begins; else it is looked up while reads are left, and
/// then ownership cannot be told.
pub proof fn law_uncertain_claims_are_settled(
    state: StateView,
    expected: RecordView,
    reads: nat,
    reply: StorageReply<Option<VersionedActorOwnerRecord>>,
    permit: bool,
)
    requires
        state.phase == (PhaseView::Confirming { expected, reads }),
        expected.owner is Some,
    ensures
        ({
            let step = owner_step(state, reply, permit);
            let read = reply is Ready && reply->Ready_0 is Some;
            let written = read && reply->Ready_0->0@.record == expected;
            let others = read && !written && reply->Ready_0->0@.record.owner is Some;
            &&& written ==> step.action == ActionView::Finish(
                Ok(ResolvedView::Local { reserved: true }),
            ) && step.remember == Some(CachedView::Local)
            &&& others && state.rounds > 0 ==> step.action == ActionView::ReadOwner
                && step.state.phase is Reading && step.state.rounds == state.rounds - 1
            &&& others && state.rounds == 0 ==> step.action == ActionView::Finish(
                Err(RuntimeError::OwnershipUnavailable),
            )
            &&& !written && !others && reads > 1 ==> step.action == ActionView::ReadOwner
                && step.state.phase == (PhaseView::Confirming {
                expected,
                reads: (reads - 1) as nat,
            })
            &&& !written && !others && reads <= 1 ==> step.action == ActionView::Finish(
                Err(RuntimeError::OwnershipUnavailable),
            )
        }),
{
}

/// A step changes the reservations by what it says, and no route.
pub proof fn law_reservations_change_nothing_else<A, M, T>(table: TableView<A, M, T>, by: int)
    requires
        table.reserved + by >= 0,
    ensures
        reserve_by(table, by).reserved == table.reserved + by,
        reserve_by(table, by).routes == table.routes,
        reserve_by(table, by).maximum == table.maximum,
{
}

} // verus!
