//! Finding the Owner of an Actor, and becoming it.
//!
//! A resolution alternates with the Coordination Store: it names the next
//! operation, the host performs it and hands back the reply.

use vstd::prelude::*;
use vstd::string::*;

use crate::cluster::authority::{
    unowned_record, ActorOwner, ActorOwnerRecord, MutationOutcome, NodeRecord, NodeSessionId,
    NodeView, OwnerView, RecordView, Revision, StoreReply, VersionedActorOwnerRecord,
    VersionedView,
};
use crate::error::SendError;
use crate::keyed::Key;
use crate::runtime::route::{RouteTable, TableView};

verus! {

/// The rounds that a resolution takes before it leaves the Actor to others.
pub const RESOLUTION_ROUNDS: u8 = 3;

/// The times that an uncertain write is looked up again.
pub const CONFIRMATION_READS: u8 = 3;

/// The identity under which a Server owns Actors.
pub struct ClusterRouter {
    identity: ActorOwner,
}

impl View for ClusterRouter {
    type V = OwnerView;

    closed spec fn view(&self) -> OwnerView {
        self.identity@
    }
}

/// The epoch of a claim that follows on what was read: one above it, or the
/// first.
pub open spec fn next_epoch(current: Option<VersionedView>) -> u64 {
    match current {
        None => 1,
        Some(current) => if current.record.ownership_epoch == u64::MAX {
            u64::MAX
        } else {
            (current.record.ownership_epoch + 1) as u64
        },
    }
}

/// The record by which a Server claims an Actor.
pub open spec fn claim_record(me: OwnerView, epoch: u64) -> RecordView {
    RecordView { owner: Some(me), ownership_epoch: epoch }
}

impl Clone for ClusterRouter {
    fn clone(&self) -> (copy: Self)
        ensures
            copy@ == self@,
    {
        ClusterRouter { identity: self.identity.duplicate() }
    }
}

impl ClusterRouter {
    /// The router of a Server.
    pub fn new(node_id: String, session_id: NodeSessionId) -> (router: Self)
        ensures
            router@ == (OwnerView { node_id: node_id@, session_id: session_id@ }),
    {
        ClusterRouter { identity: ActorOwner { node_id, session_id } }
    }

    /// Whether this life of this Server owns the Actor of a record.
    pub fn is_local_owner(&self, record: &ActorOwnerRecord) -> (local: bool)
        ensures
            local == (record@.owner == Some(self@)),
    {
        match &record.owner {
            Some(owner) => owner.same(&self.identity),
            None => false,
        }
    }

    /// The record by which this Server claims an Actor.
    pub fn local_claim(&self, epoch: u64) -> (record: ActorOwnerRecord)
        ensures
            record@ == claim_record(self@, epoch),
    {
        ActorOwnerRecord { owner: Some(self.identity.duplicate()), ownership_epoch: epoch }
    }
}

/// Who owns an Actor, once that is settled.
#[derive(Clone, Copy, Debug, PartialEq, Eq, Structural)]
pub enum ResolvedOwner {
    /// This Server. `reserved` tells whether the resolution holds a reservation
    /// for the route of the Actor.
    Local { reserved: bool },
    /// Some other Server.
    Remote,
}

/// What a resolution waits for.
pub enum ResolvePhase {
    /// The ownership record.
    Reading,
    /// The node record of the owner that was read.
    Checking { current: VersionedActorOwnerRecord },
    /// The outcome of a claim. A claim that takes over from an earlier life of
    /// this Server is not repeated.
    Claiming { expected: ActorOwnerRecord, takeover: bool },
    /// The ownership record, to see whether an uncertain claim was applied.
    Confirming { expected: ActorOwnerRecord, takeover: bool, reads: u8 },
    /// Nothing more.
    Done,
}

/// A resolution in progress.
pub struct Resolution {
    router: ClusterRouter,
    rounds: u8,
    phase: ResolvePhase,
}

/// The next operation of a resolution.
pub enum ResolveAction {
    ReadOwner,
    ReadNode { node_id: String },
    CompareExchange { record: ActorOwnerRecord, revision: Option<Revision> },
    Finish(Result<ResolvedOwner, SendError>),
}

/// A phase as a mathematical value.
pub enum PhaseView {
    Reading,
    Checking { current: VersionedView },
    Claiming { expected: RecordView, takeover: bool },
    Confirming { expected: RecordView, takeover: bool, reads: nat },
    Done,
}

/// An action as a mathematical value.
pub enum ActionView {
    ReadOwner,
    ReadNode { node_id: Seq<char> },
    CompareExchange { record: RecordView, revision: Option<Seq<char>> },
    Finish(Result<ResolvedOwner, SendError>),
}

/// A resolution as a mathematical value. `rounds` counts the rounds that are
/// left after the present one.
pub struct ResolutionView {
    pub me: OwnerView,
    pub rounds: nat,
    pub phase: PhaseView,
}

impl View for ResolvePhase {
    type V = PhaseView;

    open spec fn view(&self) -> PhaseView {
        match self {
            ResolvePhase::Reading => PhaseView::Reading,
            ResolvePhase::Checking { current } => PhaseView::Checking { current: current@ },
            ResolvePhase::Claiming { expected, takeover } => PhaseView::Claiming {
                expected: expected@,
                takeover: *takeover,
            },
            ResolvePhase::Confirming { expected, takeover, reads } => PhaseView::Confirming {
                expected: expected@,
                takeover: *takeover,
                reads: *reads as nat,
            },
            ResolvePhase::Done => PhaseView::Done,
        }
    }
}

impl View for ResolveAction {
    type V = ActionView;

    open spec fn view(&self) -> ActionView {
        match self {
            ResolveAction::ReadOwner => ActionView::ReadOwner,
            ResolveAction::ReadNode { node_id } => ActionView::ReadNode { node_id: node_id@ },
            ResolveAction::CompareExchange { record, revision } => ActionView::CompareExchange {
                record: record@,
                revision: match revision {
                    Some(revision) => Some(revision@),
                    None => None,
                },
            },
            ResolveAction::Finish(result) => ActionView::Finish(*result),
        }
    }
}

impl View for Resolution {
    type V = ResolutionView;

    closed spec fn view(&self) -> ResolutionView {
        ResolutionView {
            me: self.router@,
            rounds: self.rounds as nat,
            phase: self.phase@,
        }
    }
}

/// One step of a resolution: the state it leads to, the next operation, and by
/// how much it changes the number of reservations.
pub struct Step {
    pub state: ResolutionView,
    pub action: ActionView,
    pub reserve: int,
}

/// The resolution ends with a result.
pub open spec fn finish(
    state: ResolutionView,
    result: Result<ResolvedOwner, SendError>,
    reserve: int,
) -> Step {
    Step {
        state: ResolutionView { phase: PhaseView::Done, ..state },
        action: ActionView::Finish(result),
        reserve,
    }
}

/// The resolution reads the ownership record anew, if a round is left for it.
pub open spec fn next_round(state: ResolutionView, reserve: int) -> Step {
    if state.rounds > 0 {
        Step {
            state: ResolutionView {
                rounds: (state.rounds - 1) as nat,
                phase: PhaseView::Reading,
                ..state
            },
            action: ActionView::ReadOwner,
            reserve,
        }
    } else {
        finish(state, Ok(ResolvedOwner::Remote), reserve)
    }
}

/// The resolution claims the Actor over what was read, under a reservation for
/// its route.
pub open spec fn claim(
    state: ResolutionView,
    current: Option<VersionedView>,
    takeover: bool,
    permit: bool,
) -> Step {
    let expected = claim_record(state.me, next_epoch(current));
    if permit {
        Step {
            state: ResolutionView { phase: PhaseView::Claiming { expected, takeover }, ..state },
            action: ActionView::CompareExchange {
                record: expected,
                revision: match current {
                    Some(current) => Some(current.revision),
                    None => None,
                },
            },
            reserve: 1,
        }
    } else {
        finish(state, Err(SendError::RuntimeAtCapacity), 0)
    }
}

/// What follows on the ownership record.
pub open spec fn after_owner(
    state: ResolutionView,
    current: Option<VersionedView>,
    permit: bool,
) -> Step {
    match current {
        None => claim(state, current, false, permit),
        Some(read) => match read.record.owner {
            None => claim(state, current, false, permit),
            Some(owner) => if owner == state.me {
                finish(state, Ok(ResolvedOwner::Local { reserved: false }), 0)
            } else if owner.node_id == state.me.node_id {
                claim(state, current, true, permit)
            } else {
                Step {
                    state: ResolutionView { phase: PhaseView::Checking { current: read }, ..state },
                    action: ActionView::ReadNode { node_id: owner.node_id },
                    reserve: 0,
                }
            },
        },
    }
}

/// What follows on the node record of the owner: an owner whose life still
/// holds its lease keeps the Actor.
pub open spec fn after_node(
    state: ResolutionView,
    current: VersionedView,
    node: Option<NodeView>,
    permit: bool,
) -> Step {
    if node matches Some(node) && current.record.owner matches Some(owner) && node.session_id
        == owner.session_id {
        finish(state, Ok(ResolvedOwner::Remote), 0)
    } else {
        claim(state, Some(current), false, permit)
    }
}

/// What follows on the outcome of a claim.
pub open spec fn after_exchange(
    state: ResolutionView,
    expected: RecordView,
    takeover: bool,
    outcome: MutationOutcome<Revision>,
) -> Step {
    match outcome {
        MutationOutcome::Applied(_) => finish(state, Ok(ResolvedOwner::Local { reserved: true }), 0),
        MutationOutcome::Conflict => if takeover {
            finish(state, Ok(ResolvedOwner::Remote), -1)
        } else {
            next_round(state, -1)
        },
        MutationOutcome::Indeterminate(_) => Step {
            state: ResolutionView {
                phase: PhaseView::Confirming {
                    expected,
                    takeover,
                    reads: if takeover {
                        1
                    } else {
                        CONFIRMATION_READS as nat
                    },
                },
                ..state
            },
            action: ActionView::ReadOwner,
            reserve: 0,
        },
    }
}

/// What follows on a look at an uncertain claim. `read` is what the store gave,
/// if it gave anything.
pub open spec fn after_confirmation(
    state: ResolutionView,
    expected: RecordView,
    takeover: bool,
    reads: nat,
    read: Option<VersionedView>,
) -> Step {
    if read matches Some(read) && read.record == expected {
        finish(state, Ok(ResolvedOwner::Local { reserved: true }), 0)
    } else if !takeover && (read matches Some(read) && read.record.owner is Some) {
        next_round(state, -1)
    } else if reads > 1 {
        Step {
            state: ResolutionView {
                phase: PhaseView::Confirming { expected, takeover, reads: (reads - 1) as nat },
                ..state
            },
            action: ActionView::ReadOwner,
            reserve: 0,
        }
    } else {
        finish(state, Err(SendError::OwnershipUnavailable), -1)
    }
}

/// The resolution holds a reservation while a claim is open.
pub open spec fn holds_reservation(phase: PhaseView) -> bool {
    phase is Claiming || phase is Confirming
}

/// What follows on a reply that carries an ownership record. A failure to read
/// ends the resolution, except while an uncertain claim is looked up.
pub open spec fn owner_step(
    state: ResolutionView,
    reply: StoreReply<Option<VersionedActorOwnerRecord>>,
    permit: bool,
) -> Step {
    let read = match reply {
        StoreReply::Ready(Some(read)) => Some(read@),
        _ => None,
    };
    match state.phase {
        PhaseView::Confirming { expected, takeover, reads } => after_confirmation(
            state,
            expected,
            takeover,
            reads,
            read,
        ),
        _ => if reply is Ready {
            after_owner(state, read, permit)
        } else {
            finish(state, Err(SendError::OwnershipUnavailable), 0)
        },
    }
}

/// What follows on a reply that carries a node record.
pub open spec fn node_step(
    state: ResolutionView,
    reply: StoreReply<Option<NodeRecord>>,
    permit: bool,
) -> Step {
    match (state.phase, reply) {
        (PhaseView::Checking { current }, StoreReply::Ready(node)) => after_node(
            state,
            current,
            match node {
                Some(node) => Some(node@),
                None => None,
            },
            permit,
        ),
        _ => finish(state, Err(SendError::OwnershipUnavailable), 0),
    }
}

/// What follows on the reply to a claim.
pub open spec fn exchange_step(
    state: ResolutionView,
    reply: StoreReply<MutationOutcome<Revision>>,
) -> Step {
    match (state.phase, reply) {
        (PhaseView::Claiming { expected, takeover }, StoreReply::Ready(outcome)) => after_exchange(
            state,
            expected,
            takeover,
            outcome,
        ),
        _ => finish(state, Err(SendError::OwnershipUnavailable), -1),
    }
}

/// The route table with a step's change to the reservations.
pub open spec fn reserve_by<A, M, T>(
    table: TableView<A, M, T>,
    by: int,
) -> TableView<A, M, T> {
    TableView { reserved: (table.reserved + by) as nat, ..table }
}

impl Resolution {
    /// The counters are in range.
    pub closed spec fn wf(&self) -> bool {
        &&& self.rounds < RESOLUTION_ROUNDS
        &&& self.phase matches ResolvePhase::Confirming { reads, .. } ==> 0 < reads
            <= CONFIRMATION_READS
    }

    /// Starts a resolution.
    pub fn begin(router: ClusterRouter) -> (start: (Self, ResolveAction))
        ensures
            start.0.wf(),
            start.0@ == (ResolutionView {
                me: router@,
                rounds: (RESOLUTION_ROUNDS - 1) as nat,
                phase: PhaseView::Reading,
            }),
            start.1@ == ActionView::ReadOwner,
    {
        (
            Resolution { router, rounds: RESOLUTION_ROUNDS - 1, phase: ResolvePhase::Reading },
            ResolveAction::ReadOwner,
        )
    }

    fn finish(&mut self, result: Result<ResolvedOwner, SendError>) -> (action: ResolveAction)
        requires
            old(self).wf(),
        ensures
            final(self).wf(),
            final(self)@ == (ResolutionView { phase: PhaseView::Done, ..old(self)@ }),
            action@ == ActionView::Finish(result),
    {
        self.phase = ResolvePhase::Done;
        ResolveAction::Finish(result)
    }

    fn next_round(&mut self) -> (action: ResolveAction)
        requires
            old(self).wf(),
        ensures
            final(self).wf(),
            final(self)@ == next_round(old(self)@, 0).state,
            action@ == next_round(old(self)@, 0).action,
    {
        if self.rounds > 0 {
            self.rounds = self.rounds - 1;
            self.phase = ResolvePhase::Reading;
            ResolveAction::ReadOwner
        } else {
            self.finish(Ok(ResolvedOwner::Remote))
        }
    }

    fn claim<K: Key, M, T>(
        &mut self,
        current: Option<VersionedActorOwnerRecord>,
        takeover: bool,
        routes: &mut RouteTable<K, M, T>,
    ) -> (action: ResolveAction)
        requires
            old(self).wf(),
            old(routes).wf(),
        ensures
            final(self).wf(),
            final(routes).wf(),
            ({
                let current = match current {
                    Some(current) => Some(current@),
                    None => None,
                };
                let step = claim(old(self)@, current, takeover, old(routes)@.available() > 0);
                &&& final(self)@ == step.state
                &&& action@ == step.action
                &&& final(routes)@ == reserve_by(old(routes)@, step.reserve)
            }),
    {
        if !routes.try_reserve() {
            return self.finish(Err(SendError::RuntimeAtCapacity));
        }
        let (epoch, revision): (u64, Option<Revision>) = match current {
            Some(current) => (
                current.record.ownership_epoch.saturating_add(1),
                Some(current.revision),
            ),
            None => (1, None),
        };
        let expected = self.router.local_claim(epoch);
        let record = expected.duplicate();
        self.phase = ResolvePhase::Claiming { expected, takeover };
        ResolveAction::CompareExchange { record, revision }
    }

    /// Goes on with what the store gave for the ownership record.
    pub fn on_owner<K: Key, M, T>(
        &mut self,
        reply: StoreReply<Option<VersionedActorOwnerRecord>>,
        routes: &mut RouteTable<K, M, T>,
    ) -> (action: ResolveAction)
        requires
            old(self).wf(),
            old(routes).wf(),
            old(self)@.phase is Reading || old(self)@.phase is Confirming,
            holds_reservation(old(self)@.phase) ==> old(routes)@.reserved > 0,
        ensures
            final(self).wf(),
            final(routes).wf(),
            ({
                let step = owner_step(old(self)@, reply, old(routes)@.available() > 0);
                &&& final(self)@ == step.state
                &&& action@ == step.action
                &&& final(routes)@ == reserve_by(old(routes)@, step.reserve)
            }),
    {
        match &self.phase {
            ResolvePhase::Confirming { expected, takeover, reads } => {
                let takeover = *takeover;
                let reads: u8 = *reads;
                if let StoreReply::Ready(Some(read)) = &reply {
                    if read.record.same(expected) {
                        return self.finish(Ok(ResolvedOwner::Local { reserved: true }));
                    }
                    if !takeover && read.record.owner.is_some() {
                        routes.cancel_reservation();
                        return self.next_round();
                    }
                }
                if reads > 1 {
                    let expected = expected.duplicate();
                    self.phase = ResolvePhase::Confirming { expected, takeover, reads: reads - 1 };
                    return ResolveAction::ReadOwner;
                }
                routes.cancel_reservation();
                self.finish(Err(SendError::OwnershipUnavailable))
            },
            _ => {
                let current = match reply {
                    StoreReply::Ready(current) => current,
                    _ => return self.finish(Err(SendError::OwnershipUnavailable)),
                };
                let read = match current {
                    Some(read) => read,
                    None => return self.claim(None, false, routes),
                };
                let owner = match &read.record.owner {
                    Some(owner) => owner,
                    None => return self.claim(Some(read), false, routes),
                };
                if self.router.is_local_owner(&read.record) {
                    return self.finish(Ok(ResolvedOwner::Local { reserved: false }));
                }
                if owner.node_id == self.router.identity.node_id {
                    return self.claim(Some(read), true, routes);
                }
                let node_id = owner.node_id.clone();
                self.phase = ResolvePhase::Checking { current: read };
                ResolveAction::ReadNode { node_id }
            },
        }
    }

    /// Goes on with what the store gave for the node record of the owner.
    pub fn on_node<K: Key, M, T>(
        &mut self,
        reply: StoreReply<Option<NodeRecord>>,
        routes: &mut RouteTable<K, M, T>,
    ) -> (action: ResolveAction)
        requires
            old(self).wf(),
            old(routes).wf(),
            old(self)@.phase is Checking,
        ensures
            final(self).wf(),
            final(routes).wf(),
            ({
                let step = node_step(old(self)@, reply, old(routes)@.available() > 0);
                &&& final(self)@ == step.state
                &&& action@ == step.action
                &&& final(routes)@ == reserve_by(old(routes)@, step.reserve)
            }),
    {
        let node = match reply {
            StoreReply::Ready(node) => node,
            _ => return self.finish(Err(SendError::OwnershipUnavailable)),
        };
        let current = match &self.phase {
            ResolvePhase::Checking { current } => current.clone(),
            _ => return self.finish(Err(SendError::OwnershipUnavailable)),
        };
        if let (Some(node), Some(owner)) = (&node, &current.record.owner) {
            if node.session_id.same(&owner.session_id) {
                return self.finish(Ok(ResolvedOwner::Remote));
            }
        }
        self.claim(Some(current), false, routes)
    }

    /// Goes on with the outcome of a claim.
    pub fn on_exchange<K: Key, M, T>(
        &mut self,
        reply: StoreReply<MutationOutcome<Revision>>,
        routes: &mut RouteTable<K, M, T>,
    ) -> (action: ResolveAction)
        requires
            old(self).wf(),
            old(routes).wf(),
            old(self)@.phase is Claiming,
            old(routes)@.reserved > 0,
        ensures
            final(self).wf(),
            final(routes).wf(),
            ({
                let step = exchange_step(old(self)@, reply);
                &&& final(self)@ == step.state
                &&& action@ == step.action
                &&& final(routes)@ == reserve_by(old(routes)@, step.reserve)
            }),
    {
        let outcome = match reply {
            StoreReply::Ready(outcome) => outcome,
            _ => {
                routes.cancel_reservation();
                return self.finish(Err(SendError::OwnershipUnavailable));
            },
        };
        let (expected, takeover) = match &self.phase {
            ResolvePhase::Claiming { expected, takeover } => (expected.duplicate(), *takeover),
            _ => {
                routes.cancel_reservation();
                return self.finish(Err(SendError::OwnershipUnavailable));
            },
        };
        match outcome {
            MutationOutcome::Applied(_) => self.finish(Ok(ResolvedOwner::Local { reserved: true })),
            MutationOutcome::Conflict => {
                routes.cancel_reservation();
                if takeover {
                    self.finish(Ok(ResolvedOwner::Remote))
                } else {
                    self.next_round()
                }
            },
            MutationOutcome::Indeterminate(_) => {
                let reads: u8 = if takeover {
                    1
                } else {
                    CONFIRMATION_READS
                };
                self.phase = ResolvePhase::Confirming { expected, takeover, reads };
                ResolveAction::ReadOwner
            },
        }
    }
}

/// What a release of ownership waits for.
pub enum ReleasePhase {
    /// The ownership record.
    Reading,
    /// The outcome of the release of what was read.
    Releasing { current: VersionedActorOwnerRecord },
    /// The ownership record, to see whether the release was applied.
    Confirming { current: ActorOwnerRecord, reads: u8 },
    /// Nothing more.
    Done,
}

/// A release of ownership in progress.
pub struct OwnerRelease {
    router: ClusterRouter,
    phase: ReleasePhase,
}

/// The next operation of a release. `Release` writes the record under the
/// revision it was read at.
pub enum ReleaseAction {
    ReadOwner,
    Release { record: ActorOwnerRecord, revision: Revision },
    Finish(Result<(), SendError>),
}

/// A phase of a release as a mathematical value.
pub enum ReleasePhaseView {
    Reading,
    Releasing { current: VersionedView },
    Confirming { current: RecordView, reads: nat },
    Done,
}

/// An action of a release as a mathematical value.
pub enum ReleaseActionView {
    ReadOwner,
    Release { record: RecordView, revision: Seq<char> },
    Finish(Result<(), SendError>),
}

impl View for ReleasePhase {
    type V = ReleasePhaseView;

    open spec fn view(&self) -> ReleasePhaseView {
        match self {
            ReleasePhase::Reading => ReleasePhaseView::Reading,
            ReleasePhase::Releasing { current } => ReleasePhaseView::Releasing {
                current: current@,
            },
            ReleasePhase::Confirming { current, reads } => ReleasePhaseView::Confirming {
                current: current@,
                reads: *reads as nat,
            },
            ReleasePhase::Done => ReleasePhaseView::Done,
        }
    }
}

impl View for ReleaseAction {
    type V = ReleaseActionView;

    open spec fn view(&self) -> ReleaseActionView {
        match self {
            ReleaseAction::ReadOwner => ReleaseActionView::ReadOwner,
            ReleaseAction::Release { record, revision } => ReleaseActionView::Release {
                record: record@,
                revision: revision@,
            },
            ReleaseAction::Finish(result) => ReleaseActionView::Finish(*result),
        }
    }
}

/// The release ends with a result.
pub open spec fn release_done(result: Result<(), SendError>) -> (
    ReleasePhaseView,
    ReleaseActionView,
) {
    (ReleasePhaseView::Done, ReleaseActionView::Finish(result))
}

/// What follows on a reply that carries an ownership record: only what this life
/// of this Server owns is released, and a release is confirmed by the very record
/// that it wrote.
pub open spec fn release_owner_step(
    me: OwnerView,
    phase: ReleasePhaseView,
    reply: StoreReply<Option<VersionedActorOwnerRecord>>,
) -> (ReleasePhaseView, ReleaseActionView) {
    let read = match reply {
        StoreReply::Ready(Some(read)) => Some(read@),
        _ => None,
    };
    match phase {
        ReleasePhaseView::Confirming { current, reads } => if read matches Some(read)
            && read.record == unowned_record(current.ownership_epoch) {
            release_done(Ok(()))
        } else if reads > 1 && (read matches Some(read) ==> read.record == current) {
            (
                ReleasePhaseView::Confirming { current, reads: (reads - 1) as nat },
                ReleaseActionView::ReadOwner,
            )
        } else {
            release_done(Err(SendError::OwnershipUnavailable))
        },
        _ => match read {
            Some(read) => if read.record.owner == Some(me) {
                (
                    ReleasePhaseView::Releasing { current: read },
                    ReleaseActionView::Release {
                        record: unowned_record(read.record.ownership_epoch),
                        revision: read.revision,
                    },
                )
            } else {
                release_done(Err(SendError::OwnershipUnavailable))
            },
            None => release_done(Err(SendError::OwnershipUnavailable)),
        },
    }
}

/// What follows on the reply to a release.
pub open spec fn release_exchange_step(
    phase: ReleasePhaseView,
    reply: StoreReply<MutationOutcome<Revision>>,
) -> (ReleasePhaseView, ReleaseActionView) {
    match (phase, reply) {
        (ReleasePhaseView::Releasing { current }, StoreReply::Ready(outcome)) => match outcome {
            MutationOutcome::Applied(_) => release_done(Ok(())),
            _ => (
                ReleasePhaseView::Confirming {
                    current: current.record,
                    reads: CONFIRMATION_READS as nat,
                },
                ReleaseActionView::ReadOwner,
            ),
        },
        _ => release_done(Err(SendError::OwnershipUnavailable)),
    }
}

impl OwnerRelease {
    /// The identity on whose behalf ownership is released.
    pub closed spec fn me(&self) -> OwnerView {
        self.router@
    }

    /// What the release waits for.
    pub closed spec fn waits(&self) -> ReleasePhaseView {
        self.phase@
    }

    /// The counter is in range.
    pub closed spec fn wf(&self) -> bool {
        self.phase matches ReleasePhase::Confirming { reads, .. } ==> 0 < reads
            <= CONFIRMATION_READS
    }

    /// Starts the release of an Actor by its Owner.
    pub fn begin(router: ClusterRouter) -> (start: (Self, ReleaseAction))
        ensures
            start.0.wf(),
            start.0.me() == router@,
            start.0.waits() == ReleasePhaseView::Reading,
            start.1@ == ReleaseActionView::ReadOwner,
    {
        (OwnerRelease { router, phase: ReleasePhase::Reading }, ReleaseAction::ReadOwner)
    }

    fn finish(&mut self, result: Result<(), SendError>) -> (action: ReleaseAction)
        ensures
            final(self).wf(),
            final(self).me() == old(self).me(),
            (final(self).waits(), action@) == release_done(result),
    {
        self.phase = ReleasePhase::Done;
        ReleaseAction::Finish(result)
    }

    /// Goes on with what the store gave for the ownership record.
    pub fn on_owner(&mut self, reply: StoreReply<Option<VersionedActorOwnerRecord>>) -> (action:
        ReleaseAction)
        requires
            old(self).wf(),
            old(self).waits() is Reading || old(self).waits() is Confirming,
        ensures
            final(self).wf(),
            final(self).me() == old(self).me(),
            (final(self).waits(), action@) == release_owner_step(
                old(self).me(),
                old(self).waits(),
                reply,
            ),
    {
        match &self.phase {
            ReleasePhase::Confirming { current, reads } => {
                let reads: u8 = *reads;
                if let StoreReply::Ready(Some(read)) = &reply {
                    let expected = ActorOwnerRecord::unowned(current.ownership_epoch);
                    if read.record.same(&expected) {
                        return self.finish(Ok(()));
                    }
                    if !read.record.same(current) {
                        return self.finish(Err(SendError::OwnershipUnavailable));
                    }
                }
                if reads > 1 {
                    let current = current.duplicate();
                    self.phase = ReleasePhase::Confirming { current, reads: reads - 1 };
                    return ReleaseAction::ReadOwner;
                }
                self.finish(Err(SendError::OwnershipUnavailable))
            },
            _ => {
                let current = match reply {
                    StoreReply::Ready(Some(current)) => current,
                    _ => return self.finish(Err(SendError::OwnershipUnavailable)),
                };
                if !self.router.is_local_owner(&current.record) {
                    return self.finish(Err(SendError::OwnershipUnavailable));
                }
                let record = ActorOwnerRecord::unowned(current.record.ownership_epoch);
                let revision = current.revision.duplicate();
                self.phase = ReleasePhase::Releasing { current };
                ReleaseAction::Release { record, revision }
            },
        }
    }

    /// Goes on with the outcome of the release.
    pub fn on_exchange(&mut self, reply: StoreReply<MutationOutcome<Revision>>) -> (action:
        ReleaseAction)
        requires
            old(self).wf(),
            old(self).waits() is Releasing,
        ensures
            final(self).wf(),
            final(self).me() == old(self).me(),
            (final(self).waits(), action@) == release_exchange_step(old(self).waits(), reply),
    {
        let current = match &self.phase {
            ReleasePhase::Releasing { current } => current.record.duplicate(),
            _ => return self.finish(Err(SendError::OwnershipUnavailable)),
        };
        match reply {
            StoreReply::Ready(outcome) => match outcome {
                MutationOutcome::Applied(_) => self.finish(Ok(())),
                _ => {
                    self.phase = ReleasePhase::Confirming { current, reads: CONFIRMATION_READS };
                    ReleaseAction::ReadOwner
                },
            },
            _ => self.finish(Err(SendError::OwnershipUnavailable)),
        }
    }
}

/// What is left of a resolution: an upper bound on the operations it still asks
/// for.
pub open spec fn resolution_budget(state: ResolutionView) -> nat {
    let round: nat = match state.phase {
        PhaseView::Reading => CONFIRMATION_READS as nat + 3,
        PhaseView::Checking { .. } => CONFIRMATION_READS as nat + 2,
        PhaseView::Claiming { .. } => CONFIRMATION_READS as nat + 1,
        PhaseView::Confirming { reads, .. } => reads,
        PhaseView::Done => 0,
    };
    if state.phase is Done {
        0
    } else {
        round + state.rounds * (CONFIRMATION_READS as nat + 3)
    }
}

/// A step of a resolution is one of these.
pub open spec fn is_step(
    state: ResolutionView,
    owner: StoreReply<Option<VersionedActorOwnerRecord>>,
    node: StoreReply<Option<NodeRecord>>,
    exchange: StoreReply<MutationOutcome<Revision>>,
    permit: bool,
    step: Step,
) -> bool {
    match state.phase {
        PhaseView::Reading | PhaseView::Confirming { .. } => step == owner_step(
            state,
            owner,
            permit,
        ),
        PhaseView::Checking { .. } => step == node_step(state, node, permit),
        PhaseView::Claiming { .. } => step == exchange_step(state, exchange),
        PhaseView::Done => false,
    }
}

/// Every resolution ends: each step brings it closer, whatever the store
/// replies.
pub proof fn law_resolution_ends(
    state: ResolutionView,
    owner: StoreReply<Option<VersionedActorOwnerRecord>>,
    node: StoreReply<Option<NodeRecord>>,
    exchange: StoreReply<MutationOutcome<Revision>>,
    permit: bool,
    step: Step,
)
    requires
        is_step(state, owner, node, exchange, permit, step),
        state.phase matches PhaseView::Confirming { reads, .. } ==> reads > 0,
    ensures
        resolution_budget(step.state) < resolution_budget(state),
        step.state.phase is Done <==> step.action is Finish,
{
    if state.rounds > 0 {
        let more = CONFIRMATION_READS as nat + 3;
        assert(state.rounds * more == (state.rounds - 1) * more + more) by (nonlinear_arith);
    }
    assert(state.rounds * (CONFIRMATION_READS as nat + 3) >= 0) by (nonlinear_arith);
}

/// Every claim is made by this Server, for the epoch that follows on what it
/// read, and under the revision it read it at: a record that somebody else
/// changed meanwhile is never overwritten.
pub proof fn law_claims_follow_what_was_read(
    state: ResolutionView,
    owner: StoreReply<Option<VersionedActorOwnerRecord>>,
    node: StoreReply<Option<NodeRecord>>,
    exchange: StoreReply<MutationOutcome<Revision>>,
    permit: bool,
    step: Step,
)
    requires
        is_step(state, owner, node, exchange, permit, step),
        step.action is CompareExchange,
    ensures
        step.action matches ActionView::CompareExchange { record, revision } && record.owner
            == Some(state.me) && match revision {
            None => record.ownership_epoch == 1,
            Some(revision) => exists|read: VersionedView|
                #![trigger next_epoch(Some(read))]
                read.revision == revision && record.ownership_epoch == next_epoch(Some(read)),
        },
        state.phase is Reading ==> (owner matches StoreReply::Ready(Some(read)) ==> (
        step.action matches ActionView::CompareExchange { revision, .. } && revision == Some(
            read.revision@,
        ))),
        state.phase matches PhaseView::Checking { current } ==> (
        step.action matches ActionView::CompareExchange { revision, .. } && revision == Some(
            current.revision,
        )),
{
    let read = match state.phase {
        PhaseView::Checking { current } => Some(current),
        _ => match owner {
            StoreReply::Ready(Some(read)) => Some(read@),
            _ => None,
        },
    };
    if let Some(read) = read {
        assert(next_epoch(Some(read)) == step.action->record.ownership_epoch);
    }
}

/// A resolution ends in local ownership only on evidence of the store: the
/// record names this life of this Server, the claim was applied, or the very
/// record that was claimed was read back.
pub proof fn law_local_ownership_needs_evidence(
    state: ResolutionView,
    owner: StoreReply<Option<VersionedActorOwnerRecord>>,
    node: StoreReply<Option<NodeRecord>>,
    exchange: StoreReply<MutationOutcome<Revision>>,
    permit: bool,
    step: Step,
)
    requires
        is_step(state, owner, node, exchange, permit, step),
        step.action matches ActionView::Finish(Ok(ResolvedOwner::Local { .. })),
    ensures
        match state.phase {
            PhaseView::Reading => owner matches StoreReply::Ready(Some(read))
                && read@.record.owner == Some(state.me),
            PhaseView::Claiming { .. } => exchange matches StoreReply::Ready(
                MutationOutcome::Applied(_),
            ),
            PhaseView::Confirming { expected, .. } => owner matches StoreReply::Ready(Some(read))
                && read@.record == expected,
            _ => false,
        },
{
}

/// The reservations balance: a resolution holds one exactly while a claim is
/// open, hands it over with a claimed Actor, and gives it up in every other end.
pub proof fn law_reservations_balance(
    state: ResolutionView,
    owner: StoreReply<Option<VersionedActorOwnerRecord>>,
    node: StoreReply<Option<NodeRecord>>,
    exchange: StoreReply<MutationOutcome<Revision>>,
    permit: bool,
    step: Step,
)
    requires
        is_step(state, owner, node, exchange, permit, step),
    ensures
        ({
            let held: int = if holds_reservation(state.phase) {
                1
            } else {
                0
            };
            let holds: int = if holds_reservation(step.state.phase) || step.action
                == ActionView::Finish(Ok(ResolvedOwner::Local { reserved: true })) {
                1
            } else {
                0
            };
            holds == held + step.reserve
        }),
{
}

/// The history of an ownership record under the rules of this module: each entry
/// follows on the one before by a claim or by a release.
pub open spec fn is_history(history: Seq<RecordView>) -> bool {
    forall|i: int|
        0 < i < history.len() ==> {
            let before = history[i - 1];
            let after = #[trigger] history[i];
            ||| after == unowned_record(before.ownership_epoch)
            ||| after.owner is Some && after.ownership_epoch == next_epoch(
                Some(VersionedView { record: before, revision: Seq::empty() }),
            )
        }
}

/// Ownership is fenced by its epoch: in the history of a record no two claims
/// have the same epoch, and a later one has the higher, as long as the counter
/// has not reached its end.
pub proof fn law_epochs_fence_ownership(history: Seq<RecordView>, earlier: int, later: int)
    requires
        is_history(history),
        0 <= earlier < later < history.len(),
        history[later].ownership_epoch < u64::MAX,
    ensures
        history[earlier].ownership_epoch <= history[later].ownership_epoch,
        history[later].owner is Some ==> history[earlier].ownership_epoch
            < history[later].ownership_epoch,
    decreases later - earlier,
{
    let before = history[later - 1];
    let after = history[later];
    if earlier < later - 1 {
        law_epochs_fence_ownership(history, earlier, later - 1);
    }
}

/// A release gives up only what this life of this Server was read to own, keeps
/// the epoch, and is made under the revision that was read.
pub proof fn law_release_keeps_the_epoch(
    me: OwnerView,
    phase: ReleasePhaseView,
    reply: StoreReply<Option<VersionedActorOwnerRecord>>,
)
    requires
        release_owner_step(me, phase, reply).1 is Release,
    ensures
        reply matches StoreReply::Ready(Some(read)) && read@.record.owner == Some(me)
            && release_owner_step(me, phase, reply).1 == (ReleaseActionView::Release {
            record: unowned_record(read@.record.ownership_epoch),
            revision: read@.revision,
        }),
{
}

/// A resolution takes three rounds at most: the first, and two after conflicts. An uncertain
/// claim is looked up three times at most, a takeover once.
pub proof fn law_resolutions_are_bounded(
    state: ResolutionView,
    expected: RecordView,
    takeover: bool,
    indeterminate: MutationOutcome<Revision>,
)
    requires
        state.phase == (PhaseView::Claiming { expected, takeover }),
        indeterminate is Indeterminate,
    ensures
        RESOLUTION_ROUNDS == 3,
        CONFIRMATION_READS == 3,
        exchange_step(state, StoreReply::Ready(indeterminate)).action == ActionView::ReadOwner,
        exchange_step(state, StoreReply::Ready(indeterminate)).state.phase == (
        PhaseView::Confirming {
            expected,
            takeover,
            reads: if takeover {
                1
            } else {
                3
            },
        }),
        exchange_step(state, StoreReply::Ready(indeterminate)).state.rounds == state.rounds,
{
}

/// An Actor that nobody owns, or that this Server owned in an earlier life, is claimed if
/// there is room for it: for this life, one epoch on from what was read (the first is one),
/// and under the revision that was read. Without room the resolution ends at capacity.
pub proof fn law_free_actors_are_claimed(
    state: ResolutionView,
    reply: StoreReply<Option<VersionedActorOwnerRecord>>,
    permit: bool,
)
    requires
        state.phase is Reading,
        reply matches StoreReply::Ready(read) && (read matches Some(record) ==> {
            ||| record@.record.owner is None
            ||| (record@.record.owner->0.node_id == state.me.node_id && record@.record.owner
                != Some(state.me))
        }),
    ensures
        ({
            let step = owner_step(state, reply, permit);
            &&& !permit ==> step.action == ActionView::Finish(Err(SendError::RuntimeAtCapacity))
            &&& permit ==> {
                &&& step.action matches ActionView::CompareExchange { record, revision }
                &&& record.owner == Some(state.me)
                &&& reply->Ready_0 is None ==> record.ownership_epoch == 1 && revision is None
                &&& reply->Ready_0 matches Some(read) ==> revision == Some(read@.revision) && (
                read@.record.ownership_epoch < u64::MAX ==> record.ownership_epoch
                    == read@.record.ownership_epoch + 1)
            }
        }),
{
}

/// A Server that is read to own an Actor finds itself at once; that another Server is read to
/// own it has that Server's own record read next.
pub proof fn law_owners_are_recognised(
    state: ResolutionView,
    reply: StoreReply<Option<VersionedActorOwnerRecord>>,
    permit: bool,
    owner: OwnerView,
)
    requires
        state.phase is Reading,
        reply matches StoreReply::Ready(Some(read)) && read@.record.owner == Some(owner),
    ensures
        owner == state.me ==> owner_step(state, reply, permit).action == ActionView::Finish(
            Ok(ResolvedOwner::Local { reserved: false }),
        ),
        owner.node_id != state.me.node_id ==> owner_step(state, reply, permit).action == (
        ActionView::ReadNode { node_id: owner.node_id }),
{
}

/// Another Server keeps the Actor exactly if its record still names the life that owns the
/// Actor. Otherwise the Actor is claimed, if there is room.
pub proof fn law_live_owners_keep_their_actors(
    state: ResolutionView,
    current: VersionedView,
    node: Option<NodeRecord>,
    permit: bool,
    owner: OwnerView,
)
    requires
        state.phase == (PhaseView::Checking { current }),
        current.record.owner == Some(owner),
    ensures
        ({
            let step = node_step(state, StoreReply::Ready(node), permit);
            let live = node is Some && node->0@.session_id == owner.session_id;
            &&& live ==> step.action == ActionView::Finish(Ok(ResolvedOwner::Remote))
            &&& !live && !permit ==> step.action == ActionView::Finish(
                Err(SendError::RuntimeAtCapacity),
            )
            &&& !live && permit ==> {
                &&& step.action matches ActionView::CompareExchange { record, revision }
                &&& record.owner == Some(state.me)
                &&& revision == Some(current.revision)
                &&& current.record.ownership_epoch < u64::MAX ==> record.ownership_epoch
                    == current.record.ownership_epoch + 1
            }
        }),
{
}

/// A claim that was applied makes this Server the Owner, with the route reserved. After a
/// conflict the record is read anew while rounds are left; then, and after a conflict over a
/// takeover, the Actor is left to others.
pub proof fn law_claims_end_by_their_outcome(
    state: ResolutionView,
    expected: RecordView,
    takeover: bool,
    outcome: MutationOutcome<Revision>,
    failed: StoreReply<MutationOutcome<Revision>>,
)
    requires
        state.phase == (PhaseView::Claiming { expected, takeover }),
        !(failed is Ready),
    ensures
        ({
            let step = exchange_step(state, StoreReply::Ready(outcome));
            &&& outcome is Applied ==> step.action == ActionView::Finish(
                Ok(ResolvedOwner::Local { reserved: true }),
            )
            &&& outcome is Conflict && !takeover && state.rounds > 0 ==> step.action
                == ActionView::ReadOwner && step.state.rounds == state.rounds - 1
                && step.state.phase is Reading
            &&& outcome is Conflict && (takeover || state.rounds == 0) ==> step.action
                == ActionView::Finish(Ok(ResolvedOwner::Remote))
            &&& step.state.me == state.me
        }),
        exchange_step(state, failed).action == ActionView::Finish(
            Err(SendError::OwnershipUnavailable),
        ),
{
}

/// A look at an uncertain claim settles it if the very record was written. If somebody else
/// owns the Actor a new round begins; otherwise it is looked up while reads are left, and
/// then ownership cannot be told.
pub proof fn law_uncertain_claims_are_settled(
    state: ResolutionView,
    expected: RecordView,
    takeover: bool,
    reads: nat,
    reply: StoreReply<Option<VersionedActorOwnerRecord>>,
    permit: bool,
)
    requires
        state.phase == (PhaseView::Confirming { expected, takeover, reads }),
        expected.owner is Some,
    ensures
        ({
            let step = owner_step(state, reply, permit);
            let read = reply is Ready && reply->Ready_0 is Some;
            let written = read && reply->Ready_0->0@.record == expected;
            let others = read && !written && reply->Ready_0->0@.record.owner is Some;
            &&& written ==> step.action == ActionView::Finish(
                Ok(ResolvedOwner::Local { reserved: true }),
            )
            &&& others && !takeover && state.rounds > 0 ==> step.action == ActionView::ReadOwner
                && step.state.phase is Reading && step.state.rounds == state.rounds - 1
            &&& others && !takeover && state.rounds == 0 ==> step.action == ActionView::Finish(
                Ok(ResolvedOwner::Remote),
            )
            &&& !written && (takeover || !others) && reads > 1 ==> step.action
                == ActionView::ReadOwner && step.state.phase == (PhaseView::Confirming {
                expected,
                takeover,
                reads: (reads - 1) as nat,
            })
            &&& !written && (takeover || !others) && reads <= 1 ==> step.action
                == ActionView::Finish(Err(SendError::OwnershipUnavailable))
        }),
{
}

/// A store that cannot be read ends a resolution, and a node record that cannot be read
/// does too: ownership is not guessed.
pub proof fn law_failed_reads_end_a_resolution(
    state: ResolutionView,
    owner: StoreReply<Option<VersionedActorOwnerRecord>>,
    node: StoreReply<Option<NodeRecord>>,
    permit: bool,
)
    requires
        !(owner is Ready),
        !(node is Ready),
    ensures
        state.phase is Reading ==> owner_step(state, owner, permit).action
            == ActionView::Finish(Err(SendError::OwnershipUnavailable)),
        state.phase is Checking ==> node_step(state, node, permit).action
            == ActionView::Finish(Err(SendError::OwnershipUnavailable)),
{
}

/// What this life of this Server is read to own is released: without an owner, at the same
/// epoch, under the revision that was read. What it is not read to own is not.
pub proof fn law_owned_actors_are_released(
    me: OwnerView,
    reply: StoreReply<Option<VersionedActorOwnerRecord>>,
)
    ensures
        ({
            let action = release_owner_step(me, ReleasePhaseView::Reading, reply).1;
            let owned = reply is Ready && reply->Ready_0 is Some
                && reply->Ready_0->0@.record.owner == Some(me);
            &&& owned ==> {
                let read = reply->Ready_0->0@;
                &&& action matches ReleaseActionView::Release { record, revision }
                &&& record.owner is None
                &&& record.ownership_epoch == read.record.ownership_epoch
                &&& revision == read.revision
            }
            &&& !owned ==> action == ReleaseActionView::Finish(
                Err(SendError::OwnershipUnavailable),
            )
        }),
{
}

/// A release that was applied is done. Otherwise the record is looked up, three times at
/// most: without an owner at the epoch of the release it is done, unchanged or unreadable it
/// is looked up again, and anything else is not this Server's to judge.
pub proof fn law_releases_are_looked_up(
    me: OwnerView,
    current: VersionedView,
    outcome: MutationOutcome<Revision>,
    failed: StoreReply<MutationOutcome<Revision>>,
    reads: nat,
    reply: StoreReply<Option<VersionedActorOwnerRecord>>,
)
    requires
        current.record.owner == Some(me),
        !(failed is Ready),
    ensures
        ({
            let releasing = ReleasePhaseView::Releasing { current };
            let after = release_exchange_step(releasing, StoreReply::Ready(outcome));
            &&& outcome is Applied ==> after.1 == ReleaseActionView::Finish(Ok(()))
            &&& !(outcome is Applied) ==> after.1 == ReleaseActionView::ReadOwner && after.0 == (
            ReleasePhaseView::Confirming { current: current.record, reads: 3 })
            &&& release_exchange_step(releasing, failed).1 == ReleaseActionView::Finish(
                Err(SendError::OwnershipUnavailable),
            )
        }),
        ({
            let step = release_owner_step(
                me,
                ReleasePhaseView::Confirming { current: current.record, reads },
                reply,
            );
            let read = reply is Ready && reply->Ready_0 is Some;
            let record = reply->Ready_0->0@.record;
            let released = read && record.owner is None && record.ownership_epoch
                == current.record.ownership_epoch;
            let unchanged = !read || record == current.record;
            &&& released ==> step.1 == ReleaseActionView::Finish(Ok(()))
            &&& !released && unchanged && reads > 1 ==> step.1 == ReleaseActionView::ReadOwner
                && step.0 == (ReleasePhaseView::Confirming {
                current: current.record,
                reads: (reads - 1) as nat,
            })
            &&& !released && !(unchanged && reads > 1) ==> step.1 == ReleaseActionView::Finish(
                Err(SendError::OwnershipUnavailable),
            )
        }),
{
}

/// A step changes the reservations by what it says, and no route.
pub proof fn law_reservations_change_nothing_else<A, M, T>(table: TableView<A, M, T>, by: int)
    requires
        table.reserved + by >= 0,
    ensures
        reserve_by(table, by).reserved == table.reserved + by,
        reserve_by(table, by).routes == table.routes,
        reserve_by(table, by).maximum == table.maximum,
{
}

} // verus!
