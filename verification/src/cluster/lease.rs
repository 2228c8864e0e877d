//! Keeping a Node Lease: confirming uncertain writes, renewing in time, and
//! fencing the Server when the lease is lost.

use std::time::Duration;

use vstd::prelude::*;
use vstd::string::*;

use crate::actor::ActorAddress;
use crate::cluster::authority::{
    MutationOutcome, NodeRecord, NodeView, Revision, StoreReply,
};
use crate::cluster::node::AuthorityView;
use crate::keyed::Key;
use crate::runtime::server::{ServerInner, Status};
use crate::runtime::shutdown::lists_all;
use crate::time::duration_nanos;

verus! {

/// The times that an uncertain lease is looked up again.
pub const LEASE_CONFIRMATION_READS: u8 = 3;

/// The smaller of two numbers.
pub open spec fn least(a: nat, b: nat) -> nat {
    if a <= b {
        a
    } else {
        b
    }
}

fn least_of(a: u128, b: u128) -> (min: u128)
    ensures
        min == least(a as nat, b as nat),
{
    if a <= b {
        a
    } else {
        b
    }
}

/// The look-up of a lease that may or may not have been written. `N` is what a
/// lease holds.
pub struct LeaseConfirmation<N> {
    expected: N,
    deadline: u128,
    operation_timeout: Duration,
    reads: u8,
}

/// A look-up as a mathematical value: what is looked for, until when, and how
/// many reads are left.
pub struct ConfirmationView<V> {
    pub expected: V,
    pub deadline: nat,
    pub operation_timeout: nat,
    pub reads: nat,
}

impl<N: Key> View for LeaseConfirmation<N> {
    type V = ConfirmationView<N::V>;

    closed spec fn view(&self) -> ConfirmationView<N::V> {
        ConfirmationView {
            expected: self.expected@,
            deadline: self.deadline as nat,
            operation_timeout: duration_nanos(self.operation_timeout),
            reads: self.reads as nat,
        }
    }
}

/// The revision of a lease that was read, if it is the one that was written.
pub open spec fn confirmed_revision<N: Key>(
    expected: N::V,
    reply: StoreReply<Option<(N, Revision)>>,
) -> Option<Seq<char>> {
    match reply {
        StoreReply::Ready(Some((node, revision))) => if node@ == expected {
            Some(revision@)
        } else {
            None
        },
        _ => None,
    }
}

impl<N: Key> LeaseConfirmation<N> {
    /// Starts to look a lease up.
    pub fn new(expected: N, deadline: u128, operation_timeout: Duration) -> (confirmation:
        Self)
        ensures
            confirmation@ == (ConfirmationView {
                expected: expected@,
                deadline: deadline as nat,
                operation_timeout: duration_nanos(operation_timeout),
                reads: LEASE_CONFIRMATION_READS as nat,
            }),
    {
        LeaseConfirmation { expected, deadline, operation_timeout, reads: LEASE_CONFIRMATION_READS }
    }

    /// The lease that is looked up.
    pub fn expected(&self) -> (expected: &N)
        ensures
            expected@ == self@.expected,
    {
        &self.expected
    }

    /// Uses up one read, if one is left and the deadline has not passed. The
    /// answer is the time that the read may take, in nanoseconds.
    pub fn next_read(&mut self, now: u64) -> (timeout: Option<u128>)
        ensures
            timeout is Some == (old(self)@.reads > 0 && now <= old(self)@.deadline),
            timeout matches Some(nanos) ==> nanos == least(
                old(self)@.operation_timeout,
                (old(self)@.deadline - now) as nat,
            ) && final(self)@ == (ConfirmationView {
                reads: (old(self)@.reads - 1) as nat,
                ..old(self)@
            }),
            timeout is None ==> final(self)@ == old(self)@,
    {
        if self.reads == 0 || now as u128 > self.deadline {
            return None;
        }
        self.reads = self.reads - 1;
        Some(least_of(self.operation_timeout.as_nanos(), self.deadline - now as u128))
    }

    /// The revision of the lease that was read, if it is the one that was
    /// written.
    pub fn confirms(&self, reply: StoreReply<Option<(N, Revision)>>) -> (revision: Option<
        Revision,
    >)
        ensures
            match revision {
                Some(revision) => confirmed_revision(self@.expected, reply) == Some(revision@),
                None => confirmed_revision(self@.expected, reply) is None,
            },
    {
        match reply {
            StoreReply::Ready(Some((node, revision))) => {
                if node.same(&self.expected) {
                    Some(revision)
                } else {
                    None
                }
            },
            _ => None,
        }
    }
}

/// What the renewal of a lease waits for.
pub enum RenewalPhase {
    /// The time of the next renewal.
    Waiting,
    /// The outcome of a renewal that was started at this moment.
    Renewing { started: u64 },
    /// The lease, to see whether an uncertain renewal was applied.
    Confirming { started: u64, confirmation: LeaseConfirmation<NodeRecord> },
    /// Nothing more.
    Exited,
}

/// The renewal of the Node Lease of a Server.
pub struct LeaseRenewal {
    node: NodeRecord,
    revision: Revision,
    operation_timeout: Duration,
    interval: u128,
    phase: RenewalPhase,
}

/// A phase as a mathematical value.
pub enum RenewalPhaseView {
    Waiting,
    Renewing { started: u64 },
    Confirming { started: u64, confirmation: ConfirmationView<NodeView> },
    Exited,
}

/// A renewal as a mathematical value.
pub struct RenewalView {
    pub node: NodeView,
    pub revision: Seq<char>,
    pub operation_timeout: nat,
    pub interval: nat,
    pub phase: RenewalPhaseView,
}

impl View for RenewalPhase {
    type V = RenewalPhaseView;

    open spec fn view(&self) -> RenewalPhaseView {
        match self {
            RenewalPhase::Waiting => RenewalPhaseView::Waiting,
            RenewalPhase::Renewing { started } => RenewalPhaseView::Renewing { started: *started },
            RenewalPhase::Confirming { started, confirmation } => RenewalPhaseView::Confirming {
                started: *started,
                confirmation: confirmation@,
            },
            RenewalPhase::Exited => RenewalPhaseView::Exited,
        }
    }
}

impl View for LeaseRenewal {
    type V = RenewalView;

    closed spec fn view(&self) -> RenewalView {
        RenewalView {
            node: self.node@,
            revision: self.revision@,
            operation_timeout: duration_nanos(self.operation_timeout),
            interval: self.interval as nat,
            phase: self.phase@,
        }
    }
}

/// What the host does next for a lease.
pub enum RenewalAction {
    /// Wait for the time of the next renewal.
    Wait,
    /// Write the record under the revision, within the given nanoseconds.
    Renew { node: NodeRecord, revision: Revision, timeout: u128 },
    /// Read the lease within the given nanoseconds.
    Confirm { timeout: u128 },
    /// The authority is lost: announce it if asked to, and abort the tasks of
    /// these Actors.
    Fence { announce: bool, abort: Vec<ActorAddress> },
}

/// The share of an interval that a random sample stands for, in thousandths: a
/// fifth more or less at most.
pub open spec fn jitter_share(sample: u16) -> nat {
    800 + sample as nat % 401
}

/// `rand::random` for `u16`: some number. The call panics where the operating
/// system has no entropy to give.
#[verifier::external_body]
pub(crate) fn random_sample() -> u16 {
    rand::random::<u16>()
}

/// The share of an interval that a random sample stands for, in thousandths.
pub fn share_of(sample: u16) -> (share: u16)
    ensures
        share == jitter_share(sample),
{
    800 + sample % 401
}

/// The share of an interval to wait for, in thousandths, by a sample that is drawn
/// just now.
pub fn random_share() -> (share: u16)
    ensures
        exists|sample: u16| share == #[trigger] jitter_share(sample),
{
    let sample: u16 = random_sample();
    share_of(sample)
}

/// The Server is fenced: its authority is given up, its status says so, and the
/// host learns which Actors it has to abort.
pub open spec fn fenced<R, T>(
    before: ServerInner<R, T>,
    after: ServerInner<R, T>,
    action: RenewalAction,
) -> bool {
    &&& action matches RenewalAction::Fence { announce, abort }
    &&& after == (ServerInner {
        status: Status::Fenced,
        authority: after.authority,
        ..before
    })
    &&& match before.authority_view() {
        Some(authority) => {
            &&& announce == authority.unfenced
            &&& after.authority_view() == Some(AuthorityView { unfenced: false, ..authority })
        },
        None => !announce && after.authority_view() is None,
    }
    &&& lists_all(abort@, before.routes@.routes.dom())
}

/// The lease was renewed by an operation that was started at `started`.
pub open spec fn renewed_at<R, T>(
    before: ServerInner<R, T>,
    after: ServerInner<R, T>,
    started: u64,
) -> bool {
    &&& after == (ServerInner { authority: after.authority, ..before })
    &&& match before.authority_view() {
        Some(authority) => after.authority_view() == Some(
            AuthorityView { deadline: started as nat + authority.ttl, ..authority },
        ),
        None => after.authority_view() is None,
    }
}

/// The authority of the Server stands at the given moment.
pub open spec fn authority_stands<R, T>(server: ServerInner<R, T>, now: u64) -> bool {
    server.authority_view() matches Some(authority) && authority.valid_at(now)
}

fn fence_server<R, T>(server: &mut ServerInner<R, T>) -> (action: RenewalAction)
    requires
        old(server).wf(),
    ensures
        final(server).wf(),
        fenced(*old(server), *final(server), action),
{
    let abort = server.begin_fence();
    let announce = match &mut server.authority {
        Some(authority) => authority.fence(),
        None => false,
    };
    RenewalAction::Fence { announce, abort }
}

fn renew_server<R, T>(server: &mut ServerInner<R, T>, started: u64)
    requires
        old(server).wf(),
    ensures
        final(server).wf(),
        renewed_at(*old(server), *final(server), started),
{
    match &mut server.authority {
        Some(authority) => authority.renew(started),
        None => {},
    }
}

impl LeaseRenewal {
    /// Starts to renew a lease that was acquired under `revision`.
    pub fn new(
        node: NodeRecord,
        revision: Revision,
        operation_timeout: Duration,
        interval: u128,
    ) -> (renewal: Self)
        ensures
            renewal@ == (RenewalView {
                node: node@,
                revision: revision@,
                operation_timeout: duration_nanos(operation_timeout),
                interval: interval as nat,
                phase: RenewalPhaseView::Waiting,
            }),
    {
        LeaseRenewal { node, revision, operation_timeout, interval, phase: RenewalPhase::Waiting }
    }

    /// The nanoseconds between two renewals, before any jitter.
    pub fn interval(&self) -> (interval: u128)
        ensures
            interval == self@.interval,
    {
        self.interval
    }

    /// The moment to wake up at: once the host has waited for its share of the
    /// interval, or at the deadline of the authority if that comes first.
    pub fn wake_at(&self, deadline: u128, now: u64, wait: Duration) -> (at: u128)
        ensures
            at == least(now as nat + duration_nanos(wait), deadline as nat),
    {
        let nanos: u128 = wait.as_nanos();
        least_of(now as u128 + nanos, deadline)
    }

    /// A shutdown was requested while the renewal waits. The lease is released
    /// under the revision that is handed out.
    pub fn stop(&mut self) -> (release: (String, Revision))
        requires
            old(self)@.phase is Waiting,
        ensures
            final(self)@ == (RenewalView { phase: RenewalPhaseView::Exited, ..old(self)@ }),
            release.0@ == old(self)@.node.node_id,
            release.1@ == old(self)@.revision,
    {
        self.phase = RenewalPhase::Exited;
        (self.node.node_id.clone(), self.revision.duplicate())
    }

    /// The time of a renewal has come. Without authority the Server is fenced;
    /// with it, the lease is written anew with the present load, within what is
    /// left of the authority.
    pub fn woken<R, T>(
        &mut self,
        server: &mut ServerInner<R, T>,
        now: u64,
        wall_time_millis: u64,
    ) -> (action: RenewalAction)
        requires
            old(server).wf(),
            old(self)@.phase is Waiting,
        ensures
            final(server).wf(),
            if authority_stands(*old(server), now) {
                &&& *final(server) == *old(server)
                &&& action matches RenewalAction::Renew { node, revision, timeout }
                &&& node@ == sampled(*old(server), old(self)@.node, wall_time_millis)
                &&& revision@ == old(self)@.revision
                &&& timeout == least(
                    old(self)@.operation_timeout,
                    (old(server).authority_view()->0.deadline - now) as nat,
                )
                &&& final(self)@ == (RenewalView {
                    node: node@,
                    phase: RenewalPhaseView::Renewing { started: now },
                    ..old(self)@
                })
            } else {
                &&& fenced(*old(server), *final(server), action)
                &&& final(self)@ == (RenewalView { phase: RenewalPhaseView::Exited, ..old(self)@ })
            },
    {
        let remaining: u128 = match &server.authority {
            Some(authority) if authority.is_valid(now) => match authority.remaining(now) {
                Some(remaining) => remaining,
                None => 0,
            },
            _ => {
                self.phase = RenewalPhase::Exited;
                return fence_server(server);
            },
        };
        self.node.lease_generation = self.node.lease_generation.saturating_add(1);
        server.update_capacity_sample(&mut self.node, wall_time_millis);
        self.phase = RenewalPhase::Renewing { started: now };
        RenewalAction::Renew {
            node: self.node.duplicate(),
            revision: self.revision.duplicate(),
            timeout: least_of(self.operation_timeout.as_nanos(), remaining),
        }
    }

    /// The store has answered a renewal. An applied one moves the deadline to the
    /// time to live after its start. A conflict means that the lease is lost; an
    /// uncertain one is looked up; a failure is borne as long as the authority
    /// stands.
    pub fn renewed<R, T>(
        &mut self,
        server: &mut ServerInner<R, T>,
        reply: StoreReply<MutationOutcome<Revision>>,
        now: u64,
    ) -> (action: RenewalAction)
        requires
            old(server).wf(),
            old(self)@.phase is Renewing,
        ensures
            final(server).wf(),
            ({
                let started = old(self)@.phase->Renewing_started;
                match reply {
                    StoreReply::Ready(MutationOutcome::Applied(revision)) => {
                        &&& action is Wait
                        &&& renewed_at(*old(server), *final(server), started)
                        &&& final(self)@ == (RenewalView {
                            revision: revision@,
                            phase: RenewalPhaseView::Waiting,
                            ..old(self)@
                        })
                    },
                    StoreReply::Ready(MutationOutcome::Indeterminate(_)) => confirmation_step(
                        *old(server),
                        *final(server),
                        old(self)@,
                        final(self)@,
                        started,
                        ConfirmationView {
                            expected: old(self)@.node,
                            deadline: deadline_of(*old(server)),
                            operation_timeout: old(self)@.operation_timeout,
                            reads: LEASE_CONFIRMATION_READS as nat,
                        },
                        now,
                        action,
                    ),
                    StoreReply::Ready(MutationOutcome::Conflict) => {
                        &&& fenced(*old(server), *final(server), action)
                        &&& final(self)@ == (RenewalView {
                            phase: RenewalPhaseView::Exited,
                            ..old(self)@
                        })
                    },
                    _ => if authority_stands(*old(server), now) {
                        &&& action is Wait
                        &&& *final(server) == *old(server)
                        &&& final(self)@ == (RenewalView {
                            phase: RenewalPhaseView::Waiting,
                            ..old(self)@
                        })
                    } else {
                        &&& fenced(*old(server), *final(server), action)
                        &&& final(self)@ == (RenewalView {
                            phase: RenewalPhaseView::Exited,
                            ..old(self)@
                        })
                    },
                }
            }),
    {
        let started: u64 = match &self.phase {
            RenewalPhase::Renewing { started } => *started,
            _ => 0,
        };
        match reply {
            StoreReply::Ready(MutationOutcome::Applied(revision)) => {
                self.revision = revision;
                renew_server(server, started);
                self.phase = RenewalPhase::Waiting;
                RenewalAction::Wait
            },
            StoreReply::Ready(MutationOutcome::Indeterminate(_)) => {
                let deadline: u128 = match &server.authority {
                    Some(authority) => authority.deadline(),
                    None => 0,
                };
                let confirmation = LeaseConfirmation::new(
                    self.node.duplicate(),
                    deadline,
                    self.operation_timeout,
                );
                self.look_up(server, started, confirmation, now)
            },
            StoreReply::Ready(MutationOutcome::Conflict) => {
                self.phase = RenewalPhase::Exited;
                fence_server(server)
            },
            _ => {
                let stands = match &server.authority {
                    Some(authority) => authority.is_valid(now),
                    None => false,
                };
                if stands {
                    self.phase = RenewalPhase::Waiting;
                    RenewalAction::Wait
                } else {
                    self.phase = RenewalPhase::Exited;
                    fence_server(server)
                }
            },
        }
    }

    fn look_up<R, T>(
        &mut self,
        server: &mut ServerInner<R, T>,
        started: u64,
        confirmation: LeaseConfirmation<NodeRecord>,
        now: u64,
    ) -> (action: RenewalAction)
        requires
            old(server).wf(),
        ensures
            final(server).wf(),
            confirmation_step(
                *old(server),
                *final(server),
                old(self)@,
                final(self)@,
                started,
                confirmation@,
                now,
                action,
            ),
    {
        let mut confirmation = confirmation;
        match confirmation.next_read(now) {
            Some(timeout) => {
                self.phase = RenewalPhase::Confirming { started, confirmation };
                RenewalAction::Confirm { timeout }
            },
            None => {
                self.phase = RenewalPhase::Exited;
                fence_server(server)
            },
        }
    }

    /// The store has answered the look-up of an uncertain renewal. The lease is
    /// renewed if the very record that was written was read; otherwise it is
    /// looked up again until no read or no time is left, and then the Server is
    /// fenced.
    pub fn confirmed<R, T>(
        &mut self,
        server: &mut ServerInner<R, T>,
        reply: StoreReply<Option<(NodeRecord, Revision)>>,
        now: u64,
    ) -> (action: RenewalAction)
        requires
            old(server).wf(),
            old(self)@.phase is Confirming,
        ensures
            final(server).wf(),
            ({
                let started = old(self)@.phase->Confirming_started;
                let confirmation = old(self)@.phase->confirmation;
                match confirmed_revision(confirmation.expected, reply) {
                    Some(revision) => {
                        &&& action is Wait
                        &&& renewed_at(*old(server), *final(server), started)
                        &&& final(self)@ == (RenewalView {
                            revision,
                            phase: RenewalPhaseView::Waiting,
                            ..old(self)@
                        })
                    },
                    None => confirmation_step(
                        *old(server),
                        *final(server),
                        old(self)@,
                        final(self)@,
                        started,
                        confirmation,
                        now,
                        action,
                    ),
                }
            }),
    {
        let mut phase = RenewalPhase::Exited;
        std::mem::swap(&mut phase, &mut self.phase);
        match phase {
            RenewalPhase::Confirming { started, confirmation } => match confirmation.confirms(
                reply,
            ) {
                Some(revision) => {
                    self.revision = revision;
                    renew_server(server, started);
                    self.phase = RenewalPhase::Waiting;
                    RenewalAction::Wait
                },
                None => self.look_up(server, started, confirmation, now),
            },
            _ => fence_server(server),
        }
    }
}

/// The deadline of the authority of a Server.
pub open spec fn deadline_of<R, T>(server: ServerInner<R, T>) -> nat {
    match server.authority_view() {
        Some(authority) => authority.deadline,
        None => 0,
    }
}

/// The record of a Server with its present load, one lease generation on.
pub open spec fn sampled<R, T>(
    server: ServerInner<R, T>,
    node: NodeView,
    wall_time_millis: u64,
) -> NodeView {
    NodeView {
        lease_generation: if node.lease_generation == u64::MAX {
            u64::MAX
        } else {
            (node.lease_generation + 1) as u64
        },
        sampled_at_unix_ms: wall_time_millis,
        active_actor_count: (server.routes@.maximum - server.routes@.available()) as usize,
        max_actor_count: server.routes@.maximum as usize,
        pressured: server.routes@.available() == 0,
        draining: server.status != Status::Running,
        ..node
    }
}

/// An uncertain renewal is looked up once more if a read and time are left;
/// otherwise the Server is fenced.
pub open spec fn confirmation_step<R, T>(
    before: ServerInner<R, T>,
    after: ServerInner<R, T>,
    state: RenewalView,
    next: RenewalView,
    started: u64,
    confirmation: ConfirmationView<NodeView>,
    now: u64,
    action: RenewalAction,
) -> bool {
    if confirmation.reads > 0 && now <= confirmation.deadline {
        &&& action matches RenewalAction::Confirm { timeout }
        &&& timeout == least(
            confirmation.operation_timeout,
            (confirmation.deadline - now) as nat,
        )
        &&& after == before
        &&& next == (RenewalView {
            phase: RenewalPhaseView::Confirming {
                started,
                confirmation: ConfirmationView {
                    reads: (confirmation.reads - 1) as nat,
                    ..confirmation
                },
            },
            ..state
        })
    } else {
        &&& fenced(before, after, action)
        &&& next == (RenewalView { phase: RenewalPhaseView::Exited, ..state })
    }
}

/// The authority of a Server that renewed its lease ends no later than the lease:
/// the lease is written after its operation was started, and lives from then on
/// for the time that the authority counts from the start.
pub proof fn law_authority_ends_before_the_lease<R, T>(
    before: ServerInner<R, T>,
    after: ServerInner<R, T>,
    started: u64,
    written: u64,
    now: u64,
)
    requires
        renewed_at(before, after, started),
        started <= written,
        authority_stands(after, now),
    ensures
        before.authority_view() matches Some(authority) && now < written + authority.ttl,
{
}

/// A fenced Server admits no message, at any time.
pub proof fn law_fenced_servers_admit_nothing<R, T>(
    before: ServerInner<R, T>,
    after: ServerInner<R, T>,
    action: RenewalAction,
    now: u64,
)
    requires
        fenced(before, after, action),
    ensures
        crate::runtime::server::closed_to_messages(after.status, after.authority_view(), now)
            == Some(crate::error::SendError::NodeFenced),
{
}

/// A share is four fifths of an interval at least and six fifths at most, and every
/// share in between is drawn for some sample.
pub proof fn law_jitter_is_bounded(sample: u16, share: u16)
    requires
        800 <= share <= 1200,
    ensures
        800 <= jitter_share(sample) <= 1200,
        exists|other: u16| #[trigger] jitter_share(other) == share,
{
    assert(jitter_share((share - 800) as u16) == share);
}

/// The record of a renewal carries the present load: as many Actors as have a route or
/// a reservation, the limit on them, whether a permit is free, and whether the Server
/// still runs. It is the record of the same life at the same endpoint, one generation
/// on. A Server without a free permit, or one that does not run, is no candidate for
/// placement; one with a free permit that runs is.
pub proof fn law_renewals_carry_the_present_load<R, T>(
    server: ServerInner<R, T>,
    node: NodeView,
    wall_time_millis: u64,
)
    requires
        server.routes@.bounded(),
        server.routes@.maximum <= usize::MAX,
    ensures
        ({
            let record = sampled(server, node, wall_time_millis);
            let held = server.routes@.routes.dom().len() + server.routes@.reserved;
            &&& record.active_actor_count == held
            &&& record.max_actor_count == server.routes@.maximum
            &&& record.pressured <==> held == server.routes@.maximum
            &&& record.draining <==> server.status != Status::Running
            &&& record.sampled_at_unix_ms == wall_time_millis
            &&& record.node_id == node.node_id && record.session_id == node.session_id
            &&& record.advertised_endpoint == node.advertised_endpoint
            &&& record.protocol_version == node.protocol_version
            &&& node.lease_generation < u64::MAX ==> record.lease_generation
                == node.lease_generation + 1
            &&& node.lease_generation == u64::MAX ==> record.lease_generation == u64::MAX
            &&& crate::client::placing::eligible(record) ==> held < server.routes@.maximum
                && server.status == Status::Running
            &&& held < server.routes@.maximum && server.status == Status::Running
                && node.protocol_version == crate::transport_protocol::TRANSPORT_PROTOCOL_VERSION
                && !crate::text::blank(node.advertised_endpoint)
                ==> crate::client::placing::eligible(record)
        }),
{
}

/// A renewal that was applied lets the Server run until the time to live has passed
/// since the operation was started, neither longer nor shorter; nothing else of the
/// Server changes.
pub proof fn law_renewals_extend_authority<R, T>(
    before: ServerInner<R, T>,
    after: ServerInner<R, T>,
    started: u64,
    now: u64,
)
    requires
        renewed_at(before, after, started),
        before.authority_view() is Some,
    ensures
        authority_stands(after, now) <==> before.authority_view()->0.unfenced && now < started
            + before.authority_view()->0.ttl,
        after.status == before.status,
        after.routes == before.routes,
        after.sessions == before.sessions,
{
}

/// A Server that is fenced has no authority at any moment, says so by its status, and
/// aborts every Actor that has a route. The host announces it only the first time.
pub proof fn law_fencing_stops_everything<R, T>(
    before: ServerInner<R, T>,
    after: ServerInner<R, T>,
    action: RenewalAction,
    now: u64,
    address: crate::actor::AddressView,
)
    requires
        fenced(before, after, action),
    ensures
        !authority_stands(after, now),
        after.status == Status::Fenced,
        after.routes == before.routes && after.sessions == before.sessions,
        action matches RenewalAction::Fence { announce, abort } && {
            &&& announce <==> before.authority_view() is Some
                && before.authority_view()->0.unfenced
            &&& before.routes@.routes.dom().contains(address) <==> exists|i: int|
                0 <= i < abort@.len() && (#[trigger] abort@[i])@ == address
        },
{
    match action {
        RenewalAction::Fence { announce, abort } => {
            let views = abort@.map_values(|a: ActorAddress| a@);
            if before.routes@.routes.dom().contains(address) {
                assert(views.to_set().contains(address));
                let i = choose|i: int| 0 <= i < views.len() && views[i] == address;
                assert(abort@[i]@ == address);
            }
            if exists|i: int| 0 <= i < abort@.len() && (#[trigger] abort@[i])@ == address {
                let i = choose|i: int| 0 <= i < abort@.len() && (#[trigger] abort@[i])@ == address;
                assert(views[i] == address);
                assert(views.to_set().contains(address));
            }
        },
        _ => {},
    }
}

/// The smaller of two numbers is one of them and not above either.
pub proof fn law_least(a: nat, b: nat)
    ensures
        least(a, b) <= a,
        least(a, b) <= b,
        least(a, b) == a || least(a, b) == b,
{
}

/// An uncertain write is confirmed exactly by the very record that was written, and
/// then under the revision that was read with it. Any other answer confirms nothing.
pub proof fn law_only_the_written_record_confirms<N: Key>(
    expected: N::V,
    node: N,
    revision: Revision,
    reply: StoreReply<Option<(N, Revision)>>,
)
    ensures
        node@ == expected ==> confirmed_revision(
            expected,
            StoreReply::Ready(Some((node, revision))),
        ) == Some(revision@),
        node@ != expected ==> confirmed_revision(
            expected,
            StoreReply::Ready(Some((node, revision))),
        ) is None,
        confirmed_revision(expected, reply) is Some ==> (reply matches StoreReply::Ready(
            Some((read, _)),
        ) && read@ == expected),
{
}

/// A look-up of an uncertain renewal goes on while a read is left and the deadline has
/// not passed, and uses one read up; each read ends by the deadline and within the time
/// for an operation. Otherwise the Server is fenced.
pub proof fn law_uncertain_renewals_are_looked_up<R, T>(
    before: ServerInner<R, T>,
    after: ServerInner<R, T>,
    state: RenewalView,
    next: RenewalView,
    started: u64,
    confirmation: ConfirmationView<NodeView>,
    now: u64,
    action: RenewalAction,
)
    requires
        confirmation_step(before, after, state, next, started, confirmation, now, action),
    ensures
        action is Confirm || action is Fence,
        action is Confirm <==> confirmation.reads > 0 && now <= confirmation.deadline,
        action matches RenewalAction::Confirm { timeout } ==> {
            &&& now + timeout <= confirmation.deadline
            &&& timeout <= confirmation.operation_timeout
            &&& now + timeout == confirmation.deadline || timeout == confirmation.operation_timeout
            &&& after == before
            &&& next.phase matches RenewalPhaseView::Confirming {
                started: kept,
                confirmation: left,
            } && kept == started && left.reads + 1 == confirmation.reads && left.expected
                == confirmation.expected && left.deadline == confirmation.deadline
                && left.operation_timeout == confirmation.operation_timeout
            &&& next.node == state.node && next.revision == state.revision
        },
        action is Fence ==> after.status == Status::Fenced && next.phase is Exited,
{
}

/// The deadline of a Server is that of its authority.
pub proof fn law_deadlines_are_those_of_the_authority<R, T>(server: ServerInner<R, T>)
    ensures
        server.authority matches Some(authority) ==> deadline_of(server) == authority@.deadline,
        server.authority is None ==> deadline_of(server) == 0,
{
}

} // verus!
