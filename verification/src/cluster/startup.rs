//! Starting a Server in a cluster, and watching over it.

use vstd::prelude::*;
use vstd::string::*;

use crate::cluster::authority::{
    MutationOutcome, NodeRecord, NodeSessionId, NodeView, Revision, StoreReply,
};
use crate::cluster::lease::{
    confirmed_revision, least, ConfirmationView, LeaseConfirmation, LeaseRenewal, RenewalPhaseView,
    RenewalView, LEASE_CONFIRMATION_READS,
};
use crate::cluster::node::{AuthorityView, NodeAuthority};
use crate::cluster::routing::ClusterRouter;
use crate::error::ServerError;
use crate::keyed::Key;
use crate::runtime::builder::{reports, ServerStarter};
use crate::runtime::server::ServerInner;
use crate::time::duration_nanos;
use crate::transport_protocol::PEER_PROTOCOL_VERSION;

verus! {

/// The record by which a Server announces itself.
pub open spec fn first_record(
    node_id: Seq<char>,
    session_id: Seq<char>,
    endpoint: Seq<char>,
    limit: usize,
    wall_time_millis: u64,
) -> NodeView {
    NodeView {
        node_id,
        session_id,
        advertised_endpoint: endpoint,
        protocol_version: PEER_PROTOCOL_VERSION,
        lease_generation: 0,
        sampled_at_unix_ms: wall_time_millis,
        active_actor_count: 0,
        max_actor_count: limit,
        pressured: false,
        draining: false,
    }
}

/// What the start of a Server asks of the host first.
pub enum StartAction {
    /// Bind the listener to this address.
    Bind { address: String },
    /// Acquire the lease.
    Acquire,
}

/// A Server whose lease is being acquired.
pub struct Startup<C, S> {
    starter: ServerStarter<C, S>,
    node: NodeRecord,
    started: u64,
    confirmation: Option<LeaseConfirmation<NodeRecord>>,
}

/// What the start of a Server does after the store has answered.
pub enum AcquireStep {
    /// The lease is held under this revision.
    Held { revision: Revision },
    /// Read the lease within the given nanoseconds.
    Confirm { timeout: u128 },
    /// The Server does not start.
    Failed { error: ServerError },
}

/// Checks the configuration of a Server and says what its start begins with.
pub fn begin_start<C, S>(starter: &ServerStarter<C, S>) -> (action: Result<StartAction, ServerError>)
    ensures
        action is Ok <==> starter.builder.fault() is None,
        action matches Err(error) ==> reports(error, starter.builder.fault()->0),
        action matches Ok(StartAction::Bind { address }) ==> starter.config.bind_address matches Some(
            bind,
        ) && bind@ == address@,
        action matches Ok(StartAction::Acquire) ==> starter.config.bind_address is None,
{
    match starter.builder.validate() {
        Ok(()) => {},
        Err(error) => return Err(error),
    }
    match &starter.config.bind_address {
        Some(address) => Ok(StartAction::Bind { address: address.clone() }),
        None => Ok(StartAction::Acquire),
    }
}

/// What the start of a Server makes of the listener `L` of the host, or of the
/// error that kept the host from binding it.
pub fn bound<L>(listener: Result<L, std::io::Error>) -> (result: Result<L, ServerError>)
    ensures
        result == match listener {
            Ok(listener) => Ok(listener),
            Err(error) => Err(ServerError::BindFailed(error)),
        },
{
    match listener {
        Ok(listener) => Ok(listener),
        Err(error) => Err(ServerError::BindFailed(error)),
    }
}

impl<C, S> Startup<C, S> {
    /// The record under which the lease is acquired.
    pub closed spec fn node(&self) -> NodeView {
        self.node@
    }

    /// What the Server is started from.
    pub closed spec fn starter(&self) -> ServerStarter<C, S> {
        self.starter
    }

    /// The moment at which the acquisition was started.
    pub closed spec fn started(&self) -> u64 {
        self.started
    }

    /// The look-up of the lease, while it is uncertain.
    pub closed spec fn looking_up(&self) -> Option<ConfirmationView<NodeView>> {
        match self.confirmation {
            Some(confirmation) => Some(confirmation@),
            None => None,
        }
    }

    /// Starts to acquire the lease, under a new identity for this life of the
    /// Server. The answer is the record to acquire it with and the nanoseconds
    /// that the operation may take.
    pub fn acquire(starter: ServerStarter<C, S>, now: u64, wall_time_millis: u64) -> (start: (
        Self,
        NodeRecord,
        u128,
    ))
        ensures
            start.0.starter() == starter,
            start.0.started() == now,
            start.0.looking_up() is None,
            start.0.node() == start.1@,
            crate::cluster::authority::uuid_text(start.1@.session_id),
            start.1@ == first_record(
                starter.config.node_id@,
                start.1@.session_id,
                starter.config.advertised_endpoint@,
                starter.builder.max_active_actors,
                wall_time_millis,
            ),
            start.2 == least(
                duration_nanos(starter.config.coordination_timeout),
                duration_nanos(starter.config.node_lease_ttl),
            ),
    {
        let node = NodeRecord {
            node_id: starter.config.node_id.clone(),
            session_id: NodeSessionId::generate(),
            advertised_endpoint: starter.config.advertised_endpoint.clone(),
            protocol_version: PEER_PROTOCOL_VERSION,
            lease_generation: 0,
            sampled_at_unix_ms: wall_time_millis,
            active_actor_count: 0,
            max_actor_count: starter.builder.active_actor_limit(),
            pressured: false,
            draining: false,
        };
        let operation: u128 = starter.config.coordination_timeout.as_nanos();
        let ttl: u128 = starter.config.node_lease_ttl.as_nanos();
        let timeout: u128 = if operation <= ttl {
            operation
        } else {
            ttl
        };
        let copy = node.duplicate();
        (Startup { starter, node, started: now, confirmation: None }, copy, timeout)
    }

    /// The store has answered the acquisition.
    pub fn acquired(
        &mut self,
        reply: StoreReply<MutationOutcome<Revision>>,
        now: u64,
    ) -> (step: AcquireStep)
        ensures
            final(self).starter() == old(self).starter(),
            final(self).node() == old(self).node(),
            final(self).started() == old(self).started(),
            (reply is Ready && reply->Ready_0 is Indeterminate) || final(self).looking_up() == old(
                self,
            ).looking_up(),
            match reply {
                StoreReply::TimedOut => step == (AcquireStep::Failed {
                    error: ServerError::LeaseUnconfirmed,
                }),
                StoreReply::Failed(error) => step == (AcquireStep::Failed {
                    error: ServerError::Coordination(error),
                }),
                StoreReply::Ready(MutationOutcome::Applied(revision)) => step
                    == (AcquireStep::Held { revision }),
                StoreReply::Ready(MutationOutcome::Conflict) => step == (AcquireStep::Failed {
                    error: ServerError::LeaseConflict,
                }),
                StoreReply::Ready(MutationOutcome::Indeterminate(_)) => lookup_step(
                    ConfirmationView {
                        expected: old(self).node(),
                        deadline: old(self).started() as nat + duration_nanos(
                            old(self).starter().config.node_lease_ttl,
                        ),
                        operation_timeout: duration_nanos(
                            old(self).starter().config.coordination_timeout,
                        ),
                        reads: LEASE_CONFIRMATION_READS as nat,
                    },
                    now,
                    final(self).looking_up(),
                    step,
                ),
            },
    {
        match reply {
            StoreReply::TimedOut => AcquireStep::Failed { error: ServerError::LeaseUnconfirmed },
            StoreReply::Failed(error) => AcquireStep::Failed {
                error: ServerError::Coordination(error),
            },
            StoreReply::Ready(MutationOutcome::Applied(revision)) => AcquireStep::Held { revision },
            StoreReply::Ready(MutationOutcome::Conflict) => AcquireStep::Failed {
                error: ServerError::LeaseConflict,
            },
            StoreReply::Ready(MutationOutcome::Indeterminate(_)) => {
                let ttl: u128 = self.starter.config.node_lease_ttl.as_nanos();
                let confirmation = LeaseConfirmation::new(
                    self.node.duplicate(),
                    self.started as u128 + ttl,
                    self.starter.config.coordination_timeout,
                );
                self.look_up(confirmation, now)
            },
        }
    }

    fn look_up(&mut self, confirmation: LeaseConfirmation<NodeRecord>, now: u64) -> (step: AcquireStep)
        ensures
            final(self).starter() == old(self).starter(),
            final(self).node() == old(self).node(),
            final(self).started() == old(self).started(),
            lookup_step(confirmation@, now, final(self).looking_up(), step),
    {
        let mut confirmation = confirmation;
        match confirmation.next_read(now) {
            Some(timeout) => {
                self.confirmation = Some(confirmation);
                AcquireStep::Confirm { timeout }
            },
            None => {
                self.confirmation = None;
                AcquireStep::Failed { error: ServerError::LeaseUnconfirmed }
            },
        }
    }

    /// The store has answered the look-up of an uncertain acquisition.
    pub fn confirmed(
        &mut self,
        reply: StoreReply<Option<(NodeRecord, Revision)>>,
        now: u64,
    ) -> (step: AcquireStep)
        requires
            old(self).looking_up() is Some,
        ensures
            final(self).starter() == old(self).starter(),
            final(self).node() == old(self).node(),
            final(self).started() == old(self).started(),
            match confirmed_revision(old(self).looking_up()->0.expected, reply) {
                Some(revision) => {
                    &&& step matches AcquireStep::Held { revision: held } && held@ == revision
                    &&& final(self).looking_up() is None
                },
                None => lookup_step(
                    old(self).looking_up()->0,
                    now,
                    final(self).looking_up(),
                    step,
                ),
            },
    {
        match self.confirmation.take() {
            Some(confirmation) => match confirmation.confirms(reply) {
                Some(revision) => AcquireStep::Held { revision },
                None => self.look_up(confirmation, now),
            },
            None => AcquireStep::Failed { error: ServerError::LeaseUnconfirmed },
        }
    }

    /// Ends the start of a Server that holds its lease under `revision`: the
    /// Server, its App State, the renewal of its lease and its router. An
    /// authority that has run out meanwhile is no start.
    pub fn finish<R, T>(self, revision: Revision, now: u64) -> (started: Result<
        StartedServer<R, T, C, S>,
        ServerError,
    >)
        requires
            self.starter().builder.fault() is None ==> self.starter().builder.state is Some
                && self.starter().builder.limits_fit(),
        ensures
            ({
                let ttl = duration_nanos(self.starter().config.node_lease_ttl);
                let authority = AuthorityView {
                    unfenced: true,
                    deadline: self.started() as nat + ttl,
                    ttl,
                };
                match started {
                    Ok(server) => {
                        &&& authority.valid_at(now)
                        &&& self.starter().builder.fault() is None
                        &&& server.inner.wf()
                        &&& server.inner.authority_view() == Some(authority)
                        &&& server.inner.clustered
                        &&& self.starter().builder.describes(server.inner)
                        &&& server.state == self.starter().builder.state->0
                        &&& server.store == self.starter().store
                        &&& server.router@ == (crate::cluster::authority::OwnerView {
                            node_id: self.starter().config.node_id@,
                            session_id: self.node().session_id,
                        })
                        &&& server.renewal@ == (RenewalView {
                            node: self.node(),
                            revision: revision@,
                            operation_timeout: duration_nanos(
                                self.starter().config.coordination_timeout,
                            ),
                            interval: ttl / 3,
                            phase: RenewalPhaseView::Waiting,
                        })
                    },
                    Err(error) => if !authority.valid_at(now) {
                        error == ServerError::LeaseUnconfirmed
                    } else {
                        self.starter().builder.fault() matches Some(fault) && reports(error, fault)
                    },
                }
            }),
    {
        let config = self.starter.config;
        let authority = NodeAuthority::new(self.started, config.node_lease_ttl);
        if !authority.is_valid(now) {
            return Err(ServerError::LeaseUnconfirmed);
        }
        let interval: u128 = config.renewal_interval();
        let session_id = self.node.session_id.duplicate();
        let (inner, state) = match self.starter.builder.build_with_authority::<R, T>(
            Some(authority),
            true,
        ) {
            Ok(built) => built,
            Err(error) => return Err(error),
        };
        Ok(
            StartedServer {
                inner,
                state,
                store: self.starter.store,
                router: ClusterRouter::new(config.node_id, session_id),
                renewal: LeaseRenewal::new(
                    self.node,
                    revision,
                    config.coordination_timeout,
                    interval,
                ),
            },
        )
    }
}

/// A Server that has been started in a cluster.
#[verifier::reject_recursive_types(R)]
pub struct StartedServer<R, T, C, S> {
    pub inner: ServerInner<R, T>,
    pub state: S,
    pub store: C,
    pub router: ClusterRouter,
    pub renewal: LeaseRenewal,
}

/// An uncertain acquisition is looked up once more if a read and time are left;
/// otherwise the Server does not start.
pub open spec fn lookup_step(
    confirmation: ConfirmationView<NodeView>,
    now: u64,
    next: Option<ConfirmationView<NodeView>>,
    step: AcquireStep,
) -> bool {
    if confirmation.reads > 0 && now <= confirmation.deadline {
        &&& step matches AcquireStep::Confirm { timeout }
        &&& timeout == least(
            confirmation.operation_timeout,
            (confirmation.deadline - now) as nat,
        )
        &&& next == Some(
            ConfirmationView { reads: (confirmation.reads - 1) as nat, ..confirmation },
        )
    } else {
        &&& step == (AcquireStep::Failed { error: ServerError::LeaseUnconfirmed })
        &&& next is None
    }
}

/// What the host saw happen to a Server that it watches over. `alive` tells
/// whether the one who reports is still there.
pub enum Supervision {
    /// The report on fencing changed.
    FencedChanged { alive: bool },
    /// The report on the transport changed.
    TransportChanged { alive: bool, stopped: bool },
    /// The report on the renewal changed.
    RenewalChanged,
}

/// Whether a Server is already known to have ended, and how.
pub open spec fn ended(fenced: bool, transport_stopped: bool) -> Option<ServerError> {
    if fenced {
        Some(ServerError::Fenced)
    } else if transport_stopped {
        Some(ServerError::ServiceStopped)
    } else {
        None
    }
}

/// Whether what was reported last ends a Server, and how.
pub fn check_ended(fenced: bool, transport_stopped: bool) -> (error: Option<ServerError>)
    ensures
        error == ended(fenced, transport_stopped),
{
    if fenced {
        Some(ServerError::Fenced)
    } else if transport_stopped {
        Some(ServerError::ServiceStopped)
    } else {
        None
    }
}

/// Whether a change ends a Server, and how: the end of its transport or of its
/// renewal does, and so does the loss of the one who reports on fencing.
pub fn supervise(event: Supervision) -> (error: Option<ServerError>)
    ensures
        error == match event {
            Supervision::FencedChanged { alive } => if alive {
                None
            } else {
                Some(ServerError::ServiceStopped)
            },
            Supervision::TransportChanged { alive, stopped } => if alive && !stopped {
                None
            } else {
                Some(ServerError::ServiceStopped)
            },
            Supervision::RenewalChanged => Some(ServerError::ServiceStopped),
        },
{
    match event {
        Supervision::FencedChanged { alive } => if alive {
            None
        } else {
            Some(ServerError::ServiceStopped)
        },
        Supervision::TransportChanged { alive, stopped } => if alive && !stopped {
            None
        } else {
            Some(ServerError::ServiceStopped)
        },
        Supervision::RenewalChanged => Some(ServerError::ServiceStopped),
    }
}

/// How serving ended: the first error, of serving or of the shutdown after it.
pub fn serve_result(
    served: Result<(), ServerError>,
    shutdown: Result<(), ServerError>,
) -> (result: Result<(), ServerError>)
    ensures
        result == if served is Err {
            served
        } else {
            shutdown
        },
{
    match served {
        Ok(()) => shutdown,
        Err(error) => Err(error),
    }
}

/// The record that a start acquires its lease with names the Server by its configured
/// node ID and its life, and is reached at the configured endpoint in our version. It
/// reports no Actors and the configured limit. So a Client finds the Owner of that life
/// live at exactly that endpoint, and with a limit above zero the Server is a candidate
/// for placement.
pub proof fn law_a_started_server_is_found(
    node_id: Seq<char>,
    session_id: Seq<char>,
    endpoint: Seq<char>,
    limit: usize,
    wall_time_millis: u64,
    record: NodeRecord,
    owner: crate::cluster::authority::OwnerView,
)
    requires
        record@ == first_record(node_id, session_id, endpoint, limit, wall_time_millis),
        owner.session_id == session_id,
        !crate::text::blank(endpoint),
    ensures
        record@.node_id == node_id,
        record@.session_id == session_id,
        record@.advertised_endpoint == endpoint,
        record@.protocol_version == PEER_PROTOCOL_VERSION,
        record@.active_actor_count == 0 && record@.max_actor_count == limit,
        !record@.pressured && !record@.draining,
        record@.lease_generation == 0 && record@.sampled_at_unix_ms == wall_time_millis,
        crate::client::open::owner_of_node(owner, StoreReply::Ready(Some(record))) == Ok::<
            crate::client::open::ResolutionView,
            crate::error::SendError,
        >(crate::client::open::ResolutionView::Live { endpoint, owner }),
        limit > 0 ==> crate::client::placing::eligible(record@) && crate::client::placing::candidate_of(
            record@,
        ).endpoint == endpoint,
        limit == 0 ==> !crate::client::placing::eligible(record@),
{
}

/// A look-up of an uncertain acquisition goes on while a read is left and the deadline
/// has not passed; each read ends by the deadline. Otherwise the Server does not start.
pub proof fn law_uncertain_acquisitions_are_looked_up(
    confirmation: ConfirmationView<NodeView>,
    now: u64,
    next: Option<ConfirmationView<NodeView>>,
    step: AcquireStep,
)
    requires
        lookup_step(confirmation, now, next, step),
    ensures
        step is Confirm || step == (AcquireStep::Failed { error: ServerError::LeaseUnconfirmed }),
        step is Confirm <==> confirmation.reads > 0 && now <= confirmation.deadline,
        step matches AcquireStep::Confirm { timeout } ==> {
            &&& now + timeout <= confirmation.deadline
            &&& timeout <= confirmation.operation_timeout
            &&& now + timeout == confirmation.deadline || timeout == confirmation.operation_timeout
            &&& next is Some && next->0.reads + 1 == confirmation.reads
            &&& next->0.expected == confirmation.expected && next->0.deadline
                == confirmation.deadline
        },
        !(step is Confirm) ==> next is None,
{
}

/// A Server goes on exactly while it is neither fenced nor without its transport; that
/// it was fenced is the reason that is told first.
pub proof fn law_servers_end_for_a_reason(fenced: bool, transport_stopped: bool)
    ensures
        ended(fenced, transport_stopped) is None <==> !fenced && !transport_stopped,
        fenced ==> ended(fenced, transport_stopped) == Some(ServerError::Fenced),
        !fenced && transport_stopped ==> ended(fenced, transport_stopped) == Some(
            ServerError::ServiceStopped,
        ),
{
}

} // verus!
