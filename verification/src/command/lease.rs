//! Leases of command runtimes, and the start of a runtime that holds one.

use std::time::Duration;

use vstd::prelude::*;
use vstd::string::*;

use crate::cluster::authority::{uuid_text, ActorOwnerRecord, NodeSessionId, RecordView};
use crate::cluster::endpoint::SocketText;
use crate::cluster::lease::{least, ConfirmationView, LeaseConfirmation, LEASE_CONFIRMATION_READS};
use crate::cluster::node::{AuthorityView, NodeAuthority};
use crate::command::api::BuildError;
use crate::keyed::Key;
use crate::text::{blank, is_blank};
use crate::time::{after, duration_nanos, is_zero, moment_after};
use crate::transport_protocol::PEER_PROTOCOL_VERSION;

verus! {

/// The times that govern a lease.
#[derive(Clone, Copy, Debug, PartialEq, Eq)]
pub struct LeaseTiming {
    pub ttl: Duration,
    pub renewal_interval: Duration,
    pub operation_timeout: Duration,
    pub peer_connect_timeout: Duration,
}

impl Default for LeaseTiming {
    fn default() -> (timing: Self)
        ensures
            default_timing(timing),
            valid_timing(timing),
    {
        LeaseTiming {
            ttl: Duration::from_secs(10),
            renewal_interval: Duration::from_nanos(3_333_333_333),
            operation_timeout: Duration::from_secs(15),
            peer_connect_timeout: Duration::from_secs(3),
        }
    }
}

/// The default times.
pub open spec fn default_timing(timing: LeaseTiming) -> bool {
    &&& duration_nanos(timing.ttl) == 10_000_000_000
    &&& duration_nanos(timing.renewal_interval) == 10_000_000_000int / 3
    &&& duration_nanos(timing.operation_timeout) == 15_000_000_000
    &&& duration_nanos(timing.peer_connect_timeout) == 3_000_000_000
}

/// No time is zero, and a lease is renewed before it ends.
pub open spec fn valid_timing(timing: LeaseTiming) -> bool {
    &&& duration_nanos(timing.ttl) > 0
    &&& duration_nanos(timing.renewal_interval) > 0
    &&& duration_nanos(timing.renewal_interval) < duration_nanos(timing.ttl)
    &&& duration_nanos(timing.operation_timeout) > 0
    &&& duration_nanos(timing.peer_connect_timeout) > 0
}

/// What a command runtime runs with in a cluster.
pub struct DistributedRuntimeConfig {
    pub node_id: String,
    pub bind_address: SocketText,
    pub advertised_address: SocketText,
    pub lease_timing: LeaseTiming,
}

/// Why a command runtime did not start.
#[derive(Clone, Debug, PartialEq, Eq)]
pub enum RuntimeStartError {
    Build(BuildError),
    InvalidNodeId,
    InvalidAdvertisedAddress,
    InvalidLeaseTiming,
    BindFailed,
    LeaseConflict,
    LeaseUnconfirmed,
    OwnershipStorage,
}

impl RuntimeStartError {
    /// What the error says.
    pub open spec fn text(self) -> Seq<char> {
        match self {
            RuntimeStartError::Build(inner) => inner.text(),
            RuntimeStartError::InvalidNodeId => "Node ID must not be empty"@,
            RuntimeStartError::InvalidAdvertisedAddress => "advertised address must have a non-zero port"@,
            RuntimeStartError::InvalidLeaseTiming => "lease timing is invalid"@,
            RuntimeStartError::BindFailed => "the peer listener could not bind"@,
            RuntimeStartError::LeaseConflict => "Node Lease is already owned"@,
            RuntimeStartError::LeaseUnconfirmed => "Node Lease acquisition could not be confirmed"@,
            RuntimeStartError::OwnershipStorage => "ownership storage failed during startup"@,
        }
    }

    /// The error as text.
    pub fn message(&self) -> (message: String)
        ensures
            message@ == self.text(),
    {
        match self {
            RuntimeStartError::Build(inner) => inner.message(),
            RuntimeStartError::InvalidNodeId => "Node ID must not be empty".to_owned(),
            RuntimeStartError::InvalidAdvertisedAddress => "advertised address must have a non-zero port".to_owned(),
            RuntimeStartError::InvalidLeaseTiming => "lease timing is invalid".to_owned(),
            RuntimeStartError::BindFailed => "the peer listener could not bind".to_owned(),
            RuntimeStartError::LeaseConflict => "Node Lease is already owned".to_owned(),
            RuntimeStartError::LeaseUnconfirmed => "Node Lease acquisition could not be confirmed".to_owned(),
            RuntimeStartError::OwnershipStorage => "ownership storage failed during startup".to_owned(),
        }
    }
}

impl DistributedRuntimeConfig {
    /// A configuration with the default timing.
    pub fn new(node_id: String, bind_address: SocketText, advertised_address: SocketText) -> (config:
        Self)
        ensures
            config.node_id == node_id,
            config.bind_address == bind_address,
            config.advertised_address == advertised_address,
            default_timing(config.lease_timing),
    {
        DistributedRuntimeConfig {
            node_id,
            bind_address,
            advertised_address,
            lease_timing: LeaseTiming::default(),
        }
    }

    /// Replaces the timing.
    pub fn lease_timing(self, timing: LeaseTiming) -> (config: Self)
        ensures
            config == (DistributedRuntimeConfig { lease_timing: timing, ..self }),
    {
        DistributedRuntimeConfig { lease_timing: timing, ..self }
    }

    /// What is wrong with the configuration, if anything is.
    pub open spec fn fault(&self) -> Option<RuntimeStartError> {
        if blank(self.node_id@) {
            Some(RuntimeStartError::InvalidNodeId)
        } else if self.advertised_address.port == 0 {
            Some(RuntimeStartError::InvalidAdvertisedAddress)
        } else if !valid_timing(self.lease_timing) {
            Some(RuntimeStartError::InvalidLeaseTiming)
        } else {
            None
        }
    }

    /// Checks the configuration.
    pub fn validate(&self) -> (result: Result<(), RuntimeStartError>)
        ensures
            match result {
                Ok(()) => self.fault() is None,
                Err(error) => self.fault() == Some(error),
            },
    {
        if is_blank(self.node_id.as_str()) {
            return Err(RuntimeStartError::InvalidNodeId);
        }
        if self.advertised_address.port == 0 {
            return Err(RuntimeStartError::InvalidAdvertisedAddress);
        }
        let timing = &self.lease_timing;
        if is_zero(&timing.ttl) || is_zero(&timing.renewal_interval)
            || timing.renewal_interval.as_nanos() >= timing.ttl.as_nanos() || is_zero(
            &timing.operation_timeout,
        ) || is_zero(&timing.peer_connect_timeout) {
            return Err(RuntimeStartError::InvalidLeaseTiming);
        }
        Ok(())
    }
}

/// The lease of a command runtime.
pub struct NodeLease {
    pub node_id: String,
    pub session_id: NodeSessionId,
    pub advertised_address: SocketText,
    pub protocol_version: u32,
    pub expires_at_unix_ms: u64,
    pub sampled_at_unix_ms: u64,
    pub active_actor_count: usize,
    pub max_actor_count: usize,
    pub pressured: bool,
    pub draining: bool,
}

/// A lease as a mathematical value.
pub struct LeaseView {
    pub node_id: Seq<char>,
    pub session_id: Seq<char>,
    pub advertised_address: Seq<char>,
    pub advertised_port: u16,
    pub protocol_version: u32,
    pub expires_at_unix_ms: u64,
    pub sampled_at_unix_ms: u64,
    pub active_actor_count: usize,
    pub max_actor_count: usize,
    pub pressured: bool,
    pub draining: bool,
}

impl View for NodeLease {
    type V = LeaseView;

    open spec fn view(&self) -> LeaseView {
        LeaseView {
            node_id: self.node_id@,
            session_id: self.session_id@,
            advertised_address: self.advertised_address.text@,
            advertised_port: self.advertised_address.port,
            protocol_version: self.protocol_version,
            expires_at_unix_ms: self.expires_at_unix_ms,
            sampled_at_unix_ms: self.sampled_at_unix_ms,
            active_actor_count: self.active_actor_count,
            max_actor_count: self.max_actor_count,
            pressured: self.pressured,
            draining: self.draining,
        }
    }
}

impl Key for NodeLease {
    fn same(&self, other: &Self) -> (same: bool) {
        self.node_id == other.node_id && self.session_id.same(&other.session_id)
            && self.advertised_address.text == other.advertised_address.text
            && self.advertised_address.port == other.advertised_address.port
            && self.protocol_version == other.protocol_version && self.expires_at_unix_ms
            == other.expires_at_unix_ms && self.sampled_at_unix_ms == other.sampled_at_unix_ms
            && self.active_actor_count == other.active_actor_count && self.max_actor_count
            == other.max_actor_count && self.pressured == other.pressured && self.draining
            == other.draining
    }

    fn duplicate(&self) -> (copy: Self) {
        NodeLease {
            node_id: self.node_id.clone(),
            session_id: self.session_id.duplicate(),
            advertised_address: SocketText {
                text: self.advertised_address.text.clone(),
                port: self.advertised_address.port,
            },
            protocol_version: self.protocol_version,
            expires_at_unix_ms: self.expires_at_unix_ms,
            sampled_at_unix_ms: self.sampled_at_unix_ms,
            active_actor_count: self.active_actor_count,
            max_actor_count: self.max_actor_count,
            pressured: self.pressured,
            draining: self.draining,
        }
    }
}

/// A lease with the tag it was read with.
pub struct VersionedNodeLease {
    pub lease: NodeLease,
    pub etag: String,
}

/// An ownership record with the tag it was read with.
pub struct VersionedActorOwnerRecord {
    pub record: ActorOwnerRecord,
    pub etag: String,
}

/// A versioned ownership record as a mathematical value.
pub struct VersionedView {
    pub record: RecordView,
    pub etag: Seq<char>,
}

impl View for VersionedActorOwnerRecord {
    type V = VersionedView;

    open spec fn view(&self) -> VersionedView {
        VersionedView { record: self.record@, etag: self.etag@ }
    }
}

impl VersionedActorOwnerRecord {
    /// A second record with the same tag.
    pub fn duplicate(&self) -> (copy: Self)
        ensures
            copy@ == self@,
    {
        VersionedActorOwnerRecord { record: self.record.duplicate(), etag: self.etag.clone() }
    }
}

/// What a conditional write came to.
#[derive(Clone, Debug, PartialEq, Eq)]
pub enum LeaseMutation {
    Applied { etag: String },
    ConditionalRejected,
    Ambiguous(AmbiguousMutation),
}

/// Why nobody knows what a write came to.
#[derive(Clone, Copy, Debug, PartialEq, Eq, Structural)]
pub enum AmbiguousMutation {
    Timeout,
    ResponseLost,
    DispatchUnknown,
}

/// A failure of the ownership storage.
#[derive(Clone, Copy, Debug, PartialEq, Eq, Structural)]
pub enum OwnershipStorageError {
    Unavailable,
    Failed,
}

impl OwnershipStorageError {
    /// What the error says.
    pub open spec fn text(self) -> Seq<char> {
        match self {
            OwnershipStorageError::Unavailable => "ownership storage is temporarily unavailable"@,
            OwnershipStorageError::Failed => "ownership storage operation failed"@,
        }
    }

    /// The error as text.
    pub fn message(&self) -> (message: String)
        ensures
            message@ == self.text(),
    {
        match self {
            OwnershipStorageError::Unavailable => "ownership storage is temporarily unavailable".to_owned(),
            OwnershipStorageError::Failed => "ownership storage operation failed".to_owned(),
        }
    }
}

/// Why a runtime ended.
#[derive(Clone, Copy, Debug, PartialEq, Eq, Structural)]
pub enum RuntimeTerminationReason {
    Fenced,
    Shutdown,
}

/// The end of a runtime.
#[derive(Clone, Copy, Debug, PartialEq, Eq, Structural)]
pub struct RuntimeTermination {
    pub reason: RuntimeTerminationReason,
}

/// How a runtime ended, given the last report and whether the one who reports is
/// still there. Without a report, and with nobody left to give one, it was shut
/// down.
pub fn terminated(report: Option<RuntimeTermination>, alive: bool) -> (end: Option<
    RuntimeTermination,
>)
    ensures
        end == match report {
            Some(termination) => Some(termination),
            None => if alive {
                None
            } else {
                Some(RuntimeTermination { reason: RuntimeTerminationReason::Shutdown })
            },
        },
{
    match report {
        Some(termination) => Some(termination),
        None => if alive {
            None
        } else {
            Some(RuntimeTermination { reason: RuntimeTerminationReason::Shutdown })
        },
    }
}

/// The lease by which a runtime announces itself.
pub open spec fn first_lease(
    config: DistributedRuntimeConfig,
    session_id: Seq<char>,
    limit: usize,
    wall_time_millis: u64,
) -> LeaseView {
    LeaseView {
        node_id: config.node_id@,
        session_id,
        advertised_address: config.advertised_address.text@,
        advertised_port: config.advertised_address.port,
        protocol_version: PEER_PROTOCOL_VERSION,
        expires_at_unix_ms: moment_after(wall_time_millis, config.lease_timing.ttl),
        sampled_at_unix_ms: wall_time_millis,
        active_actor_count: 0,
        max_actor_count: limit,
        pressured: false,
        draining: false,
    }
}

/// A runtime whose lease is being acquired.
pub struct RuntimeStartup {
    config: DistributedRuntimeConfig,
    lease: NodeLease,
    started: u64,
    confirmation: Option<LeaseConfirmation<NodeLease>>,
}

/// What the start of a runtime does after the storage has answered.
pub enum AcquireStep {
    /// The lease is held under this tag.
    Held { etag: String },
    /// Read the lease within the given nanoseconds.
    Confirm { timeout: u128 },
    /// The runtime does not start.
    Failed { error: RuntimeStartError },
}

/// What the storage answered to the acquisition of a lease.
pub enum AcquireReply {
    TimedOut,
    Failed(OwnershipStorageError),
    Ready(LeaseMutation),
}

/// What the storage answered to the look-up of a lease.
pub enum LeaseReply {
    TimedOut,
    Failed(OwnershipStorageError),
    Ready(Option<VersionedNodeLease>),
}

/// The tag of a lease that was read, if it is the one that was written.
pub open spec fn confirmed_etag(expected: LeaseView, reply: LeaseReply) -> Option<Seq<char>> {
    match reply {
        LeaseReply::Ready(Some(versioned)) => if versioned.lease@ == expected {
            Some(versioned.etag@)
        } else {
            None
        },
        _ => None,
    }
}

/// An uncertain acquisition is looked up once more if a read and time are left;
/// otherwise the runtime does not start.
pub open spec fn lookup_step(
    confirmation: ConfirmationView<LeaseView>,
    now: u64,
    next: Option<ConfirmationView<LeaseView>>,
    step: AcquireStep,
) -> bool {
    if confirmation.reads > 0 && now <= confirmation.deadline {
        &&& step matches AcquireStep::Confirm { timeout }
        &&& timeout == least(
            confirmation.operation_timeout,
            (confirmation.deadline - now) as nat,
        )
        &&& next == Some(
            ConfirmationView { reads: (confirmation.reads - 1) as nat, ..confirmation },
        )
    } else {
        &&& step == (AcquireStep::Failed { error: RuntimeStartError::LeaseUnconfirmed })
        &&& next is None
    }
}

impl RuntimeStartup {
    /// The lease that is acquired.
    pub closed spec fn lease(&self) -> LeaseView {
        self.lease@
    }

    /// What the runtime is started from.
    pub closed spec fn config(&self) -> DistributedRuntimeConfig {
        self.config
    }

    /// The moment at which the acquisition was started.
    pub closed spec fn started(&self) -> u64 {
        self.started
    }

    /// The look-up of the lease, while it is uncertain.
    pub closed spec fn looking_up(&self) -> Option<ConfirmationView<LeaseView>> {
        match self.confirmation {
            Some(confirmation) => Some(confirmation@),
            None => None,
        }
    }

    /// Starts to acquire the lease, under a new identity for this life of the
    /// runtime. The answer is the lease and the nanoseconds that the operation may
    /// take.
    pub fn acquire(
        config: DistributedRuntimeConfig,
        limit: usize,
        now: u64,
        wall_time_millis: u64,
    ) -> (start: (Self, NodeLease, u128))
        ensures
            start.0.config() == config,
            start.0.started() == now,
            start.0.looking_up() is None,
            start.0.lease() == start.1@,
            uuid_text(start.1@.session_id),
            start.1@ == first_lease(config, start.1@.session_id, limit, wall_time_millis),
            start.2 == least(
                duration_nanos(config.lease_timing.operation_timeout),
                duration_nanos(config.lease_timing.ttl),
            ),
    {
        let lease = NodeLease {
            node_id: config.node_id.clone(),
            session_id: NodeSessionId::generate(),
            advertised_address: SocketText {
                text: config.advertised_address.text.clone(),
                port: config.advertised_address.port,
            },
            protocol_version: PEER_PROTOCOL_VERSION,
            expires_at_unix_ms: after(wall_time_millis, &config.lease_timing.ttl),
            sampled_at_unix_ms: wall_time_millis,
            active_actor_count: 0,
            max_actor_count: limit,
            pressured: false,
            draining: false,
        };
        let operation: u128 = config.lease_timing.operation_timeout.as_nanos();
        let ttl: u128 = config.lease_timing.ttl.as_nanos();
        let timeout: u128 = if operation <= ttl {
            operation
        } else {
            ttl
        };
        let copy = lease.duplicate();
        (RuntimeStartup { config, lease, started: now, confirmation: None }, copy, timeout)
    }

    /// The storage has answered the acquisition.
    pub fn acquired(&mut self, reply: AcquireReply, now: u64) -> (step: AcquireStep)
        ensures
            final(self).config() == old(self).config(),
            final(self).lease() == old(self).lease(),
            final(self).started() == old(self).started(),
            (reply is Ready && reply->Ready_0 is Ambiguous) || final(self).looking_up() == old(
                self,
            ).looking_up(),
            match reply {
                AcquireReply::TimedOut => step == (AcquireStep::Failed {
                    error: RuntimeStartError::LeaseUnconfirmed,
                }),
                AcquireReply::Failed(_) => step == (AcquireStep::Failed {
                    error: RuntimeStartError::OwnershipStorage,
                }),
                AcquireReply::Ready(LeaseMutation::Applied { etag }) => step
                    == (AcquireStep::Held { etag }),
                AcquireReply::Ready(LeaseMutation::ConditionalRejected) => step
                    == (AcquireStep::Failed { error: RuntimeStartError::LeaseConflict }),
                AcquireReply::Ready(LeaseMutation::Ambiguous(_)) => lookup_step(
                    ConfirmationView {
                        expected: old(self).lease(),
                        deadline: old(self).started() as nat + duration_nanos(
                            old(self).config().lease_timing.ttl,
                        ),
                        operation_timeout: duration_nanos(
                            old(self).config().lease_timing.operation_timeout,
                        ),
                        reads: LEASE_CONFIRMATION_READS as nat,
                    },
                    now,
                    final(self).looking_up(),
                    step,
                ),
            },
    {
        match reply {
            AcquireReply::TimedOut => AcquireStep::Failed {
                error: RuntimeStartError::LeaseUnconfirmed,
            },
            AcquireReply::Failed(_) => AcquireStep::Failed {
                error: RuntimeStartError::OwnershipStorage,
            },
            AcquireReply::Ready(mutation) => match mutation {
                LeaseMutation::Applied { etag } => AcquireStep::Held { etag },
                LeaseMutation::ConditionalRejected => AcquireStep::Failed {
                    error: RuntimeStartError::LeaseConflict,
                },
                LeaseMutation::Ambiguous(_) => {
                    let ttl: u128 = self.config.lease_timing.ttl.as_nanos();
                    let confirmation = LeaseConfirmation::new(
                        self.lease.duplicate(),
                        self.started as u128 + ttl,
                        self.config.lease_timing.operation_timeout,
                    );
                    self.look_up(confirmation, now)
                },
            },
        }
    }

    fn look_up(&mut self, confirmation: LeaseConfirmation<NodeLease>, now: u64) -> (step: AcquireStep)
        ensures
            final(self).config() == old(self).config(),
            final(self).lease() == old(self).lease(),
            final(self).started() == old(self).started(),
            lookup_step(confirmation@, now, final(self).looking_up(), step),
    {
        let mut confirmation = confirmation;
        match confirmation.next_read(now) {
            Some(timeout) => {
                self.confirmation = Some(confirmation);
                AcquireStep::Confirm { timeout }
            },
            None => {
                self.confirmation = None;
                AcquireStep::Failed { error: RuntimeStartError::LeaseUnconfirmed }
            },
        }
    }

    /// The storage has answered the look-up of an uncertain acquisition.
    pub fn confirmed(&mut self, reply: LeaseReply, now: u64) -> (step: AcquireStep)
        requires
            old(self).looking_up() is Some,
        ensures
            final(self).config() == old(self).config(),
            final(self).lease() == old(self).lease(),
            final(self).started() == old(self).started(),
            match confirmed_etag(old(self).looking_up()->0.expected, reply) {
                Some(etag) => {
                    &&& step matches AcquireStep::Held { etag: held } && held@ == etag
                    &&& final(self).looking_up() is None
                },
                None => lookup_step(
                    old(self).looking_up()->0,
                    now,
                    final(self).looking_up(),
                    step,
                ),
            },
    {
        match self.confirmation.take() {
            Some(confirmation) => {
                if let LeaseReply::Ready(Some(versioned)) = reply {
                    if versioned.lease.same(confirmation.expected()) {
                        return AcquireStep::Held { etag: versioned.etag };
                    }
                }
                self.look_up(confirmation, now)
            },
            None => AcquireStep::Failed { error: RuntimeStartError::LeaseUnconfirmed },
        }
    }

    /// The Node ID and the lease of a runtime that has been started.
    pub fn into_lease(self) -> (parts: (String, NodeLease))
        ensures
            parts.0@ == self.config().node_id@,
            parts.1@ == self.lease(),
    {
        (self.config.node_id, self.lease)
    }

    /// The authority of a runtime that holds its lease, if it has not run out
    /// meanwhile.
    pub fn authority(&self, now: u64) -> (authority: Result<NodeAuthority, RuntimeStartError>)
        ensures
            ({
                let ttl = duration_nanos(self.config().lease_timing.ttl);
                let view = AuthorityView {
                    unfenced: true,
                    deadline: self.started() as nat + ttl,
                    ttl,
                };
                match authority {
                    Ok(authority) => view.valid_at(now) && authority@ == view,
                    Err(error) => !view.valid_at(now) && error
                        == RuntimeStartError::LeaseUnconfirmed,
                }
            }),
    {
        let authority = NodeAuthority::new(self.started, self.config.lease_timing.ttl);
        if authority.is_valid(now) {
            Ok(authority)
        } else {
            Err(RuntimeStartError::LeaseUnconfirmed)
        }
    }
}

/// The default times: ten seconds to live, renewed three times within them, fifteen seconds
/// for an operation, and three to connect.
pub proof fn law_default_timing(timing: LeaseTiming)
    requires
        default_timing(timing),
    ensures
        duration_nanos(timing.ttl) == 10_000_000_000,
        3 * duration_nanos(timing.renewal_interval) <= duration_nanos(timing.ttl),
        duration_nanos(timing.ttl) < 3 * (duration_nanos(timing.renewal_interval) + 1),
        duration_nanos(timing.operation_timeout) == 15_000_000_000,
        duration_nanos(timing.peer_connect_timeout) == 3_000_000_000,
        valid_timing(timing),
{
}

/// Times govern a lease exactly if none is zero and a lease is renewed before it ends.
pub proof fn law_valid_timing(timing: LeaseTiming)
    ensures
        valid_timing(timing) <==> 0 < duration_nanos(timing.renewal_interval) < duration_nanos(
            timing.ttl,
        ) && duration_nanos(timing.operation_timeout) > 0 && duration_nanos(
            timing.peer_connect_timeout,
        ) > 0,
{
}

/// A configuration is sound exactly if the node has a name, its port is known, and its times
/// govern a lease. A fault names the first of these that fails.
pub proof fn law_runtime_configurations(config: DistributedRuntimeConfig)
    ensures
        ({
            let named = !blank(config.node_id@);
            let reachable = config.advertised_address.port > 0;
            let timed = 0 < duration_nanos(config.lease_timing.renewal_interval) < duration_nanos(
                config.lease_timing.ttl,
            ) && duration_nanos(config.lease_timing.operation_timeout) > 0 && duration_nanos(
                config.lease_timing.peer_connect_timeout,
            ) > 0;
            &&& config.fault() is None <==> named && reachable && timed
            &&& config.fault() == Some(RuntimeStartError::InvalidNodeId) <==> !named
            &&& config.fault() == Some(RuntimeStartError::InvalidAdvertisedAddress) <==> named
                && !reachable
            &&& config.fault() == Some(RuntimeStartError::InvalidLeaseTiming) <==> named && reachable
                && !timed
        }),
{
}

/// A runtime announces itself under its own name and address, in the version that callers
/// speak, without load, and for the time to live of its lease.
pub proof fn law_started_runtimes_are_found(
    config: DistributedRuntimeConfig,
    session_id: Seq<char>,
    limit: usize,
    wall_time_millis: u64,
)
    ensures
        ({
            let lease = first_lease(config, session_id, limit, wall_time_millis);
            let end = wall_time_millis + duration_nanos(config.lease_timing.ttl) / 1_000_000;
            &&& lease.node_id == config.node_id@
            &&& lease.session_id == session_id
            &&& lease.advertised_address == config.advertised_address.text@
            &&& lease.advertised_port == config.advertised_address.port
            &&& lease.protocol_version == 2
            &&& lease.sampled_at_unix_ms == wall_time_millis
            &&& lease.active_actor_count == 0 && lease.max_actor_count == limit
            &&& !lease.pressured && !lease.draining
            &&& end <= u64::MAX ==> lease.expires_at_unix_ms == end
        }),
{
}

/// An uncertain acquisition is confirmed only by the very lease that was written, under the
/// tag it was read with.
pub proof fn law_only_the_written_lease_confirms(expected: LeaseView, reply: LeaseReply)
    ensures
        confirmed_etag(expected, reply) is Some <==> reply is Ready && reply->Ready_0 is Some
            && reply->Ready_0->0.lease@ == expected,
        confirmed_etag(expected, reply) matches Some(etag) ==> etag == reply->Ready_0->0.etag@,
{
}

/// A look-up goes on while a read is left and the lease has not run out, for no longer than
/// an operation may take nor than the lease lasts; then the runtime does not start.
pub proof fn law_acquisitions_are_looked_up(
    confirmation: ConfirmationView<LeaseView>,
    now: u64,
    next: Option<ConfirmationView<LeaseView>>,
    step: AcquireStep,
)
    requires
        lookup_step(confirmation, now, next, step),
    ensures
        LEASE_CONFIRMATION_READS == 3,
        step is Confirm <==> confirmation.reads > 0 && now <= confirmation.deadline,
        step matches AcquireStep::Confirm { timeout } ==> {
            &&& timeout <= confirmation.operation_timeout
            &&& timeout <= confirmation.deadline - now
            &&& timeout == confirmation.operation_timeout || timeout == confirmation.deadline - now
            &&& next is Some && next->0.reads == confirmation.reads - 1
            &&& next->0.expected == confirmation.expected && next->0.deadline
                == confirmation.deadline
        },
        !(step is Confirm) ==> step == (AcquireStep::Failed {
            error: RuntimeStartError::LeaseUnconfirmed,
        }) && next is None,
{
}

} // verus!
