//! Configuring a command runtime and turning the configuration into one.

use std::time::Duration;

use vstd::prelude::*;
use vstd::string::*;

use crate::cluster::authority::{uuid_text, OwnerView};
use crate::cluster::lease::least;
use crate::cluster::node::{AuthorityView, NodeAuthority};
use crate::command::api::{
    ActorAddress, ActorId, ActorRefError, ActorTypeConfig, AddressView, BuildError,
};
use crate::command::lease::{
    first_lease, DistributedRuntimeConfig, NodeLease, RuntimeStartError, RuntimeStartup,
};
use crate::command::ownership::{CachedView, DistributedContext};
use crate::command::remote::{ActorRef, ActorRefTarget};
use crate::command::runtime::{usable, Registration, RuntimeInner};
use crate::keyed::{Key, KeyedMap};
use crate::mailbox::MAX_MAILBOX_CAPACITY;
use crate::runtime::route::{Route, RouteTable};
use crate::runtime::server::Status;
use crate::time::duration_nanos;
use crate::transport_protocol::PEER_PROTOCOL_VERSION;

verus! {

/// Builder for a command runtime with App State `S`.
pub struct RuntimeBuilder<S> {
    pub state: S,
    pub registrations: Vec<Registration>,
    pub mailbox_capacity: usize,
    pub max_active_actors: usize,
    pub idle_timeout: Duration,
    pub deactivation_timeout: Duration,
    pub shutdown_timeout: Duration,
    pub peer_protocol_version: u32,
}

/// What is wrong with one of the registrations, given those before it.
pub open spec fn registration_fault(registrations: Seq<Registration>, i: int) -> Option<
    BuildError,
> {
    let registration = registrations[i];
    if registration.mailbox_capacity == Some(0usize) {
        Some(BuildError::InvalidMailboxCapacity)
    } else if exists|j: int|
        0 <= j < i && (#[trigger] registrations[j]).name@ == registration.name@ {
        Some(BuildError::DuplicateActorType(registration.name))
    } else {
        None
    }
}

/// What is wrong with the first of the registrations that something is wrong
/// with, from one of them on.
pub open spec fn first_fault(registrations: Seq<Registration>, from: int) -> Option<BuildError>
    decreases registrations.len() - from,
{
    if 0 <= from < registrations.len() {
        match registration_fault(registrations, from) {
            Some(fault) => Some(fault),
            None => first_fault(registrations, from + 1),
        }
    } else {
        None
    }
}

/// A registration with the defaults of the runtime filled in.
pub open spec fn is_filled(
    built: Registration,
    registration: Registration,
    mailbox_capacity: usize,
    idle_timeout: Duration,
) -> bool {
    &&& built.name == registration.name
    &&& built.remote_commands@ == registration.remote_commands@
    &&& built.mailbox_capacity == match registration.mailbox_capacity {
        Some(capacity) => Some(capacity),
        None => Some(mailbox_capacity),
    }
    &&& built.idle_timeout == match registration.idle_timeout {
        Some(timeout) => Some(timeout),
        None => Some(idle_timeout),
    }
}

/// The map holds the first `count` registrations under their names, with the
/// defaults filled in, and nothing else.
pub open spec fn registered_all(
    map: Map<Seq<char>, Registration>,
    registrations: Seq<Registration>,
    count: int,
    mailbox_capacity: usize,
    idle_timeout: Duration,
) -> bool {
    &&& forall|i: int|
        0 <= i < count ==> map.dom().contains((#[trigger] registrations[i]).name@) && is_filled(
            map[registrations[i].name@],
            registrations[i],
            mailbox_capacity,
            idle_timeout,
        )
    &&& forall|name: Seq<char>| #[trigger]
        map.dom().contains(name) ==> exists|i: int|
            0 <= i < count && (#[trigger] registrations[i]).name@ == name
}

/// `after` is the builder with one more registration, behind those it had.
pub open spec fn registers<S>(
    before: RuntimeBuilder<S>,
    after: RuntimeBuilder<S>,
    registration: Registration,
) -> bool {
    &&& after == (RuntimeBuilder { registrations: after.registrations, ..before })
    &&& after.registrations@ == before.registrations@.push(registration)
}

/// A command runtime: its state, and the App State of its Actors.
#[verifier::reject_recursive_types(C)]
pub struct Runtime<C, T, S> {
    pub inner: RuntimeInner<C, T>,
    pub state: S,
}

impl<S> RuntimeBuilder<S> {
    /// A builder with the defaults.
    pub fn new(state: S) -> (builder: Self)
        ensures
            builder.state == state,
            builder.registrations@ == Seq::<Registration>::empty(),
            builder.mailbox_capacity == 32,
            builder.max_active_actors == 10_000,
            duration_nanos(builder.idle_timeout) == 60_000_000_000,
            duration_nanos(builder.deactivation_timeout) == 5_000_000_000,
            duration_nanos(builder.shutdown_timeout) == 30_000_000_000,
            builder.peer_protocol_version == PEER_PROTOCOL_VERSION,
    {
        RuntimeBuilder {
            state,
            registrations: Vec::new(),
            mailbox_capacity: 32,
            max_active_actors: 10_000,
            idle_timeout: Duration::from_secs(60),
            deactivation_timeout: Duration::from_secs(5),
            shutdown_timeout: Duration::from_secs(30),
            peer_protocol_version: PEER_PROTOCOL_VERSION,
        }
    }

    /// Sets the mailbox capacity of Actor Types that do not set their own.
    pub fn mailbox_capacity(self, capacity: usize) -> (builder: Self)
        ensures
            builder == (RuntimeBuilder { mailbox_capacity: capacity, ..self }),
    {
        RuntimeBuilder { mailbox_capacity: capacity, ..self }
    }

    /// Sets the limit on Active Actors.
    pub fn max_active_actors(self, maximum: usize) -> (builder: Self)
        ensures
            builder == (RuntimeBuilder { max_active_actors: maximum, ..self }),
    {
        RuntimeBuilder { max_active_actors: maximum, ..self }
    }

    /// Sets the idle timeout of Actor Types that do not set their own.
    pub fn idle_timeout(self, timeout: Duration) -> (builder: Self)
        ensures
            builder == (RuntimeBuilder { idle_timeout: timeout, ..self }),
    {
        RuntimeBuilder { idle_timeout: timeout, ..self }
    }

    /// Sets the time that an idle Actor has for its deactivation.
    pub fn deactivation_timeout(self, timeout: Duration) -> (builder: Self)
        ensures
            builder == (RuntimeBuilder { deactivation_timeout: timeout, ..self }),
    {
        RuntimeBuilder { deactivation_timeout: timeout, ..self }
    }

    /// Sets the time that all Actors together have for a graceful shutdown.
    pub fn shutdown_timeout(self, timeout: Duration) -> (builder: Self)
        ensures
            builder == (RuntimeBuilder { shutdown_timeout: timeout, ..self }),
    {
        RuntimeBuilder { shutdown_timeout: timeout, ..self }
    }

    /// Registers an Actor Type under its name, with the commands it takes from
    /// remote callers.
    pub fn register(self, name: &'static str, remote_commands: Vec<&'static str>) -> (builder: Self)
        ensures
            registers(
                self,
                builder,
                Registration {
                    name,
                    remote_commands,
                    mailbox_capacity: None,
                    idle_timeout: None,
                },
            ),
    {
        self.register_with(name, remote_commands, ActorTypeConfig::new())
    }

    /// Registers an Actor Type with policy of its own.
    pub fn register_with(
        self,
        name: &'static str,
        remote_commands: Vec<&'static str>,
        config: ActorTypeConfig,
    ) -> (builder: Self)
        ensures
            registers(
                self,
                builder,
                Registration {
                    name,
                    remote_commands,
                    mailbox_capacity: config.mailbox_capacity,
                    idle_timeout: config.idle_timeout,
                },
            ),
    {
        let mut builder = self;
        builder.registrations.push(
            Registration {
                name,
                remote_commands,
                mailbox_capacity: config.mailbox_capacity,
                idle_timeout: config.idle_timeout,
            },
        );
        builder
    }

    /// Prepares the runtime to take part in a cluster.
    pub fn distributed(self, config: DistributedRuntimeConfig) -> (builder: Result<
        DistributedRuntimeBuilder<S>,
        RuntimeStartError,
    >)
        ensures
            match builder {
                Ok(builder) => config.fault() is None && builder.builder == self && builder.config
                    == config,
                Err(error) => config.fault() == Some(error),
            },
    {
        match config.validate() {
            Ok(()) => Ok(DistributedRuntimeBuilder { builder: self, config }),
            Err(error) => Err(error),
        }
    }

    /// What is wrong with the configuration, if anything is.
    pub open spec fn fault(&self) -> Option<BuildError> {
        if self.mailbox_capacity == 0 {
            Some(BuildError::InvalidMailboxCapacity)
        } else if self.max_active_actors == 0 {
            Some(BuildError::InvalidMaxActiveActors)
        } else {
            first_fault(self.registrations@, 0)
        }
    }

    /// The capacity of the mailboxes of a registered Actor Type: its own, or else
    /// the default.
    pub open spec fn capacity_at(&self, i: int) -> usize {
        match self.registrations@[i].mailbox_capacity {
            Some(capacity) => capacity,
            None => self.mailbox_capacity,
        }
    }

    /// As many permits and as large mailboxes as the configuration asks for can be
    /// made.
    pub open spec fn limits_fit(&self) -> bool {
        &&& self.max_active_actors <= MAX_MAILBOX_CAPACITY
        &&& forall|i: int|
            0 <= i < self.registrations@.len() ==> #[trigger] self.capacity_at(i)
                <= MAX_MAILBOX_CAPACITY
    }

    /// Checks the configuration.
    pub fn validate(&self) -> (result: Result<(), BuildError>)
        ensures
            match result {
                Ok(()) => self.fault() is None,
                Err(error) => self.fault() == Some(error),
            },
    {
        if self.mailbox_capacity == 0 {
            return Err(BuildError::InvalidMailboxCapacity);
        }
        if self.max_active_actors == 0 {
            return Err(BuildError::InvalidMaxActiveActors);
        }
        let mut i: usize = 0;
        while i < self.registrations.len()
            invariant
                i <= self.registrations@.len(),
                self.fault() == first_fault(self.registrations@, i as int),
            decreases self.registrations@.len() - i,
        {
            let registration = &self.registrations[i];
            if registration.mailbox_capacity == Some(0usize) {
                return Err(BuildError::InvalidMailboxCapacity);
            }
            let name = registration.name.to_owned();
            if self.named_before(&name, i) {
                return Err(BuildError::DuplicateActorType(registration.name));
            }
            i += 1;
        }
        Ok(())
    }

    fn named_before(&self, name: &String, i: usize) -> (named: bool)
        requires
            i <= self.registrations@.len(),
        ensures
            named == exists|j: int|
                0 <= j < i && (#[trigger] self.registrations@[j]).name@ == name@,
    {
        let mut j: usize = 0;
        while j < i
            invariant
                j <= i <= self.registrations@.len(),
                forall|k: int| 0 <= k < j ==> (#[trigger] self.registrations@[k]).name@ != name@,
            decreases i - j,
        {
            let other = self.registrations[j].name.to_owned();
            if other == *name {
                assert(self.registrations@[j as int].name@ == name@);
                return true;
            }
            j += 1;
        }
        false
    }

    /// The limit on Active Actors.
    pub fn active_actor_limit(&self) -> (limit: usize)
        ensures
            limit == self.max_active_actors,
    {
        self.max_active_actors
    }

    /// Builds a runtime of its own.
    pub fn build<C, T>(self) -> (runtime: Result<Runtime<C, T, S>, BuildError>)
        requires
            self.fault() is None ==> self.limits_fit(),
        ensures
            match runtime {
                Ok(runtime) => {
                    &&& self.fault() is None
                    &&& built_from(runtime, self)
                    &&& runtime.inner.authority is None
                    &&& !runtime.inner.distributed
                },
                Err(error) => self.fault() == Some(error),
            },
    {
        self.build_with_authority(None, false)
    }

    /// Builds a runtime. The limits of a valid configuration are such that
    /// mailboxes and permits can be made.
    pub fn build_with_authority<C, T>(
        self,
        authority: Option<NodeAuthority>,
        distributed: bool,
    ) -> (runtime: Result<Runtime<C, T, S>, BuildError>)
        requires
            self.fault() is None ==> self.limits_fit(),
        ensures
            match runtime {
                Ok(runtime) => {
                    &&& self.fault() is None
                    &&& built_from(runtime, self)
                    &&& runtime.inner.authority == authority
                    &&& runtime.inner.distributed == distributed
                },
                Err(error) => self.fault() == Some(error),
            },
    {
        match self.validate() {
            Ok(()) => {},
            Err(error) => return Err(error),
        }
        let mut registrations: KeyedMap<String, Registration> = KeyedMap::new();
        let mut i: usize = 0;
        while i < self.registrations.len()
            invariant
                registrations.wf(),
                i <= self.registrations@.len(),
                self.fault() is None,
                self.limits_fit(),
                first_fault(self.registrations@, i as int) is None,
                registered_all(
                    registrations@,
                    self.registrations@,
                    i as int,
                    self.mailbox_capacity,
                    self.idle_timeout,
                ),
                forall|name: Seq<char>| #[trigger]
                    registrations@.dom().contains(name) ==> usable(registrations@[name]),
            decreases self.registrations@.len() - i,
        {
            let source = &self.registrations[i];
            let mailbox_capacity = match source.mailbox_capacity {
                Some(capacity) => Some(capacity),
                None => Some(self.mailbox_capacity),
            };
            let idle_timeout = match source.idle_timeout {
                Some(timeout) => Some(timeout),
                None => Some(self.idle_timeout),
            };
            let registration = Registration {
                name: source.name,
                remote_commands: copy_names(&source.remote_commands),
                mailbox_capacity,
                idle_timeout,
            };
            let ghost before = registrations@;
            assert(registration_fault(self.registrations@, i as int) is None);
            assert(self.capacity_at(i as int) <= MAX_MAILBOX_CAPACITY);
            let name = source.name.to_owned();
            registrations.insert(name, registration);
            proof {
                assert forall|k: int| 0 <= k < i implies registrations@.dom().contains(
                    (#[trigger] self.registrations@[k]).name@,
                ) && is_filled(
                    registrations@[self.registrations@[k].name@],
                    self.registrations@[k],
                    self.mailbox_capacity,
                    self.idle_timeout,
                ) by {
                    assert(self.registrations@[k].name@ != source.name@);
                }
                assert forall|name: Seq<char>| #[trigger]
                    registrations@.dom().contains(name) implies exists|k: int|
                    0 <= k < i + 1 && (#[trigger] self.registrations@[k]).name@ == name by {
                    if name == source.name@ {
                        assert(self.registrations@[i as int].name@ == name);
                    } else {
                        assert(before.dom().contains(name));
                    }
                }
            }
            i += 1;
        }
        Ok(
            Runtime {
                inner: RuntimeInner {
                    registrations,
                    routes: RouteTable::new(self.max_active_actors),
                    deactivation_timeout: self.deactivation_timeout,
                    shutdown_timeout: self.shutdown_timeout,
                    status: Status::Running,
                    peer_protocol_version: self.peer_protocol_version,
                    authority,
                    distributed,
                },
                state: self.state,
            },
        )
    }
}

fn copy_names(names: &Vec<&'static str>) -> (copy: Vec<&'static str>)
    ensures
        copy@ == names@,
{
    let mut copy: Vec<&'static str> = Vec::new();
    let mut i: usize = 0;
    while i < names.len()
        invariant
            i <= names@.len(),
            copy@ == names@.take(i as int),
        decreases names@.len() - i,
    {
        copy.push(names[i]);
        assert(names@.take(i + 1) =~= names@.take(i as int).push(names@[i as int]));
        i += 1;
    }
    assert(names@.take(i as int) =~= names@);
    copy
}

/// The runtime is what the builder was configured for, at its start.
pub open spec fn built_from<C, T, S>(runtime: Runtime<C, T, S>, builder: RuntimeBuilder<S>) -> bool {
    &&& runtime.inner.wf()
    &&& runtime.state == builder.state
    &&& registered_all(
        runtime.inner.registrations@,
        builder.registrations@,
        builder.registrations@.len() as int,
        builder.mailbox_capacity,
        builder.idle_timeout,
    )
    &&& runtime.inner.routes@.routes == Map::<AddressView, Route<C, T>>::empty()
    &&& runtime.inner.routes@.maximum == builder.max_active_actors
    &&& runtime.inner.routes@.reserved == 0
    &&& runtime.inner.routes@.next_generation == 1
    &&& runtime.inner.status == Status::Running
    &&& runtime.inner.deactivation_timeout == builder.deactivation_timeout
    &&& runtime.inner.shutdown_timeout == builder.shutdown_timeout
    &&& runtime.inner.peer_protocol_version == builder.peer_protocol_version
}

/// A builder for a runtime that takes part in a cluster.
pub struct DistributedRuntimeBuilder<S> {
    pub builder: RuntimeBuilder<S>,
    pub config: DistributedRuntimeConfig,
}

/// A runtime that has been started in a cluster: the runtime, what it knows of
/// owners, and the lease that it holds under a tag.
#[verifier::reject_recursive_types(C)]
pub struct StartedRuntime<C, T, S> {
    pub runtime: Runtime<C, T, S>,
    pub distributed: DistributedContext,
    pub lease: NodeLease,
    pub etag: String,
}

impl<S> DistributedRuntimeBuilder<S> {
    /// Checks the configuration of a runtime before its listener is bound.
    pub fn begin_start(&self) -> (result: Result<(), RuntimeStartError>)
        ensures
            result == match self.builder.fault() {
                Some(error) => Err(RuntimeStartError::Build(error)),
                None => Ok::<(), RuntimeStartError>(()),
            },
    {
        match self.builder.validate() {
            Ok(()) => Ok(()),
            Err(error) => Err(RuntimeStartError::Build(error)),
        }
    }

    /// Starts to acquire the lease. The answer is the lease and the nanoseconds
    /// that the operation may take.
    pub fn acquire(self, now: u64, wall_time_millis: u64) -> (start: (
        RuntimeBuilder<S>,
        RuntimeStartup,
        NodeLease,
        u128,
    ))
        ensures
            start.0 == self.builder,
            start.1.config() == self.config,
            start.1.started() == now,
            start.1.looking_up() is None,
            start.1.lease() == start.2@,
            uuid_text(start.2@.session_id),
            start.2@ == first_lease(
                self.config,
                start.2@.session_id,
                self.builder.max_active_actors,
                wall_time_millis,
            ),
            start.3 == least(
                duration_nanos(self.config.lease_timing.operation_timeout),
                duration_nanos(self.config.lease_timing.ttl),
            ),
    {
        let limit: usize = self.builder.active_actor_limit();
        let (startup, lease, timeout) = RuntimeStartup::acquire(
            self.config,
            limit,
            now,
            wall_time_millis,
        );
        (self.builder, startup, lease, timeout)
    }
}

/// What the host reports of the listener of a runtime.
pub fn bound(success: bool) -> (result: Result<(), RuntimeStartError>)
    ensures
        result == if success {
            Ok(())
        } else {
            Err::<(), RuntimeStartError>(RuntimeStartError::BindFailed)
        },
{
    if success {
        Ok(())
    } else {
        Err(RuntimeStartError::BindFailed)
    }
}

/// Ends the start of a runtime that holds its lease under `etag`. An authority
/// that has run out meanwhile is no start.
pub fn finish_start<C, T, S>(
    builder: RuntimeBuilder<S>,
    startup: RuntimeStartup,
    etag: String,
    now: u64,
) -> (started: Result<StartedRuntime<C, T, S>, RuntimeStartError>)
    requires
        builder.fault() is None ==> builder.limits_fit(),
    ensures
        ({
            let ttl = duration_nanos(startup.config().lease_timing.ttl);
            let authority = AuthorityView {
                unfenced: true,
                deadline: startup.started() as nat + ttl,
                ttl,
            };
            if !authority.valid_at(now) {
                started == Err::<StartedRuntime<C, T, S>, RuntimeStartError>(
                    RuntimeStartError::LeaseUnconfirmed,
                )
            } else {
                match started {
                    Ok(started) => {
                        &&& builder.fault() is None
                        &&& built_from(started.runtime, builder)
                        &&& started.runtime.inner.authority_view() == Some(authority)
                        &&& started.runtime.inner.distributed
                        &&& started.distributed.wf()
                        &&& started.distributed.me() == (OwnerView {
                            node_id: startup.config().node_id@,
                            session_id: startup.lease().session_id,
                        })
                        &&& started.distributed.remembered() == Map::<
                            AddressView,
                            CachedView,
                        >::empty()
                        &&& started.lease@ == startup.lease()
                        &&& started.etag == etag
                    },
                    Err(error) => builder.fault() matches Some(fault) && error
                        == RuntimeStartError::Build(fault),
                }
            }
        }),
{
    let authority = match startup.authority(now) {
        Ok(authority) => authority,
        Err(error) => return Err(error),
    };
    let (node_id, lease) = startup.into_lease();
    let distributed = DistributedContext::new(node_id, lease.session_id.duplicate());
    match builder.build_with_authority(Some(authority), true) {
        Ok(runtime) => Ok(StartedRuntime { runtime, distributed, lease, etag }),
        Err(error) => Err(RuntimeStartError::Build(error)),
    }
}

impl<C, T, S> Runtime<C, T, S> {
    /// A reference to an Actor of this runtime.
    pub fn actor_ref(&self, actor_type: &'static str, actor_id: ActorId) -> (actor: Result<
        ActorRef,
        ActorRefError,
    >)
        requires
            self.inner.wf(),
        ensures
            actor is Ok == self.inner.registered(actor_type@),
            actor matches Ok(a) ==> a.target is Local && a.address@ == (AddressView {
                actor_type: actor_type@,
                actor_id: actor_id@,
            }),
            actor matches Err(e) ==> e == ActorRefError::ActorTypeNotRegistered(actor_type),
    {
        let name = actor_type.to_owned();
        if !self.inner.registrations.contains(&name) {
            return Err(ActorRefError::ActorTypeNotRegistered(actor_type));
        }
        Ok(ActorRef { target: ActorRefTarget::Local, address: ActorAddress::new(name, actor_id) })
    }
}

/// The builder of a runtime that speaks the given protocol version.
pub open spec fn speaking<S>(builder: RuntimeBuilder<S>, version: u32) -> RuntimeBuilder<S> {
    RuntimeBuilder { peer_protocol_version: version, ..builder }
}

/// Lets a runtime speak another protocol version than its own.
pub fn with_peer_protocol_version<S>(builder: RuntimeBuilder<S>, version: u32) -> (changed:
    RuntimeBuilder<S>)
    ensures
        changed == speaking(builder, version),
{
    RuntimeBuilder { peer_protocol_version: version, ..builder }
}

/// `actor` refers to an Actor of the runtime at an endpoint, in the protocol
/// version of this runtime.
pub open spec fn is_remote_ref<C, T, S>(
    actor: ActorRef,
    runtime: Runtime<C, T, S>,
    address: AddressView,
    endpoint: String,
) -> bool {
    &&& actor.target == (ActorRefTarget::Remote {
        endpoint,
        protocol_version: runtime.inner.peer_protocol_version,
    })
    &&& actor.address@ == address
}

/// A reference to an Actor of the runtime at an endpoint.
pub fn remote_actor_ref<C, T, S>(
    runtime: &Runtime<C, T, S>,
    actor_type: &'static str,
    actor_id: ActorId,
    endpoint: String,
) -> (actor: Result<ActorRef, ActorRefError>)
    requires
        runtime.inner.wf(),
    ensures
        actor is Ok == runtime.inner.registered(actor_type@),
        actor matches Ok(a) ==> is_remote_ref(
            a,
            *runtime,
            AddressView { actor_type: actor_type@, actor_id: actor_id@ },
            endpoint,
        ),
        actor matches Err(e) ==> e == ActorRefError::ActorTypeNotRegistered(actor_type),
{
    let name = actor_type.to_owned();
    if !runtime.inner.registrations.contains(&name) {
        return Err(ActorRefError::ActorTypeNotRegistered(actor_type));
    }
    Ok(
        ActorRef {
            target: ActorRefTarget::Remote {
                endpoint,
                protocol_version: runtime.inner.peer_protocol_version,
            },
            address: ActorAddress::new(name, actor_id),
        },
    )
}

/// One more registration is at fault only for itself: it asks for no room at all,
/// or its name was taken before.
proof fn lemma_pushed_fault(registrations: Seq<Registration>, last: Registration, from: int)
    requires
        first_fault(registrations, from) is None,
        0 <= from <= registrations.len(),
    ensures
        first_fault(registrations.push(last), from) == registration_fault(
            registrations.push(last),
            registrations.len() as int,
        ),
    decreases registrations.len() - from,
{
    let more = registrations.push(last);
    if from < registrations.len() {
        assert(registration_fault(registrations, from) is None);
        assert(registration_fault(more, from) is None) by {
            assert forall|j: int| 0 <= j < from implies (#[trigger] more[j]).name@
                != more[from].name@ by {
                assert(registrations[j].name@ != registrations[from].name@);
            }
        }
        lemma_pushed_fault(registrations, last, from + 1);
    } else {
        assert(first_fault(more, from + 1) is None);
    }
}

/// It does not matter whether the idle timeout is set before or after an Actor Type
/// is registered: both builders are valid or neither is, for the same reason, and
/// they build the same runtimes. In those, every Actor Type has the idle timeout of
/// its own, or else the one that was set.
pub proof fn law_idle_timeout_and_register_commute<C, T, S>(
    builder: RuntimeBuilder<S>,
    timeout: Duration,
    registration: Registration,
    set_first: RuntimeBuilder<S>,
    registered_first: RuntimeBuilder<S>,
    runtime: Runtime<C, T, S>,
)
    requires
        registers(
            RuntimeBuilder { idle_timeout: timeout, ..builder },
            set_first,
            registration,
        ),
        registers(builder, registered_first, registration),
    ensures
        ({
            let set_last = RuntimeBuilder { idle_timeout: timeout, ..registered_first };
            &&& set_first.fault() == set_last.fault()
            &&& built_from(runtime, set_first) == built_from(runtime, set_last)
            &&& built_from(runtime, set_first) ==> forall|i: int|
                0 <= i < set_first.registrations@.len() ==> {
                    let name = (#[trigger] set_first.registrations@[i]).name@;
                    &&& runtime.inner.registrations@.dom().contains(name)
                    &&& runtime.inner.registrations@[name].idle_timeout
                        == match set_first.registrations@[i].idle_timeout {
                        Some(own) => Some(own),
                        None => Some(timeout),
                    }
                }
        }),
{
}

/// To register a new name with room in its mailboxes keeps a valid builder valid,
/// with all that it had. To register the same name once more is a duplicate.
pub proof fn law_a_name_is_registered_once<S>(
    builder: RuntimeBuilder<S>,
    registration: Registration,
    again: Registration,
    once: RuntimeBuilder<S>,
    twice: RuntimeBuilder<S>,
)
    requires
        builder.fault() is None,
        forall|i: int|
            0 <= i < builder.registrations@.len() ==> (#[trigger] builder.registrations@[i]).name@
                != registration.name@,
        registration.mailbox_capacity != Some(0usize),
        again.mailbox_capacity != Some(0usize),
        again.name == registration.name,
        registers(builder, once, registration),
        registers(once, twice, again),
    ensures
        once.fault() is None,
        once == (RuntimeBuilder { registrations: once.registrations, ..builder }),
        once.registrations@.drop_last() == builder.registrations@,
        twice.fault() == Some(BuildError::DuplicateActorType(registration.name)),
{
    let before = builder.registrations@;
    lemma_pushed_fault(before, registration, 0);
    assert(registration_fault(before.push(registration), before.len() as int) is None) by {
        assert forall|j: int| 0 <= j < before.len() implies (#[trigger] before.push(
            registration,
        )[j]).name@ != registration.name@ by {
            assert(before[j].name@ != registration.name@);
        }
    }
    lemma_pushed_fault(once.registrations@, again, 0);
    assert(twice.registrations@[before.len() as int].name@ == again.name@);
    assert(once.registrations@.drop_last() =~= before);
}

/// A runtime speaks the protocol version that was set last, in every reference to
/// an Actor of another runtime; nothing else of the builder changes.
pub proof fn law_the_last_protocol_version_wins<C, T, S>(
    builder: RuntimeBuilder<S>,
    earlier: u32,
    version: u32,
    runtime: Runtime<C, T, S>,
    actor: ActorRef,
    address: AddressView,
    endpoint: String,
)
    requires
        built_from(runtime, speaking(speaking(builder, earlier), version)),
        is_remote_ref(actor, runtime, address, endpoint),
    ensures
        speaking(speaking(builder, earlier), version) == speaking(builder, version),
        speaking(builder, version).fault() == builder.fault(),
        actor.target == (ActorRefTarget::Remote { endpoint, protocol_version: version }),
{
}

/// A configuration is sound exactly if its mailboxes have room, some Actor may be active,
/// every Actor Type that sets its own mailbox has room in it, and no name is registered
/// twice.
pub proof fn law_sound_configurations<S>(builder: RuntimeBuilder<S>)
    ensures
        builder.fault() is None <==> {
            &&& builder.mailbox_capacity > 0
            &&& builder.max_active_actors > 0
            &&& forall|i: int|
                0 <= i < builder.registrations@.len() ==> (
                #[trigger] builder.registrations@[i]).mailbox_capacity != Some(0usize)
            &&& forall|i: int, j: int|
                0 <= i < j < builder.registrations@.len() ==> (
                #[trigger] builder.registrations@[i]).name@ != (
                #[trigger] builder.registrations@[j]).name@
        },
        builder.mailbox_capacity == 0 ==> builder.fault() == Some(
            BuildError::InvalidMailboxCapacity,
        ),
        builder.mailbox_capacity > 0 && builder.max_active_actors == 0 ==> builder.fault() == Some(
            BuildError::InvalidMaxActiveActors,
        ),
{
    lemma_faultless(builder.registrations@, 0);
    let registrations = builder.registrations@;
    if builder.fault() is None {
        assert forall|i: int| 0 <= i < registrations.len() implies (
        #[trigger] registrations[i]).mailbox_capacity != Some(0usize) by {
            assert(registration_fault(registrations, i) is None);
        }
        assert forall|i: int, j: int| 0 <= i < j < registrations.len() implies (
        #[trigger] registrations[i]).name@ != (#[trigger] registrations[j]).name@ by {
            assert(registration_fault(registrations, j) is None);
        }
    }
}

proof fn lemma_faultless(registrations: Seq<Registration>, from: int)
    requires
        0 <= from <= registrations.len(),
    ensures
        first_fault(registrations, from) is None <==> forall|i: int|
            from <= i < registrations.len() ==> #[trigger] registration_fault(registrations, i)
                is None,
    decreases registrations.len() - from,
{
    if from < registrations.len() {
        lemma_faultless(registrations, from + 1);
    }
}

/// A built runtime holds every Actor Type that was registered, with its own mailbox and idle
/// timeout or else the defaults; nothing runs in it, and it takes commands.
pub proof fn law_built_runtimes<C, T, S>(
    runtime: Runtime<C, T, S>,
    builder: RuntimeBuilder<S>,
    i: int,
    name: Seq<char>,
)
    requires
        built_from(runtime, builder),
        0 <= i < builder.registrations@.len(),
    ensures
        ({
            let registration = builder.registrations@[i];
            let built = runtime.inner.registrations@[registration.name@];
            &&& runtime.inner.registrations@.dom().contains(registration.name@)
            &&& built.name == registration.name
            &&& built.remote_commands@ == registration.remote_commands@
            &&& registration.mailbox_capacity is Some ==> built.mailbox_capacity
                == registration.mailbox_capacity
            &&& registration.mailbox_capacity is None ==> built.mailbox_capacity == Some(
                builder.mailbox_capacity,
            )
            &&& registration.idle_timeout is Some ==> built.idle_timeout
                == registration.idle_timeout
            &&& registration.idle_timeout is None ==> built.idle_timeout == Some(
                builder.idle_timeout,
            )
        }),
        runtime.inner.registrations@.dom().contains(name) ==> exists|k: int|
            0 <= k < builder.registrations@.len() && (#[trigger] builder.registrations@[k]).name@
                == name,
        runtime.state == builder.state,
        runtime.inner.routes@.routes.dom() == Set::<AddressView>::empty(),
        runtime.inner.routes@.reserved == 0,
        runtime.inner.routes@.maximum == builder.max_active_actors,
        runtime.inner.status == Status::Running,
        runtime.inner.deactivation_timeout == builder.deactivation_timeout,
        runtime.inner.shutdown_timeout == builder.shutdown_timeout,
        runtime.inner.peer_protocol_version == builder.peer_protocol_version,
{
}

/// A remote reference names the endpoint and the Actor that it was made for.
pub proof fn law_remote_references<C, T, S>(
    actor: ActorRef,
    runtime: Runtime<C, T, S>,
    address: AddressView,
    endpoint: String,
)
    requires
        is_remote_ref(actor, runtime, address, endpoint),
    ensures
        actor.address@ == address,
        actor.target matches ActorRefTarget::Remote { endpoint: named, protocol_version } && named
            == endpoint && protocol_version == runtime.inner.peer_protocol_version,
{
}

} // verus!
