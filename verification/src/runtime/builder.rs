//! Configuring a Server and turning the configuration into one.

use std::marker::PhantomData;
use std::time::Duration;

use vstd::prelude::*;
use vstd::string::*;

use crate::actor::{ActorConfig, IntoActorConfig};
use crate::cluster::endpoint::{canonical, canonical_endpoint, SocketText};
use crate::cluster::node::NodeAuthority;
use crate::error::ServerError;
use crate::keyed::KeyedMap;
use crate::mailbox::MAX_MAILBOX_CAPACITY;
use crate::runtime::message::Registration;
use crate::runtime::route::RouteTable;
use crate::runtime::server::{usable, ServerInner, Status};
use crate::runtime::session::SessionRegistry;
use crate::text::{dns_label, is_dns_label};
use crate::time::{duration_nanos, is_zero};
use crate::transport_protocol::TRANSPORT_PROTOCOL_VERSION;

verus! {

/// The App State is still missing.
pub struct MissingState;

/// The App State is there.
pub struct ReadyState;

/// What every Server is configured with.
pub struct ServerBuilderCore<S> {
    pub state: Option<S>,
    pub registrations: Vec<Registration>,
    pub mailbox_capacity: usize,
    pub max_active_actors: usize,
    pub idle_timeout: Duration,
    pub deactivation_timeout: Duration,
    pub shutdown_timeout: Duration,
    pub transport_protocol_version: u32,
}

/// What is wrong with a configuration.
pub enum Fault {
    MailboxCapacity,
    MaxActiveActors,
    DeactivationTimeout,
    ShutdownTimeout,
    ActorType(Seq<char>),
    DuplicateActorType(Seq<char>),
}

/// What is wrong with one of the registrations, given those before it.
pub open spec fn registration_fault(registrations: Seq<Registration>, i: int) -> Option<Fault> {
    let registration = registrations[i];
    if !dns_label(registration.name@) {
        Some(Fault::ActorType(registration.name@))
    } else if registration.mailbox_capacity == Some(0usize) {
        Some(Fault::MailboxCapacity)
    } else if exists|j: int|
        0 <= j < i && (#[trigger] registrations[j]).name@ == registration.name@ {
        Some(Fault::DuplicateActorType(registration.name@))
    } else {
        None
    }
}

/// What is wrong with the first of the registrations that something is wrong
/// with, from one of them on.
pub open spec fn first_fault(registrations: Seq<Registration>, from: int) -> Option<Fault>
    decreases registrations.len() - from,
{
    if 0 <= from < registrations.len() {
        match registration_fault(registrations, from) {
            Some(fault) => Some(fault),
            None => first_fault(registrations, from + 1),
        }
    } else {
        None
    }
}

/// The error that reports a fault.
pub open spec fn reports(error: ServerError, fault: Fault) -> bool {
    match fault {
        Fault::MailboxCapacity => error == ServerError::InvalidMailboxCapacity,
        Fault::MaxActiveActors => error == ServerError::InvalidMaxActiveActors,
        Fault::DeactivationTimeout => error == ServerError::InvalidDeactivationTimeout,
        Fault::ShutdownTimeout => error == ServerError::InvalidShutdownTimeout,
        Fault::ActorType(name) => error matches ServerError::InvalidActorType(n) && n@ == name,
        Fault::DuplicateActorType(name) => error matches ServerError::DuplicateActorType(n) && n@
            == name,
    }
}

/// `after` is the configuration with one more registration, behind those it had.
pub open spec fn registers<S>(
    before: ServerBuilderCore<S>,
    after: ServerBuilderCore<S>,
    registration: Registration,
) -> bool {
    &&& after == (ServerBuilderCore { registrations: after.registrations, ..before })
    &&& after.registrations@ == before.registrations@.push(registration)
}

/// A registration with the defaults of the Server filled in.
pub open spec fn filled(
    registration: Registration,
    mailbox_capacity: usize,
    idle_timeout: Duration,
) -> Registration {
    Registration {
        mailbox_capacity: match registration.mailbox_capacity {
            Some(capacity) => Some(capacity),
            None => Some(mailbox_capacity),
        },
        idle_timeout: match registration.idle_timeout {
            Some(timeout) => Some(timeout),
            None => Some(idle_timeout),
        },
        ..registration
    }
}

impl<S> ServerBuilderCore<S> {
    /// What is wrong with the configuration, if anything is.
    pub open spec fn fault(&self) -> Option<Fault> {
        if self.mailbox_capacity == 0 {
            Some(Fault::MailboxCapacity)
        } else if self.max_active_actors == 0 {
            Some(Fault::MaxActiveActors)
        } else if duration_nanos(self.deactivation_timeout) == 0 {
            Some(Fault::DeactivationTimeout)
        } else if duration_nanos(self.shutdown_timeout) == 0 {
            Some(Fault::ShutdownTimeout)
        } else {
            first_fault(self.registrations@, 0)
        }
    }

    /// The capacity of the mailboxes of a registered Actor Type: its own, or else
    /// the default.
    pub open spec fn capacity_at(&self, i: int) -> usize {
        match self.registrations@[i].mailbox_capacity {
            Some(capacity) => capacity,
            None => self.mailbox_capacity,
        }
    }

    /// As many permits and as large mailboxes as the configuration asks for can be
    /// made.
    pub open spec fn limits_fit(&self) -> bool {
        &&& self.max_active_actors <= MAX_MAILBOX_CAPACITY
        &&& forall|i: int|
            0 <= i < self.registrations@.len() ==> #[trigger] self.capacity_at(i)
                <= MAX_MAILBOX_CAPACITY
    }

    /// The Server is a new one with this configuration: every Actor Type is
    /// registered with the defaults filled in, no Actor is active and no Session
    /// is open.
    pub open spec fn describes<R, T>(&self, server: ServerInner<R, T>) -> bool {
        &&& registered_all(
            server.registrations@,
            self.registrations@,
            self.registrations@.len() as int,
            self.mailbox_capacity,
            self.idle_timeout,
        )
        &&& server.routes@.routes == Map::<
            crate::actor::AddressView,
            crate::runtime::route::Route<crate::runtime::message::MailboxMessage<R>, T>,
        >::empty()
        &&& server.routes@.maximum == self.max_active_actors
        &&& server.routes@.reserved == 0
        &&& server.routes@.next_generation == 1
        &&& server.sessions@ == Map::<
            crate::actor::AddressView,
            crate::runtime::session::SessionsView,
        >::empty()
        &&& server.status == Status::Running
        &&& server.deactivation_timeout == self.deactivation_timeout
        &&& server.shutdown_timeout == self.shutdown_timeout
        &&& server.transport_protocol_version == self.transport_protocol_version
    }

    /// The defaults: no Actor Type is registered.
    pub open spec fn is_default(&self) -> bool {
        &&& self.registrations@ == Seq::<Registration>::empty()
        &&& self.mailbox_capacity == 32
        &&& self.max_active_actors == 10_000
        &&& duration_nanos(self.idle_timeout) == 60_000_000_000
        &&& duration_nanos(self.deactivation_timeout) == 5_000_000_000
        &&& duration_nanos(self.shutdown_timeout) == 30_000_000_000
        &&& self.transport_protocol_version == TRANSPORT_PROTOCOL_VERSION
    }

    /// The defaults, with a state if there is one already.
    pub fn base(state: Option<S>) -> (core: Self)
        ensures
            core.state == state,
            core.is_default(),
    {
        ServerBuilderCore {
            state,
            registrations: Vec::new(),
            mailbox_capacity: 32,
            max_active_actors: 10_000,
            idle_timeout: Duration::from_secs(60),
            deactivation_timeout: Duration::from_secs(5),
            shutdown_timeout: Duration::from_secs(30),
            transport_protocol_version: TRANSPORT_PROTOCOL_VERSION,
        }
    }

    /// Puts the App State in.
    pub fn with_state(self, state: S) -> (core: Self)
        ensures
            core == (ServerBuilderCore { state: Some(state), ..self }),
    {
        ServerBuilderCore { state: Some(state), ..self }
    }

    /// Registers an Actor Type.
    pub fn add_actor(&mut self, config: ActorConfig)
        ensures
            registers(
                *old(self),
                *final(self),
                Registration {
                    name: config.name,
                    mailbox_capacity: config.mailbox_capacity,
                    idle_timeout: config.idle_timeout,
                },
            ),
    {
        let mut registration = Registration::of(config.name);
        registration.mailbox_capacity = config.mailbox_capacity;
        registration.idle_timeout = config.idle_timeout;
        self.registrations.push(registration);
    }

    /// Checks the configuration.
    pub fn validate(&self) -> (result: Result<(), ServerError>)
        ensures
            result is Ok <==> self.fault() is None,
            result matches Err(error) ==> reports(error, self.fault()->0),
    {
        if self.mailbox_capacity == 0 {
            return Err(ServerError::InvalidMailboxCapacity);
        }
        if self.max_active_actors == 0 {
            return Err(ServerError::InvalidMaxActiveActors);
        }
        if is_zero(&self.deactivation_timeout) {
            return Err(ServerError::InvalidDeactivationTimeout);
        }
        if is_zero(&self.shutdown_timeout) {
            return Err(ServerError::InvalidShutdownTimeout);
        }
        let mut i: usize = 0;
        while i < self.registrations.len()
            invariant
                i <= self.registrations@.len(),
                self.fault() == first_fault(self.registrations@, i as int),
            decreases self.registrations@.len() - i,
        {
            let registration = &self.registrations[i];
            if !is_dns_label(registration.name) {
                return Err(ServerError::InvalidActorType(registration.name.to_owned()));
            }
            if registration.mailbox_capacity == Some(0usize) {
                return Err(ServerError::InvalidMailboxCapacity);
            }
            let name = registration.name.to_owned();
            if self.named_before(&name, i) {
                return Err(ServerError::DuplicateActorType(name));
            }
            i += 1;
        }
        Ok(())
    }

    fn named_before(&self, name: &String, i: usize) -> (named: bool)
        requires
            i <= self.registrations@.len(),
        ensures
            named == exists|j: int|
                0 <= j < i && (#[trigger] self.registrations@[j]).name@ == name@,
    {
        let mut j: usize = 0;
        while j < i
            invariant
                j <= i <= self.registrations@.len(),
                forall|k: int| 0 <= k < j ==> (#[trigger] self.registrations@[k]).name@ != name@,
            decreases i - j,
        {
            let other = self.registrations[j].name.to_owned();
            if other == *name {
                assert(self.registrations@[j as int].name@ == name@);
                return true;
            }
            j += 1;
        }
        false
    }

    /// The limit on Active Actors.
    pub fn active_actor_limit(&self) -> (limit: usize)
        ensures
            limit == self.max_active_actors,
    {
        self.max_active_actors
    }

    /// Builds the Server and hands the App State over. In a valid configuration
    /// the state has been put in before, and the limits are such that mailboxes and
    /// permits can be made.
    pub fn build_with_authority<R, T>(
        self,
        authority: Option<NodeAuthority>,
        clustered: bool,
    ) -> (server: Result<(ServerInner<R, T>, S), ServerError>)
        requires
            self.fault() is None ==> self.state is Some && self.limits_fit(),
        ensures
            server is Ok <==> self.fault() is None,
            server matches Err(error) ==> reports(error, self.fault()->0),
            server matches Ok(built) ==> {
                &&& built.0.wf()
                &&& built.1 == self.state->0
                &&& self.describes(built.0)
                &&& built.0.authority == authority
                &&& built.0.clustered == clustered
            },
    {
        match self.validate() {
            Ok(()) => {},
            Err(error) => return Err(error),
        }
        let mut registrations: KeyedMap<String, Registration> = KeyedMap::new();
        let mut i: usize = 0;
        while i < self.registrations.len()
            invariant
                registrations.wf(),
                i <= self.registrations@.len(),
                self.fault() is None,
                self.limits_fit(),
                first_fault(self.registrations@, i as int) is None,
                registered_all(
                    registrations@,
                    self.registrations@,
                    i as int,
                    self.mailbox_capacity,
                    self.idle_timeout,
                ),
                forall|name: Seq<char>| #[trigger]
                    registrations@.dom().contains(name) ==> usable(registrations@[name]),
            decreases self.registrations@.len() - i,
        {
            let mut registration = self.registrations[i];
            if registration.mailbox_capacity.is_none() {
                registration.mailbox_capacity = Some(self.mailbox_capacity);
            }
            if registration.idle_timeout.is_none() {
                registration.idle_timeout = Some(self.idle_timeout);
            }
            let ghost before = registrations@;
            assert(registration_fault(self.registrations@, i as int) is None);
            assert(self.capacity_at(i as int) <= MAX_MAILBOX_CAPACITY);
            let name = registration.name.to_owned();
            registrations.insert(name, registration);
            proof {
                assert forall|k: int| 0 <= k < i implies registrations@.dom().contains(
                    (#[trigger] self.registrations@[k]).name@,
                ) && registrations@[self.registrations@[k].name@] == filled(
                    self.registrations@[k],
                    self.mailbox_capacity,
                    self.idle_timeout,
                ) by {
                    assert(self.registrations@[k].name@ != registration.name@);
                }
                assert forall|name: Seq<char>| #[trigger]
                    registrations@.dom().contains(name) implies exists|k: int|
                    0 <= k < i + 1 && (#[trigger] self.registrations@[k]).name@ == name by {
                    if name == registration.name@ {
                        assert(self.registrations@[i as int].name@ == name);
                    } else {
                        assert(before.dom().contains(name));
                    }
                }
            }
            i += 1;
        }
        let state = self.state.unwrap();
        let server = ServerInner {
            registrations,
            routes: RouteTable::new(self.max_active_actors),
            sessions: SessionRegistry::new(),
            status: Status::Running,
            deactivation_timeout: self.deactivation_timeout,
            shutdown_timeout: self.shutdown_timeout,
            transport_protocol_version: self.transport_protocol_version,
            authority,
            clustered,
        };
        Ok((server, state))
    }
}

/// The map holds the first `count` registrations under their names, with the
/// defaults filled in, and nothing else.
pub open spec fn registered_all(
    map: Map<Seq<char>, Registration>,
    registrations: Seq<Registration>,
    count: int,
    mailbox_capacity: usize,
    idle_timeout: Duration,
) -> bool {
    &&& forall|i: int|
        0 <= i < count ==> map.dom().contains((#[trigger] registrations[i]).name@)
            && map[registrations[i].name@] == filled(
            registrations[i],
            mailbox_capacity,
            idle_timeout,
        )
    &&& forall|name: Seq<char>| #[trigger]
        map.dom().contains(name) ==> exists|i: int|
            0 <= i < count && (#[trigger] registrations[i]).name@ == name
}

/// Every Actor Type of a valid configuration has a name of its own that is a DNS
/// label.
pub proof fn law_valid_registrations_are_distinct(registrations: Seq<Registration>, i: int, j: int)
    requires
        first_fault(registrations, 0) is None,
        0 <= i < j < registrations.len(),
    ensures
        dns_label(registrations[i].name@),
        dns_label(registrations[j].name@),
        registrations[i].name@ != registrations[j].name@,
{
    lemma_no_fault(registrations, 0, i);
    lemma_no_fault(registrations, 0, j);
}

proof fn lemma_no_fault(registrations: Seq<Registration>, from: int, i: int)
    requires
        first_fault(registrations, from) is None,
        0 <= from <= i < registrations.len(),
    ensures
        registration_fault(registrations, i) is None,
    decreases i - from,
{
    if from < i {
        lemma_no_fault(registrations, from + 1, i);
    }
}

/// One more registration is at fault only for itself.
proof fn lemma_pushed_fault(registrations: Seq<Registration>, last: Registration, from: int)
    requires
        first_fault(registrations, from) is None,
        0 <= from <= registrations.len(),
    ensures
        first_fault(registrations.push(last), from) == registration_fault(
            registrations.push(last),
            registrations.len() as int,
        ),
    decreases registrations.len() - from,
{
    let more = registrations.push(last);
    if from < registrations.len() {
        assert(registration_fault(registrations, from) is None);
        assert(registration_fault(more, from) is None) by {
            assert forall|j: int| 0 <= j < from implies (#[trigger] more[j]).name@
                != more[from].name@ by {
                assert(registrations[j].name@ != registrations[from].name@);
            }
        }
        lemma_pushed_fault(registrations, last, from + 1);
    } else {
        assert(first_fault(more, from + 1) is None);
    }
}

/// It does not matter whether the idle timeout is set before or after an Actor Type
/// is registered: both configurations are valid or neither is, for the same reason,
/// and they describe the same Servers. In those, every Actor Type has the idle
/// timeout of its own, or else the one that was set.
pub proof fn law_idle_timeout_and_register_commute<R, T, S>(
    config: ServerBuilderCore<S>,
    timeout: Duration,
    registration: Registration,
    set_first: ServerBuilderCore<S>,
    registered_first: ServerBuilderCore<S>,
    server: ServerInner<R, T>,
)
    requires
        registers(
            ServerBuilderCore { idle_timeout: timeout, ..config },
            set_first,
            registration,
        ),
        registers(config, registered_first, registration),
    ensures
        ({
            let set_last = ServerBuilderCore { idle_timeout: timeout, ..registered_first };
            &&& set_first.fault() == set_last.fault()
            &&& set_first.describes(server) == set_last.describes(server)
            &&& set_first.describes(server) ==> forall|i: int|
                0 <= i < set_first.registrations@.len() ==> {
                    let name = (#[trigger] set_first.registrations@[i]).name@;
                    &&& server.registrations@.dom().contains(name)
                    &&& server.registrations@[name].idle_timeout
                        == match set_first.registrations@[i].idle_timeout {
                        Some(own) => Some(own),
                        None => Some(timeout),
                    }
                }
        }),
{
}

/// To register a new name that is a DNS label, with room in its mailboxes, keeps a
/// valid configuration valid, with all that it had. To register the same name once
/// more is a duplicate.
pub proof fn law_a_name_is_registered_once<S>(
    config: ServerBuilderCore<S>,
    registration: Registration,
    again: Registration,
    once: ServerBuilderCore<S>,
    twice: ServerBuilderCore<S>,
)
    requires
        config.fault() is None,
        forall|i: int|
            0 <= i < config.registrations@.len() ==> (#[trigger] config.registrations@[i]).name@
                != registration.name@,
        dns_label(registration.name@),
        registration.mailbox_capacity != Some(0usize),
        again.mailbox_capacity != Some(0usize),
        again.name == registration.name,
        registers(config, once, registration),
        registers(once, twice, again),
    ensures
        once.fault() is None,
        once == (ServerBuilderCore { registrations: once.registrations, ..config }),
        once.registrations@.drop_last() == config.registrations@,
        twice.fault() == Some(Fault::DuplicateActorType(registration.name@)),
{
    let before = config.registrations@;
    lemma_pushed_fault(before, registration, 0);
    assert(registration_fault(before.push(registration), before.len() as int) is None) by {
        assert forall|j: int| 0 <= j < before.len() implies (#[trigger] before.push(
            registration,
        )[j]).name@ != registration.name@ by {
            assert(before[j].name@ != registration.name@);
        }
    }
    lemma_pushed_fault(once.registrations@, again, 0);
    assert(twice.registrations@[before.len() as int].name@ == again.name@);
    assert(once.registrations@.drop_last() =~= before);
}

/// Builder for a production Server. `C` is the Coordination Store, `P` tells
/// whether the App State has been put in.
pub struct ServerBuilder<C, S, P> {
    pub store: C,
    pub core_config: ServerBuilderCore<S>,
    pub bind_address: Option<String>,
    pub advertised_endpoint: Option<String>,
    pub node_id: Option<String>,
    pub node_lease_ttl: Duration,
    pub coordination_timeout: Duration,
    pub phase: PhantomData<P>,
}

/// What a Server runs with in a cluster.
pub struct ServerRuntimeConfig {
    pub node_id: String,
    pub bind_address: Option<String>,
    pub advertised_endpoint: String,
    pub node_lease_ttl: Duration,
    pub coordination_timeout: Duration,
}

impl ServerRuntimeConfig {
    /// The configuration of a Server that listens on a socket.
    pub fn production(
        node_id: String,
        bind_address: String,
        advertised_endpoint: String,
        node_lease_ttl: Duration,
        coordination_timeout: Duration,
    ) -> (config: Self)
        ensures
            config == (ServerRuntimeConfig {
                node_id,
                bind_address: Some(bind_address),
                advertised_endpoint,
                node_lease_ttl,
                coordination_timeout,
            }),
    {
        ServerRuntimeConfig {
            node_id,
            bind_address: Some(bind_address),
            advertised_endpoint,
            node_lease_ttl,
            coordination_timeout,
        }
    }

    /// The configuration of a Server that is reached within the process.
    pub fn inmem(node_id: String, endpoint: String) -> (config: Self)
        ensures
            config.node_id == node_id,
            config.bind_address is None,
            config.advertised_endpoint == endpoint,
            duration_nanos(config.node_lease_ttl) == 10_000_000_000,
            duration_nanos(config.coordination_timeout) == 15_000_000_000,
    {
        ServerRuntimeConfig {
            node_id,
            bind_address: None,
            advertised_endpoint: endpoint,
            node_lease_ttl: Duration::from_secs(10),
            coordination_timeout: Duration::from_secs(15),
        }
    }

    /// The nanoseconds between two renewals: a third of the time to live.
    pub fn renewal_interval(&self) -> (nanos: u128)
        ensures
            nanos == duration_nanos(self.node_lease_ttl) / 3,
    {
        self.node_lease_ttl.as_nanos() / 3
    }
}

/// Everything that is needed to start a Server.
pub struct ServerStarter<C, S> {
    pub builder: ServerBuilderCore<S>,
    pub config: ServerRuntimeConfig,
    pub store: C,
}

/// Why a builder does not yield a Server, if it does not. `canonical` is the
/// canonical form of the advertised endpoint.
pub open spec fn starter_error(
    advertised: Option<Seq<char>>,
    canonical: Option<Seq<char>>,
    node_id: Option<Seq<char>>,
    node_lease_ttl: Duration,
    coordination_timeout: Duration,
) -> Option<ServerError> {
    if advertised is None {
        Some(ServerError::MissingAdvertisedEndpoint)
    } else if canonical is None {
        Some(ServerError::InvalidAdvertisedEndpoint)
    } else if node_id matches Some(id) && !dns_label(id) {
        Some(ServerError::InvalidNodeId)
    } else if duration_nanos(node_lease_ttl) == 0 {
        Some(ServerError::InvalidNodeLeaseTtl)
    } else if duration_nanos(coordination_timeout) == 0 {
        Some(ServerError::InvalidCoordinationTimeout)
    } else {
        None
    }
}

/// The characters of a text that may be missing.
pub open spec fn text_view(text: Option<String>) -> Option<Seq<char>> {
    match text {
        Some(text) => Some(text@),
        None => None,
    }
}

impl<C, S> ServerBuilder<C, S, MissingState> {
    /// A builder with the defaults over a Coordination Store.
    pub fn new(store: C) -> (builder: Self)
        ensures
            builder.store == store,
            builder.core_config.state is None,
            builder.core_config.is_default(),
            builder.core_config.fault() is None,
            builder.bind_address is None,
            builder.advertised_endpoint is None,
            builder.node_id is None,
            duration_nanos(builder.node_lease_ttl) == 10_000_000_000,
            duration_nanos(builder.coordination_timeout) == 15_000_000_000,
    {
        ServerBuilder {
            store,
            core_config: ServerBuilderCore::base(None),
            bind_address: None,
            advertised_endpoint: None,
            node_id: None,
            node_lease_ttl: Duration::from_secs(10),
            coordination_timeout: Duration::from_secs(15),
            phase: PhantomData,
        }
    }

    /// Injects the App State shared by every Actor Type in this Server.
    pub fn with_state(self, state: S) -> (builder: ServerBuilder<C, S, ReadyState>)
        ensures
            builder.store == self.store,
            builder.core_config == (ServerBuilderCore { state: Some(state), ..self.core_config }),
            builder.bind_address == self.bind_address,
            builder.advertised_endpoint == self.advertised_endpoint,
            builder.node_id == self.node_id,
            builder.node_lease_ttl == self.node_lease_ttl,
            builder.coordination_timeout == self.coordination_timeout,
    {
        ServerBuilder {
            store: self.store,
            core_config: self.core_config.with_state(state),
            bind_address: self.bind_address,
            advertised_endpoint: self.advertised_endpoint,
            node_id: self.node_id,
            node_lease_ttl: self.node_lease_ttl,
            coordination_timeout: self.coordination_timeout,
            phase: PhantomData,
        }
    }
}

impl<C, S, P> ServerBuilder<C, S, P> {
    /// Registers an Actor Type with either its name or a configuration.
    pub fn actor<I: IntoActorConfig>(self, config: I) -> (builder: Self)
        ensures
            builder == (ServerBuilder { core_config: builder.core_config, ..self }),
            builder.core_config == (ServerBuilderCore {
                registrations: builder.core_config.registrations,
                ..self.core_config
            }),
            builder.core_config.registrations@ == self.core_config.registrations@.push(
                Registration {
                    name: config.config().name,
                    mailbox_capacity: config.config().mailbox_capacity,
                    idle_timeout: config.config().idle_timeout,
                },
            ),
    {
        let mut builder = self;
        builder.core_config.add_actor(config.into_actor_config());
        builder
    }

    /// Sets the canonical `host:port` endpoint advertised to Clients.
    pub fn advertised_endpoint(self, endpoint: &str) -> (builder: Self)
        ensures
            builder.advertised_endpoint matches Some(e) && e@ == endpoint@,
            builder == (ServerBuilder { advertised_endpoint: builder.advertised_endpoint, ..self }),
    {
        ServerBuilder { advertised_endpoint: Some(endpoint.to_owned()), ..self }
    }

    /// Sets the stable logical Node ID. It must be a Kubernetes DNS label.
    pub fn node_id(self, node_id: &str) -> (builder: Self)
        ensures
            builder.node_id matches Some(n) && n@ == node_id@,
            builder == (ServerBuilder { node_id: builder.node_id, ..self }),
    {
        ServerBuilder { node_id: Some(node_id.to_owned()), ..self }
    }

    /// Sets the mailbox capacity of Actor Types that do not set their own.
    pub fn default_mailbox_capacity(self, capacity: usize) -> (builder: Self)
        ensures
            builder == (ServerBuilder {
                core_config: ServerBuilderCore { mailbox_capacity: capacity, ..self.core_config },
                ..self
            }),
    {
        let mut builder = self;
        builder.core_config.mailbox_capacity = capacity;
        builder
    }

    /// Sets the limit on Active Actors.
    pub fn max_active_actors(self, maximum: usize) -> (builder: Self)
        ensures
            builder == (ServerBuilder {
                core_config: ServerBuilderCore { max_active_actors: maximum, ..self.core_config },
                ..self
            }),
    {
        let mut builder = self;
        builder.core_config.max_active_actors = maximum;
        builder
    }

    /// Sets the idle timeout of Actor Types that do not set their own.
    pub fn default_idle_timeout(self, timeout: Duration) -> (builder: Self)
        ensures
            builder == (ServerBuilder {
                core_config: ServerBuilderCore { idle_timeout: timeout, ..self.core_config },
                ..self
            }),
    {
        let mut builder = self;
        builder.core_config.idle_timeout = timeout;
        builder
    }

    /// Sets the time that an idle Actor has for its deactivation.
    pub fn deactivation_timeout(self, timeout: Duration) -> (builder: Self)
        ensures
            builder == (ServerBuilder {
                core_config: ServerBuilderCore {
                    deactivation_timeout: timeout,
                    ..self.core_config
                },
                ..self
            }),
    {
        let mut builder = self;
        builder.core_config.deactivation_timeout = timeout;
        builder
    }

    /// Sets the time that all Actors together have for a graceful shutdown.
    pub fn shutdown_timeout(self, timeout: Duration) -> (builder: Self)
        ensures
            builder == (ServerBuilder {
                core_config: ServerBuilderCore { shutdown_timeout: timeout, ..self.core_config },
                ..self
            }),
    {
        let mut builder = self;
        builder.core_config.shutdown_timeout = timeout;
        builder
    }

    /// Sets the time to live of the Node Lease.
    pub fn node_lease_ttl(self, ttl: Duration) -> (builder: Self)
        ensures
            builder == (ServerBuilder { node_lease_ttl: ttl, ..self }),
    {
        ServerBuilder { node_lease_ttl: ttl, ..self }
    }

    /// Sets the time that one operation of the Coordination Store may take.
    pub fn coordination_timeout(self, timeout: Duration) -> (builder: Self)
        ensures
            builder == (ServerBuilder { coordination_timeout: timeout, ..self }),
    {
        ServerBuilder { coordination_timeout: timeout, ..self }
    }

    /// Checks what a Server needs in a cluster and puts everything together that
    /// is needed to start it. `socket` is what the host's parser for socket
    /// addresses made of the advertised endpoint. Without a Node ID the canonical
    /// endpoint serves as one.
    pub fn into_starter(self, state: Option<S>, socket: Option<SocketText>) -> (starter: Result<
        ServerStarter<C, S>,
        ServerError,
    >)
        requires
            self.bind_address is Some,
        ensures
            ({
                let advertised = text_view(self.advertised_endpoint);
                let parsed = match socket {
                    Some(socket) => Some((socket.text@, socket.port)),
                    None => None,
                };
                let endpoint = match advertised {
                    Some(text) => canonical(text, parsed),
                    None => None,
                };
                let error = starter_error(
                    advertised,
                    endpoint,
                    text_view(self.node_id),
                    self.node_lease_ttl,
                    self.coordination_timeout,
                );
                match starter {
                    Err(e) => error == Some(e),
                    Ok(starter) => {
                        &&& error is None
                        &&& starter.store == self.store
                        &&& starter.builder == (ServerBuilderCore {
                            state: match state {
                                Some(state) => Some(state),
                                None => self.core_config.state,
                            },
                            ..self.core_config
                        })
                        &&& starter.config.advertised_endpoint@ == endpoint->0
                        &&& starter.config.node_id@ == match self.node_id {
                            Some(node_id) => node_id@,
                            None => endpoint->0,
                        }
                        &&& starter.config.bind_address == self.bind_address
                        &&& starter.config.node_lease_ttl == self.node_lease_ttl
                        &&& starter.config.coordination_timeout == self.coordination_timeout
                    },
                }
            }),
    {
        let core_config = match state {
            Some(state) => self.core_config.with_state(state),
            None => self.core_config,
        };
        let raw = match self.advertised_endpoint {
            Some(raw) => raw,
            None => return Err(ServerError::MissingAdvertisedEndpoint),
        };
        let endpoint = match canonical_endpoint(raw.as_str(), socket) {
            Some(endpoint) => endpoint,
            None => return Err(ServerError::InvalidAdvertisedEndpoint),
        };
        let node_id = match self.node_id {
            Some(node_id) => {
                if !is_dns_label(node_id.as_str()) {
                    return Err(ServerError::InvalidNodeId);
                }
                node_id
            },
            None => endpoint.clone(),
        };
        if is_zero(&self.node_lease_ttl) {
            return Err(ServerError::InvalidNodeLeaseTtl);
        }
        if is_zero(&self.coordination_timeout) {
            return Err(ServerError::InvalidCoordinationTimeout);
        }
        let bind_address = self.bind_address.unwrap();
        Ok(
            ServerStarter {
                builder: core_config,
                config: ServerRuntimeConfig::production(
                    node_id,
                    bind_address,
                    endpoint,
                    self.node_lease_ttl,
                    self.coordination_timeout,
                ),
                store: self.store,
            },
        )
    }
}

/// A configuration is sound exactly if its mailboxes have room, some Actor may be active,
/// deactivation and shutdown have time, every name is a label of its own, and every Actor
/// Type that sets its own mailbox has room in it.
pub proof fn law_sound_configurations<S>(config: ServerBuilderCore<S>)
    ensures
        config.fault() is None <==> {
            &&& config.mailbox_capacity > 0
            &&& config.max_active_actors > 0
            &&& duration_nanos(config.deactivation_timeout) > 0
            &&& duration_nanos(config.shutdown_timeout) > 0
            &&& forall|i: int|
                0 <= i < config.registrations@.len() ==> dns_label(
                    (#[trigger] config.registrations@[i]).name@,
                ) && config.registrations@[i].mailbox_capacity != Some(0usize)
            &&& forall|i: int, j: int|
                0 <= i < j < config.registrations@.len() ==> (
                #[trigger] config.registrations@[i]).name@ != (
                #[trigger] config.registrations@[j]).name@
        },
{
    lemma_faultless(config.registrations@, 0);
    let registrations = config.registrations@;
    if config.fault() is None {
        assert forall|i: int| 0 <= i < registrations.len() implies dns_label(
            (#[trigger] registrations[i]).name@,
        ) && registrations[i].mailbox_capacity != Some(0usize) by {
            assert(registration_fault(registrations, i) is None);
        }
        assert forall|i: int, j: int| 0 <= i < j < registrations.len() implies (
        #[trigger] registrations[i]).name@ != (#[trigger] registrations[j]).name@ by {
            assert(registration_fault(registrations, j) is None);
        }
    }
}

proof fn lemma_faultless(registrations: Seq<Registration>, from: int)
    requires
        0 <= from <= registrations.len(),
    ensures
        first_fault(registrations, from) is None <==> forall|i: int|
            from <= i < registrations.len() ==> #[trigger] registration_fault(registrations, i)
                is None,
    decreases registrations.len() - from,
{
    if from < registrations.len() {
        lemma_faultless(registrations, from + 1);
    }
}

/// A fault is reported by what is wrong: the limits and times before the Actor Types, and of
/// these the first that is not right, by its name.
pub proof fn law_faults_are_reported<S>(config: ServerBuilderCore<S>, error: ServerError)
    requires
        config.fault() is Some,
        reports(error, config.fault()->0),
    ensures
        config.mailbox_capacity == 0 ==> error is InvalidMailboxCapacity,
        config.mailbox_capacity > 0 && config.max_active_actors == 0 ==> error
            is InvalidMaxActiveActors,
        error is InvalidMaxActiveActors ==> config.max_active_actors == 0,
        error is InvalidDeactivationTimeout ==> duration_nanos(config.deactivation_timeout) == 0,
        error is InvalidShutdownTimeout ==> duration_nanos(config.shutdown_timeout) == 0,
        config.mailbox_capacity > 0 && config.max_active_actors > 0 && duration_nanos(
            config.deactivation_timeout,
        ) == 0 ==> error is InvalidDeactivationTimeout,
        config.mailbox_capacity > 0 && config.max_active_actors > 0 && duration_nanos(
            config.deactivation_timeout,
        ) > 0 && duration_nanos(config.shutdown_timeout) == 0 ==> error is InvalidShutdownTimeout,
        error matches ServerError::InvalidActorType(name) ==> !dns_label(name@) && exists|i: int|
            0 <= i < config.registrations@.len() && (#[trigger] config.registrations@[i]).name@
                == name@,
        error matches ServerError::DuplicateActorType(name) ==> exists|i: int, j: int|
            0 <= i < j < config.registrations@.len() && (
            #[trigger] config.registrations@[i]).name@ == name@ && (
            #[trigger] config.registrations@[j]).name@ == name@,
{
    if config.mailbox_capacity > 0 && config.max_active_actors > 0 && duration_nanos(
        config.deactivation_timeout,
    ) > 0 && duration_nanos(config.shutdown_timeout) > 0 {
        let at = lemma_first_fault(config.registrations@, 0);
        assert(config.registrations@[at].name@ == config.registrations@[at].name@);
    }
}

proof fn lemma_first_fault(registrations: Seq<Registration>, from: int) -> (at: int)
    requires
        0 <= from <= registrations.len(),
        first_fault(registrations, from) is Some,
    ensures
        from <= at < registrations.len(),
        first_fault(registrations, from) == registration_fault(registrations, at),
        forall|i: int|
            from <= i < at ==> #[trigger] registration_fault(registrations, i) is None,
    decreases registrations.len() - from,
{
    if registration_fault(registrations, from) is Some {
        from
    } else {
        lemma_first_fault(registrations, from + 1)
    }
}

/// A Server that was built holds every Actor Type that was registered, with its own mailbox
/// and idle timeout or else the defaults; no Actor is active in it, and it is open.
pub proof fn law_built_servers<R, T, S>(
    config: ServerBuilderCore<S>,
    server: ServerInner<R, T>,
    i: int,
    name: Seq<char>,
)
    requires
        config.describes(server),
        0 <= i < config.registrations@.len(),
    ensures
        ({
            let registration = config.registrations@[i];
            let built = server.registrations@[registration.name@];
            &&& server.registrations@.dom().contains(registration.name@)
            &&& built.name == registration.name
            &&& registration.mailbox_capacity is Some ==> built.mailbox_capacity
                == registration.mailbox_capacity
            &&& registration.mailbox_capacity is None ==> built.mailbox_capacity == Some(
                config.mailbox_capacity,
            )
            &&& registration.idle_timeout is Some ==> built.idle_timeout
                == registration.idle_timeout
            &&& registration.idle_timeout is None ==> built.idle_timeout == Some(
                config.idle_timeout,
            )
        }),
        server.registrations@.dom().contains(name) ==> exists|k: int|
            0 <= k < config.registrations@.len() && (#[trigger] config.registrations@[k]).name@
                == name,
        server.routes@.routes.dom() == Set::<crate::actor::AddressView>::empty(),
        server.routes@.reserved == 0,
        server.routes@.maximum == config.max_active_actors,
        server.sessions@.dom() == Set::<crate::actor::AddressView>::empty(),
        server.status == Status::Running,
        server.deactivation_timeout == config.deactivation_timeout,
        server.shutdown_timeout == config.shutdown_timeout,
        server.transport_protocol_version == config.transport_protocol_version,
{
}

/// The defaults: thirty-two messages in a mailbox, ten thousand Active Actors, a minute of
/// idleness, five seconds for a deactivation and thirty for a shutdown.
pub proof fn law_defaults<S>(config: ServerBuilderCore<S>)
    requires
        config.is_default(),
    ensures
        config.registrations@.len() == 0,
        config.mailbox_capacity == 32,
        config.max_active_actors == 10_000,
        duration_nanos(config.idle_timeout) == 60_000_000_000,
        duration_nanos(config.deactivation_timeout) == 5_000_000_000,
        duration_nanos(config.shutdown_timeout) == 30_000_000_000,
        config.transport_protocol_version == 2,
        config.fault() is None,
{
}

/// A builder yields a Server exactly if it has an endpoint to advertise that is well formed,
/// a Node ID that is a label if it has one, a lease that lives, and time for the store. The
/// error names the first of these that fails.
pub proof fn law_servers_need_an_endpoint(
    advertised: Option<Seq<char>>,
    canonical: Option<Seq<char>>,
    node_id: Option<Seq<char>>,
    node_lease_ttl: Duration,
    coordination_timeout: Duration,
)
    ensures
        ({
            let error = starter_error(
                advertised,
                canonical,
                node_id,
                node_lease_ttl,
                coordination_timeout,
            );
            let labelled = node_id is None || dns_label(node_id->0);
            let lives = duration_nanos(node_lease_ttl) > 0;
            let timed = duration_nanos(coordination_timeout) > 0;
            &&& error is None <==> advertised is Some && canonical is Some && labelled && lives
                && timed
            &&& error == Some(ServerError::MissingAdvertisedEndpoint) <==> advertised is None
            &&& error == Some(ServerError::InvalidAdvertisedEndpoint) <==> advertised is Some
                && canonical is None
            &&& error == Some(ServerError::InvalidNodeId) <==> advertised is Some && canonical
                is Some && !labelled
            &&& error == Some(ServerError::InvalidNodeLeaseTtl) <==> advertised is Some && canonical
                is Some && labelled && !lives
            &&& error == Some(ServerError::InvalidCoordinationTimeout) <==> advertised is Some
                && canonical is Some && labelled && lives && !timed
        }),
{
}

} // verus!
