//! Routing commands to Actors, and the life of the Actors that execute them.

use std::time::Duration;

use vstd::prelude::*;
use vstd::string::*;

use crate::actor::DeactivationReason;
use crate::cluster::node::{AuthorityView, NodeAuthority};
use crate::command::api::{ActorAddress, AddressView, RemoteProtocolError, SendError};
use crate::keyed::{Key, KeyedMap};
use crate::mailbox::{closed_out, take_pending, Inbox, Mailbox, Offer, MAX_MAILBOX_CAPACITY};
use crate::runtime::lifecycle::{follows, Activation, TaskAction, TaskPhase};
use crate::runtime::route::{
    deactivation_begun, dispatched, went_in, Dispatch, Refusal, RouteTable, TableView,
};
use crate::runtime::server::Status;
use crate::transport_protocol::{failure_from_code, RuntimeFailure};

verus! {

/// Why the runtime failed a command.
#[derive(Clone, Copy, Debug, PartialEq, Eq, Structural)]
pub enum RuntimeError {
    ActorStopped,
    RuntimeStopped,
    NodeFenced,
    MailboxFull,
    ActivationFailed,
    ActorDeactivating,
    RuntimeAtCapacity,
    RuntimeShuttingDown,
    RemoteUnavailable,
    OwnershipUnavailable,
    OutcomeUnknown,
    NotOwner,
    RemoteProtocol,
    ActorTypeNotRegistered,
    CommandNotRegistered,
    MalformedPayload,
}

/// The wire failure that stands for a runtime error. An unknown outcome is only
/// ever found out by the caller and never travels.
pub open spec fn failure_of(error: RuntimeError) -> RuntimeFailure {
    match error {
        RuntimeError::MailboxFull => RuntimeFailure::MailboxFull,
        RuntimeError::ActivationFailed => RuntimeFailure::ActivationFailed,
        RuntimeError::ActorDeactivating => RuntimeFailure::ActorDeactivating,
        RuntimeError::RuntimeAtCapacity => RuntimeFailure::RuntimeAtCapacity,
        RuntimeError::RuntimeShuttingDown => RuntimeFailure::RuntimeShuttingDown,
        RuntimeError::ActorStopped => RuntimeFailure::ActorStopped,
        RuntimeError::RuntimeStopped => RuntimeFailure::RuntimeStopped,
        RuntimeError::NodeFenced => RuntimeFailure::NodeFenced,
        RuntimeError::RemoteProtocol => RuntimeFailure::ProtocolMismatch,
        RuntimeError::ActorTypeNotRegistered => RuntimeFailure::ActorTypeNotRegistered,
        RuntimeError::CommandNotRegistered => RuntimeFailure::CommandNotRegistered,
        RuntimeError::MalformedPayload => RuntimeFailure::MalformedPayload,
        RuntimeError::RemoteUnavailable => RuntimeFailure::RemoteUnavailable,
        RuntimeError::OwnershipUnavailable => RuntimeFailure::OwnershipUnavailable,
        RuntimeError::OutcomeUnknown => RuntimeFailure::Unspecified,
        RuntimeError::NotOwner => RuntimeFailure::NotOwner,
    }
}

/// The runtime error that a wire failure stands for.
pub open spec fn error_of(failure: RuntimeFailure) -> RuntimeError {
    match failure {
        RuntimeFailure::MailboxFull => RuntimeError::MailboxFull,
        RuntimeFailure::ActivationFailed => RuntimeError::ActivationFailed,
        RuntimeFailure::ActorDeactivating => RuntimeError::ActorDeactivating,
        RuntimeFailure::RuntimeAtCapacity => RuntimeError::RuntimeAtCapacity,
        RuntimeFailure::RuntimeShuttingDown => RuntimeError::RuntimeShuttingDown,
        RuntimeFailure::ActorStopped => RuntimeError::ActorStopped,
        RuntimeFailure::RuntimeStopped => RuntimeError::RuntimeStopped,
        RuntimeFailure::NodeFenced => RuntimeError::NodeFenced,
        RuntimeFailure::ActorTypeNotRegistered => RuntimeError::ActorTypeNotRegistered,
        RuntimeFailure::CommandNotRegistered => RuntimeError::CommandNotRegistered,
        RuntimeFailure::MalformedPayload => RuntimeError::MalformedPayload,
        RuntimeFailure::RemoteUnavailable => RuntimeError::RemoteUnavailable,
        RuntimeFailure::OwnershipUnavailable => RuntimeError::OwnershipUnavailable,
        RuntimeFailure::NotOwner => RuntimeError::NotOwner,
        RuntimeFailure::ProtocolMismatch | RuntimeFailure::Unspecified => RuntimeError::RemoteProtocol,
    }
}

impl RuntimeError {
    /// The number of this error on the wire.
    pub fn to_wire(self) -> (code: i32)
        requires
            self != RuntimeError::OutcomeUnknown,
        ensures
            code == failure_of(self).code(),
    {
        let failure = match self {
            RuntimeError::MailboxFull => RuntimeFailure::MailboxFull,
            RuntimeError::ActivationFailed => RuntimeFailure::ActivationFailed,
            RuntimeError::ActorDeactivating => RuntimeFailure::ActorDeactivating,
            RuntimeError::RuntimeAtCapacity => RuntimeFailure::RuntimeAtCapacity,
            RuntimeError::RuntimeShuttingDown => RuntimeFailure::RuntimeShuttingDown,
            RuntimeError::ActorStopped => RuntimeFailure::ActorStopped,
            RuntimeError::RuntimeStopped => RuntimeFailure::RuntimeStopped,
            RuntimeError::NodeFenced => RuntimeFailure::NodeFenced,
            RuntimeError::RemoteProtocol => RuntimeFailure::ProtocolMismatch,
            RuntimeError::ActorTypeNotRegistered => RuntimeFailure::ActorTypeNotRegistered,
            RuntimeError::CommandNotRegistered => RuntimeFailure::CommandNotRegistered,
            RuntimeError::MalformedPayload => RuntimeFailure::MalformedPayload,
            RuntimeError::RemoteUnavailable => RuntimeFailure::RemoteUnavailable,
            RuntimeError::OwnershipUnavailable => RuntimeFailure::OwnershipUnavailable,
            RuntimeError::OutcomeUnknown => RuntimeFailure::Unspecified,
            RuntimeError::NotOwner => RuntimeFailure::NotOwner,
        };
        failure.to_code()
    }

    /// The error that a number on the wire stands for.
    pub fn from_wire(value: i32) -> (error: Self)
        ensures
            error == error_of(failure_from_code(value)),
    {
        match RuntimeFailure::from_code(value) {
            RuntimeFailure::MailboxFull => RuntimeError::MailboxFull,
            RuntimeFailure::ActivationFailed => RuntimeError::ActivationFailed,
            RuntimeFailure::ActorDeactivating => RuntimeError::ActorDeactivating,
            RuntimeFailure::RuntimeAtCapacity => RuntimeError::RuntimeAtCapacity,
            RuntimeFailure::RuntimeShuttingDown => RuntimeError::RuntimeShuttingDown,
            RuntimeFailure::ActorStopped => RuntimeError::ActorStopped,
            RuntimeFailure::RuntimeStopped => RuntimeError::RuntimeStopped,
            RuntimeFailure::NodeFenced => RuntimeError::NodeFenced,
            RuntimeFailure::ActorTypeNotRegistered => RuntimeError::ActorTypeNotRegistered,
            RuntimeFailure::CommandNotRegistered => RuntimeError::CommandNotRegistered,
            RuntimeFailure::MalformedPayload => RuntimeError::MalformedPayload,
            RuntimeFailure::RemoteUnavailable => RuntimeError::RemoteUnavailable,
            RuntimeFailure::OwnershipUnavailable => RuntimeError::OwnershipUnavailable,
            RuntimeFailure::NotOwner => RuntimeError::NotOwner,
            RuntimeFailure::ProtocolMismatch | RuntimeFailure::Unspecified => RuntimeError::RemoteProtocol,
        }
    }
}

/// Every runtime error that travels is read back from its own number.
pub proof fn law_runtime_error_round_trip(error: RuntimeError)
    requires
        error != RuntimeError::OutcomeUnknown,
    ensures
        error_of(failure_from_code(failure_of(error).code())) == error,
{
}

/// What the caller of a command learns of a runtime error.
pub open spec fn send_error_of<E>(error: RuntimeError) -> SendError<E> {
    match error {
        RuntimeError::ActorStopped => SendError::ActorStopped,
        RuntimeError::RuntimeStopped => SendError::RuntimeStopped,
        RuntimeError::NodeFenced => SendError::NodeFenced,
        RuntimeError::MailboxFull => SendError::MailboxFull,
        RuntimeError::ActivationFailed => SendError::ActivationFailed,
        RuntimeError::ActorDeactivating => SendError::ActorDeactivating,
        RuntimeError::RuntimeAtCapacity => SendError::RuntimeAtCapacity,
        RuntimeError::RuntimeShuttingDown => SendError::RuntimeShuttingDown,
        RuntimeError::RemoteUnavailable => SendError::RemoteUnavailable,
        RuntimeError::OwnershipUnavailable => SendError::OwnershipUnavailable,
        RuntimeError::OutcomeUnknown => SendError::OutcomeUnknown,
        RuntimeError::NotOwner => SendError::OwnershipUnavailable,
        RuntimeError::RemoteProtocol => SendError::RemoteProtocol(
            RemoteProtocolError::VersionMismatch,
        ),
        RuntimeError::ActorTypeNotRegistered => SendError::RemoteProtocol(
            RemoteProtocolError::ActorTypeNotRegistered,
        ),
        RuntimeError::CommandNotRegistered => SendError::RemoteProtocol(
            RemoteProtocolError::CommandNotRegistered,
        ),
        RuntimeError::MalformedPayload => SendError::RemoteProtocol(
            RemoteProtocolError::MalformedRequest,
        ),
    }
}

impl<E> vstd::std_specs::convert::FromSpecImpl<RuntimeError> for SendError<E> {
    open spec fn obeys_from_spec() -> bool {
        true
    }

    open spec fn from_spec(error: RuntimeError) -> SendError<E> {
        send_error_of(error)
    }
}

impl<E> From<RuntimeError> for SendError<E> {
    fn from(error: RuntimeError) -> (send: Self) {
        match error {
            RuntimeError::ActorStopped => SendError::ActorStopped,
            RuntimeError::RuntimeStopped => SendError::RuntimeStopped,
            RuntimeError::NodeFenced => SendError::NodeFenced,
            RuntimeError::MailboxFull => SendError::MailboxFull,
            RuntimeError::ActivationFailed => SendError::ActivationFailed,
            RuntimeError::ActorDeactivating => SendError::ActorDeactivating,
            RuntimeError::RuntimeAtCapacity => SendError::RuntimeAtCapacity,
            RuntimeError::RuntimeShuttingDown => SendError::RuntimeShuttingDown,
            RuntimeError::RemoteUnavailable => SendError::RemoteUnavailable,
            RuntimeError::OwnershipUnavailable => SendError::OwnershipUnavailable,
            RuntimeError::OutcomeUnknown => SendError::OutcomeUnknown,
            RuntimeError::NotOwner => SendError::OwnershipUnavailable,
            RuntimeError::RemoteProtocol => SendError::RemoteProtocol(
                RemoteProtocolError::VersionMismatch,
            ),
            RuntimeError::ActorTypeNotRegistered => SendError::RemoteProtocol(
                RemoteProtocolError::ActorTypeNotRegistered,
            ),
            RuntimeError::CommandNotRegistered => SendError::RemoteProtocol(
                RemoteProtocolError::CommandNotRegistered,
            ),
            RuntimeError::MalformedPayload => SendError::RemoteProtocol(
                RemoteProtocolError::MalformedRequest,
            ),
        }
    }
}

/// The runtime policy of an Actor Type, and the commands it takes from remote
/// callers.
pub struct Registration {
    pub name: &'static str,
    pub remote_commands: Vec<&'static str>,
    pub mailbox_capacity: Option<usize>,
    pub idle_timeout: Option<Duration>,
}

/// The mailbox that a registration asks for can be made.
pub open spec fn usable(registration: Registration) -> bool {
    &&& registration.mailbox_capacity matches Some(capacity)
    &&& 0 < capacity <= MAX_MAILBOX_CAPACITY
    &&& registration.idle_timeout is Some
}

/// The state of a command runtime. `C` is a command of the host, `T` its handle
/// on the task of an Active Actor.
#[verifier::reject_recursive_types(C)]
pub struct RuntimeInner<C, T> {
    pub registrations: KeyedMap<String, Registration>,
    pub routes: RouteTable<ActorAddress, C, T>,
    pub deactivation_timeout: Duration,
    pub shutdown_timeout: Duration,
    pub status: Status,
    pub peer_protocol_version: u32,
    pub authority: Option<NodeAuthority>,
    pub distributed: bool,
}

/// An Actor to start: on this mailbox, under this generation.
#[verifier::reject_recursive_types(C)]
pub struct Spawn<C> {
    pub generation: u64,
    pub receiver: Inbox<C>,
}

/// What became of a command, and what the host has to do about it: fail it,
/// start an Actor.
#[verifier::reject_recursive_types(C)]
pub struct Sent<C> {
    pub result: Result<(), RuntimeError>,
    pub failed: Option<(C, RuntimeError)>,
    pub spawn: Option<Spawn<C>>,
}

impl<C> Sent<C> {
    /// The command was refused with an error, of which its sender learns.
    pub open spec fn refused(self, command: C, error: RuntimeError) -> bool {
        &&& self.result == Err::<(), RuntimeError>(error)
        &&& self.failed == Some((command, error))
        &&& self.spawn is None
    }
}

/// Why a runtime admits no command at all, if it does not.
pub open spec fn closed_to_commands(
    status: Status,
    authority: Option<AuthorityView>,
    now: u64,
) -> Option<RuntimeError> {
    if authority matches Some(a) && !a.valid_at(now) {
        Some(RuntimeError::NodeFenced)
    } else {
        match status {
            Status::Running => None,
            Status::ShuttingDown => Some(RuntimeError::RuntimeShuttingDown),
            Status::Fenced => Some(RuntimeError::NodeFenced),
            Status::Stopped => Some(RuntimeError::RuntimeStopped),
        }
    }
}

/// The error that a refusal stands for.
pub open spec fn refusal_error(reason: Refusal) -> RuntimeError {
    match reason {
        Refusal::MailboxFull => RuntimeError::MailboxFull,
        Refusal::ActorDeactivating => RuntimeError::ActorDeactivating,
        Refusal::AtCapacity => RuntimeError::RuntimeAtCapacity,
    }
}

/// What became of a command that was dispatched.
pub open spec fn sent_of<C>(outcome: Dispatch<C>) -> Sent<C> {
    match outcome {
        Dispatch::Accepted => Sent { result: Ok(()), failed: None, spawn: None },
        Dispatch::Spawned { generation, receiver, offer } => {
            let spawn = Some(Spawn { generation, receiver });
            match offer {
                Offer::Taken => Sent { result: Ok(()), failed: None, spawn },
                Offer::Full(command) => Sent {
                    result: Err(RuntimeError::MailboxFull),
                    failed: Some((command, RuntimeError::MailboxFull)),
                    spawn,
                },
                Offer::Closed(command) => Sent {
                    result: Err(RuntimeError::ActorStopped),
                    failed: Some((command, RuntimeError::ActorStopped)),
                    spawn,
                },
            }
        },
        Dispatch::Refused { reason, message } => Sent {
            result: Err(refusal_error(reason)),
            failed: Some((message, refusal_error(reason))),
            spawn: None,
        },
    }
}

/// What became of a command that was dispatched.
pub fn sent<C>(outcome: Dispatch<C>) -> (sent: Sent<C>)
    ensures
        sent == sent_of(outcome),
{
    match outcome {
        Dispatch::Accepted => Sent { result: Ok(()), failed: None, spawn: None },
        Dispatch::Spawned { generation, receiver, offer } => {
            let spawn = Some(Spawn { generation, receiver });
            match offer {
                Offer::Taken => Sent { result: Ok(()), failed: None, spawn },
                Offer::Full(command) => Sent {
                    result: Err(RuntimeError::MailboxFull),
                    failed: Some((command, RuntimeError::MailboxFull)),
                    spawn,
                },
                Offer::Closed(command) => Sent {
                    result: Err(RuntimeError::ActorStopped),
                    failed: Some((command, RuntimeError::ActorStopped)),
                    spawn,
                },
            }
        },
        Dispatch::Refused { reason, message } => {
            let error = match reason {
                Refusal::MailboxFull => RuntimeError::MailboxFull,
                Refusal::ActorDeactivating => RuntimeError::ActorDeactivating,
                Refusal::AtCapacity => RuntimeError::RuntimeAtCapacity,
            };
            Sent { result: Err(error), failed: Some((message, error)), spawn: None }
        },
    }
}

/// `after` and `out` are what sending a command comes to.
pub open spec fn sends<C, T>(
    runtime: RuntimeInner<C, T>,
    after: TableView<AddressView, C, T>,
    address: AddressView,
    command: C,
    reserved: bool,
    now: u64,
    out: Sent<C>,
) -> bool {
    match closed_to_commands(runtime.status, runtime.authority_view(), now) {
        Some(error) => out.refused(command, error) && after == runtime.routes@.unreserve(reserved),
        None => exists|answer: Offer<C>, outcome: Dispatch<C>|
            answer.gives_back(command) && out == sent_of(outcome) && #[trigger] dispatched(
                runtime.routes@,
                after,
                address,
                command,
                reserved,
                runtime.capacity_of(address.actor_type),
                answer,
                outcome,
            ),
    }
}

impl<C, T> RuntimeInner<C, T> {
    /// The lease authority, where the runtime has one.
    pub open spec fn authority_view(&self) -> Option<AuthorityView> {
        match self.authority {
            Some(authority) => Some(authority@),
            None => None,
        }
    }

    /// An Actor Type is registered.
    pub open spec fn registered(&self, actor_type: Seq<char>) -> bool {
        self.registrations@.dom().contains(actor_type)
    }

    /// The commands that the mailbox of an Actor Type holds.
    pub open spec fn capacity_of(&self, actor_type: Seq<char>) -> usize {
        self.registrations@[actor_type].mailbox_capacity->0
    }

    /// The tables are sound, and every registration can be used.
    pub open spec fn wf(&self) -> bool {
        &&& self.registrations.wf()
        &&& self.routes.wf()
        &&& forall|name: Seq<char>| #[trigger]
            self.registrations@.dom().contains(name) ==> usable(self.registrations@[name])
    }

    /// Nothing but the routes changed.
    pub open spec fn same_but_routes(&self, before: &Self) -> bool {
        *self == (RuntimeInner { routes: self.routes, ..*before })
    }

    /// The runtime may answer for its Actors.
    pub open spec fn may_answer(&self, now: u64) -> bool {
        self.status != Status::Fenced && (self.authority_view() matches Some(a) ==> a.valid_at(now))
    }

    /// Whether the runtime may answer for its Actors.
    pub fn has_authority(&self, now: u64) -> (authority: bool)
        ensures
            authority == self.may_answer(now),
    {
        if self.status == Status::Fenced {
            return false;
        }
        match &self.authority {
            Some(authority) => authority.is_valid(now),
            None => true,
        }
    }

    fn closed_to_commands(&self, now: u64) -> (error: Option<RuntimeError>)
        ensures
            error == closed_to_commands(self.status, self.authority_view(), now),
    {
        if let Some(authority) = &self.authority {
            if !authority.is_valid(now) {
                return Some(RuntimeError::NodeFenced);
            }
        }
        match self.status {
            Status::Running => None,
            Status::ShuttingDown => Some(RuntimeError::RuntimeShuttingDown),
            Status::Fenced => Some(RuntimeError::NodeFenced),
            Status::Stopped => Some(RuntimeError::RuntimeStopped),
        }
    }

    /// Sends a command to the Actor at `address`, which is activated if it is not
    /// active. A command that is refused is failed with the error of the refusal.
    /// `reserved` tells whether the caller holds a reservation for the route; it
    /// is used up or given up.
    pub fn send_with_reservation(
        &mut self,
        address: &ActorAddress,
        command: C,
        reserved: bool,
        now: u64,
    ) -> (out: Sent<C>)
        requires
            old(self).wf(),
            closed_to_commands(old(self).status, old(self).authority_view(), now) is None ==> old(
                self,
            ).registered(address@.actor_type),
            reserved ==> old(self).routes@.reserved > 0,
        ensures
            final(self).wf(),
            final(self).same_but_routes(old(self)),
            sends(*old(self), final(self).routes@, address@, command, reserved, now, out),
    {
        if let Some(error) = self.closed_to_commands(now) {
            if reserved {
                self.routes.cancel_reservation();
            }
            return Sent { result: Err(error), failed: Some((command, error)), spawn: None };
        }
        let name = address.actor_type().to_owned();
        assert(name@ == address@.actor_type);
        let capacity: usize = self.registrations.get(&name).unwrap().mailbox_capacity.unwrap();
        assert(capacity == self.capacity_of(address@.actor_type));
        let outcome = self.routes.dispatch(address, command, reserved, capacity);
        sent(outcome)
    }

    /// Sends a command without a reservation.
    pub fn send(&mut self, address: &ActorAddress, command: C, now: u64) -> (out: Sent<C>)
        requires
            old(self).wf(),
            closed_to_commands(old(self).status, old(self).authority_view(), now) is None ==> old(
                self,
            ).registered(address@.actor_type),
        ensures
            final(self).wf(),
            final(self).same_but_routes(old(self)),
            sends(*old(self), final(self).routes@, address@, command, false, now, out),
    {
        self.send_with_reservation(address, command, false, now)
    }

    /// Starts a graceful shutdown, if the runtime runs: no more commands are
    /// admitted. The answer lists the Actors that have to be asked to stop.
    pub fn begin_shutdown(&mut self) -> (stop: Option<Vec<ActorAddress>>)
        requires
            old(self).wf(),
        ensures
            final(self).wf(),
            *final(self) == (RuntimeInner { status: final(self).status, ..*old(self) }),
            stop is Some == (old(self).status == Status::Running),
            final(self).status == if old(self).status == Status::Running {
                Status::ShuttingDown
            } else {
                old(self).status
            },
            stop matches Some(addresses) ==> addresses@.map_values(
                |a: ActorAddress| a@,
            ).no_duplicates() && addresses@.map_values(|a: ActorAddress| a@).to_set() == old(
                self,
            ).routes@.routes.dom(),
    {
        if self.status != Status::Running {
            return None;
        }
        self.status = Status::ShuttingDown;
        Some(self.routes.addresses())
    }

    /// Ends a graceful shutdown. Actors that did not stop in time lose their
    /// routes.
    pub fn finish_shutdown(&mut self, timed_out: bool)
        requires
            old(self).wf(),
        ensures
            final(self).wf(),
            *final(self) == (RuntimeInner {
                status: Status::Stopped,
                routes: final(self).routes,
                ..*old(self)
            }),
            final(self).routes@ == if timed_out {
                TableView { routes: Map::empty(), ..old(self).routes@ }
            } else {
                old(self).routes@
            },
    {
        if timed_out {
            self.routes.clear();
        }
        self.status = Status::Stopped;
    }

    /// Fences the runtime: no more commands are admitted. The answer lists the
    /// Actors whose tasks have to be aborted.
    pub fn begin_fence(&mut self) -> (abort: Vec<ActorAddress>)
        requires
            old(self).wf(),
        ensures
            final(self).wf(),
            *final(self) == (RuntimeInner { status: Status::Fenced, ..*old(self) }),
            abort@.map_values(|a: ActorAddress| a@).no_duplicates(),
            abort@.map_values(|a: ActorAddress| a@).to_set() == old(self).routes@.routes.dom(),
    {
        self.status = Status::Fenced;
        self.routes.addresses()
    }

    /// Ends fencing: all tasks are gone, and so are their routes.
    pub fn finish_fence(&mut self)
        requires
            old(self).wf(),
        ensures
            final(self).wf(),
            final(self).same_but_routes(old(self)),
            final(self).routes@ == (TableView { routes: Map::empty(), ..old(self).routes@ }),
    {
        self.routes.clear();
    }
}

/// Every command that is sent went into the mailbox of its Actor once, or is
/// failed, with the very error that its sender gets.
pub proof fn law_refused_commands_are_failed<C, T>(
    runtime: RuntimeInner<C, T>,
    after: TableView<AddressView, C, T>,
    address: AddressView,
    command: C,
    reserved: bool,
    now: u64,
    out: Sent<C>,
)
    requires
        sends(runtime, after, address, command, reserved, now, out),
    ensures
        match out.result {
            Ok(()) => out.failed is None && went_in(runtime.routes@, after, address, command),
            Err(error) => out.failed == Some((command, error)),
        },
{
}

/// How the execution of a command ended. `F` is the host's handle on the caller
/// of a command whose handler panicked.
pub enum CommandOutcome<F> {
    Completed,
    Panicked(F),
}

/// The next step of an Active Actor: the commands that have to be failed, and
/// the caller of a panicked one.
pub struct CommandStep<C, F> {
    pub action: TaskAction,
    pub failed: Vec<(C, RuntimeError)>,
    pub panicked: Option<F>,
}

impl<C, F> CommandStep<C, F> {
    /// A step that nobody has to be told of.
    pub open spec fn quiet(self, action: TaskAction) -> bool {
        self.action == action && self.failed@.len() == 0 && self.panicked is None
    }
}

/// The task that runs one Active Actor.
pub struct CommandTask {
    address: ActorAddress,
    generation: u64,
    phase: TaskPhase,
}

/// A task as a mathematical value.
pub struct CommandTaskView {
    pub address: AddressView,
    pub generation: u64,
    pub phase: TaskPhase,
}

impl View for CommandTask {
    type V = CommandTaskView;

    closed spec fn view(&self) -> CommandTaskView {
        CommandTaskView { address: self.address@, generation: self.generation, phase: self.phase }
    }
}

/// The routes once the task is gone: its own route is removed, a later one at the
/// same address stays.
pub open spec fn without_route<C, T>(
    table: TableView<AddressView, C, T>,
    task: CommandTaskView,
) -> TableView<AddressView, C, T> {
    if table.routes.dom().contains(task.address) && table.routes[task.address].generation
        == task.generation {
        TableView { routes: table.routes.remove(task.address), ..table }
    } else {
        table
    }
}

/// The commands, each with the error that it is failed with.
pub open spec fn all_failed<C>(commands: Seq<C>, error: RuntimeError) -> Seq<(C, RuntimeError)> {
    commands.map_values(|command: C| (command, error))
}

/// Marks all commands as failed.
pub fn fail_commands<C>(commands: Vec<C>, error: RuntimeError) -> (failed: Vec<(C, RuntimeError)>)
    ensures
        failed@ == all_failed(commands@, error),
{
    let mut failed: Vec<(C, RuntimeError)> = Vec::new();
    let ghost all = commands@;
    for command in iter: commands
        invariant
            iter.seq() == all,
            failed@ == all_failed(all.take(iter.index()), error),
    {
        assert(all_failed(all.take(iter.index() + 1), error) =~= all_failed(
            all.take(iter.index()),
            error,
        ).push((command, error)));
        failed.push((command, error));
    }
    assert(all.take(all.len() as int) =~= all);
    failed
}

/// The error that the end of activation leaves behind for commands that wait.
pub open spec fn activation_error(activation: Activation) -> RuntimeError {
    match activation {
        Activation::Failed => RuntimeError::ActivationFailed,
        _ => RuntimeError::ActorStopped,
    }
}

/// The states and the step after it are what the end of activation comes to,
/// when `pending` is what is left in the mailbox.
pub open spec fn activation_handled<C, F, T>(
    before: RuntimeInner<C, T>,
    after: RuntimeInner<C, T>,
    task: CommandTaskView,
    next: CommandTaskView,
    activation: Activation,
    pending: Seq<C>,
    step: CommandStep<C, F>,
) -> bool {
    if activation == Activation::Ready {
        &&& next == (CommandTaskView { phase: TaskPhase::Serving, ..task })
        &&& step.quiet(TaskAction::Receive)
        &&& after == before
    } else {
        &&& next == (CommandTaskView { phase: TaskPhase::Finished, ..task })
        &&& step.action == TaskAction::Finish
        &&& step.panicked is None
        &&& step.failed@ == all_failed(pending, activation_error(activation))
        &&& after.routes@ == without_route(before.routes@, task)
    }
}

/// Whether the Actor goes on after a command: the handler did not panic, and the
/// runtime still has its authority.
pub open spec fn goes_on<C, F, T>(
    runtime: RuntimeInner<C, T>,
    outcome: CommandOutcome<F>,
    now: u64,
) -> bool {
    &&& outcome is Completed
    &&& runtime.authority_view() matches Some(authority) ==> authority.valid_at(now)
}

/// The states and the step after it are what the execution of a command comes
/// to, when `pending` is what is left in the mailbox.
pub open spec fn execution_handled<C, F, T>(
    before: RuntimeInner<C, T>,
    after: RuntimeInner<C, T>,
    task: CommandTaskView,
    next: CommandTaskView,
    outcome: CommandOutcome<F>,
    pending: Seq<C>,
    now: u64,
    step: CommandStep<C, F>,
) -> bool {
    if goes_on(before, outcome, now) {
        &&& next == task
        &&& step.quiet(
            if task.phase == TaskPhase::Serving {
                TaskAction::Receive
            } else {
                TaskAction::Drain
            },
        )
        &&& after == before
    } else {
        &&& next == (CommandTaskView { phase: TaskPhase::Finished, ..task })
        &&& step.action == TaskAction::Finish
        &&& after.routes@ == without_route(before.routes@, task)
        &&& match outcome {
            CommandOutcome::Completed => {
                &&& step.panicked is None
                &&& step.failed@ == all_failed(pending, RuntimeError::NodeFenced)
            },
            CommandOutcome::Panicked(handle) => {
                &&& step.panicked == Some(handle)
                &&& step.failed@ == all_failed(pending, RuntimeError::ActorStopped)
            },
        }
    }
}

impl CommandTask {
    /// Starts the task of a route that was just made.
    pub fn begin(address: &ActorAddress, generation: u64) -> (start: (Self, TaskAction))
        ensures
            start.0@ == (CommandTaskView {
                address: address@,
                generation,
                phase: TaskPhase::Activating,
            }),
            start.1 == TaskAction::Activate,
    {
        (
            CommandTask { address: address.duplicate(), generation, phase: TaskPhase::Activating },
            TaskAction::Activate,
        )
    }

    fn step<C, F>(&mut self, phase: TaskPhase, action: TaskAction) -> (step: CommandStep<C, F>)
        ensures
            final(self)@ == (CommandTaskView { phase, ..old(self)@ }),
            step.quiet(action),
    {
        self.phase = phase;
        CommandStep { action, failed: Vec::new(), panicked: None }
    }

    fn end<C, F, T>(&mut self, runtime: &mut RuntimeInner<C, T>) -> (step: CommandStep<C, F>)
        requires
            old(runtime).wf(),
        ensures
            final(runtime).wf(),
            final(runtime).same_but_routes(old(runtime)),
            final(runtime).routes@ == without_route(old(runtime).routes@, old(self)@),
            final(self)@ == (CommandTaskView { phase: TaskPhase::Finished, ..old(self)@ }),
            step.quiet(TaskAction::Finish),
    {
        runtime.routes.remove_route(&self.address, self.generation);
        self.step(TaskPhase::Finished, TaskAction::Finish)
    }

    /// Activation has ended. A failure closes the mailbox, removes the route and
    /// fails every command that waits; so does a panic.
    pub fn activated<C, F, T>(
        &mut self,
        runtime: &mut RuntimeInner<C, T>,
        activation: Activation,
        receiver: &mut Inbox<C>,
    ) -> (step: CommandStep<C, F>)
        requires
            old(runtime).wf(),
            old(self)@.phase == TaskPhase::Activating,
        ensures
            follows(old(self)@.phase, final(self)@.phase),
            final(runtime).wf(),
            final(runtime).same_but_routes(old(runtime)),
            exists|pending: Seq<C>|
                closed_out(
                    activation != Activation::Ready,
                    old(receiver)@,
                    final(receiver)@,
                    pending,
                ) && #[trigger] activation_handled(
                    *old(runtime),
                    *final(runtime),
                    old(self)@,
                    final(self)@,
                    activation,
                    pending,
                    step,
                ),
    {
        let pending = match activation {
            Activation::Ready => Vec::new(),
            _ => {
                receiver.close();
                take_pending(receiver)
            },
        };
        self.activated_with(runtime, activation, pending)
    }

    /// Activation has ended, given what is left in the mailbox that was closed on
    /// a failure.
    pub fn activated_with<C, F, T>(
        &mut self,
        runtime: &mut RuntimeInner<C, T>,
        activation: Activation,
        pending: Vec<C>,
    ) -> (step: CommandStep<C, F>)
        requires
            old(runtime).wf(),
            old(self)@.phase == TaskPhase::Activating,
        ensures
            follows(old(self)@.phase, final(self)@.phase),
            final(runtime).wf(),
            final(runtime).same_but_routes(old(runtime)),
            activation_handled(
                *old(runtime),
                *final(runtime),
                old(self)@,
                final(self)@,
                activation,
                pending@,
                step,
            ),
    {
        let error = match activation {
            Activation::Ready => {
                return self.step(TaskPhase::Serving, TaskAction::Receive);
            },
            Activation::Failed => RuntimeError::ActivationFailed,
            Activation::Panicked => RuntimeError::ActorStopped,
        };
        let mut step = self.end(runtime);
        step.failed = fail_commands(pending, error);
        step
    }

    /// A command was executed. A runtime that has lost its authority meanwhile
    /// stops its Actor; so does a handler that panicked.
    pub fn executed<C, F, T>(
        &mut self,
        runtime: &mut RuntimeInner<C, T>,
        outcome: CommandOutcome<F>,
        receiver: &mut Inbox<C>,
        now: u64,
    ) -> (step: CommandStep<C, F>)
        requires
            old(runtime).wf(),
            old(self)@.phase == TaskPhase::Serving || old(self)@.phase == TaskPhase::Draining,
        ensures
            follows(old(self)@.phase, final(self)@.phase),
            final(runtime).wf(),
            final(runtime).same_but_routes(old(runtime)),
            exists|pending: Seq<C>|
                closed_out(
                    !goes_on(*old(runtime), outcome, now),
                    old(receiver)@,
                    final(receiver)@,
                    pending,
                ) && #[trigger] execution_handled(
                    *old(runtime),
                    *final(runtime),
                    old(self)@,
                    final(self)@,
                    outcome,
                    pending,
                    now,
                    step,
                ),
    {
        let pending = if Self::continues(runtime, &outcome, now) {
            Vec::new()
        } else {
            receiver.close();
            take_pending(receiver)
        };
        self.executed_with(runtime, outcome, pending, now)
    }

    fn continues<C, F, T>(
        runtime: &RuntimeInner<C, T>,
        outcome: &CommandOutcome<F>,
        now: u64,
    ) -> (continues: bool)
        ensures
            continues == goes_on(*runtime, *outcome, now),
    {
        match outcome {
            CommandOutcome::Completed => match &runtime.authority {
                Some(authority) => authority.is_valid(now),
                None => true,
            },
            CommandOutcome::Panicked(_) => false,
        }
    }

    /// A command was executed, given what is left in the mailbox that was closed
    /// if the Actor does not go on.
    pub fn executed_with<C, F, T>(
        &mut self,
        runtime: &mut RuntimeInner<C, T>,
        outcome: CommandOutcome<F>,
        pending: Vec<C>,
        now: u64,
    ) -> (step: CommandStep<C, F>)
        requires
            old(runtime).wf(),
            old(self)@.phase == TaskPhase::Serving || old(self)@.phase == TaskPhase::Draining,
        ensures
            follows(old(self)@.phase, final(self)@.phase),
            final(runtime).wf(),
            final(runtime).same_but_routes(old(runtime)),
            execution_handled(
                *old(runtime),
                *final(runtime),
                old(self)@,
                final(self)@,
                outcome,
                pending@,
                now,
                step,
            ),
    {
        if Self::continues(runtime, &outcome, now) {
            let action = match self.phase {
                TaskPhase::Serving => TaskAction::Receive,
                _ => TaskAction::Drain,
            };
            return self.step(self.phase, action);
        }
        let mut step = self.end(runtime);
        match outcome {
            CommandOutcome::Completed => {
                step.failed = fail_commands(pending, RuntimeError::NodeFenced);
            },
            CommandOutcome::Panicked(handle) => {
                step.failed = fail_commands(pending, RuntimeError::ActorStopped);
                step.panicked = Some(handle);
            },
        }
        step
    }

    /// The shutdown signal changed. A request closes the mailbox, and what is in
    /// it is still executed.
    pub fn shutdown_signalled<C, F>(
        &mut self,
        requested: bool,
        receiver: &mut Inbox<C>,
    ) -> (step: CommandStep<C, F>)
        requires
            old(self)@.phase == TaskPhase::Serving,
        ensures
            follows(old(self)@.phase, final(self)@.phase),
            requested ==> final(self)@ == (CommandTaskView {
                phase: TaskPhase::Draining,
                ..old(self)@
            }) && step.quiet(TaskAction::Drain) && final(receiver)@ == old(receiver)@.shut(
                final(receiver)@.left,
            ),
            !requested ==> final(self)@ == old(self)@ && step.quiet(TaskAction::Receive)
                && final(receiver)@ == old(receiver)@,
    {
        if requested {
            receiver.close();
            self.step(TaskPhase::Draining, TaskAction::Drain)
        } else {
            self.step(TaskPhase::Serving, TaskAction::Receive)
        }
    }

    /// The mailbox was closed by somebody else and is empty.
    pub fn mailbox_ended<C, F, T>(&mut self, runtime: &mut RuntimeInner<C, T>) -> (step:
        CommandStep<C, F>)
        requires
            old(runtime).wf(),
            old(self)@.phase == TaskPhase::Serving,
        ensures
            follows(old(self)@.phase, final(self)@.phase),
            final(runtime).wf(),
            final(runtime).same_but_routes(old(runtime)),
            final(runtime).routes@ == without_route(old(runtime).routes@, old(self)@),
            final(self)@ == (CommandTaskView { phase: TaskPhase::Finished, ..old(self)@ }),
            step.quiet(TaskAction::Finish),
    {
        self.end(runtime)
    }

    /// Every command that was in the mailbox at shutdown has been executed.
    pub fn drained<C, F>(&mut self) -> (step: CommandStep<C, F>)
        requires
            old(self)@.phase == TaskPhase::Draining,
        ensures
            follows(old(self)@.phase, final(self)@.phase),
            final(self)@ == (CommandTaskView {
                phase: TaskPhase::Deactivating(DeactivationReason::Shutdown),
                ..old(self)@
            }),
            step.quiet(TaskAction::Deactivate(DeactivationReason::Shutdown)),
    {
        self.step(
            TaskPhase::Deactivating(DeactivationReason::Shutdown),
            TaskAction::Deactivate(DeactivationReason::Shutdown),
        )
    }

    /// No command came in time. An Actor whose mailbox is still empty stops
    /// admitting commands and is deactivated.
    pub fn idle_elapsed<C, F, T>(
        &mut self,
        runtime: &mut RuntimeInner<C, T>,
        sender: &mut Mailbox<C>,
    ) -> (step: CommandStep<C, F>)
        requires
            old(runtime).wf(),
            old(self)@.phase == TaskPhase::Serving,
        ensures
            follows(old(self)@.phase, final(self)@.phase),
            final(runtime).wf(),
            final(runtime).same_but_routes(old(runtime)),
            final(sender)@ == old(sender)@.looked(final(sender)@.looks.last()),
            idle_handled(
                old(runtime).routes@,
                final(runtime).routes@,
                old(self)@,
                final(self)@,
                final(sender)@.looks.last(),
                old(sender)@.capacity,
                step,
            ),
    {
        let free: usize = sender.free();
        let limit: usize = sender.limit();
        self.idle_elapsed_with(runtime, free, limit)
    }

    /// No command came in time, given the room that is left in the mailbox and
    /// the room it was made with.
    pub fn idle_elapsed_with<C, F, T>(
        &mut self,
        runtime: &mut RuntimeInner<C, T>,
        free: usize,
        limit: usize,
    ) -> (step: CommandStep<C, F>)
        requires
            old(runtime).wf(),
            old(self)@.phase == TaskPhase::Serving,
        ensures
            follows(old(self)@.phase, final(self)@.phase),
            final(runtime).wf(),
            final(runtime).same_but_routes(old(runtime)),
            idle_handled(
                old(runtime).routes@,
                final(runtime).routes@,
                old(self)@,
                final(self)@,
                free,
                limit as nat,
                step,
            ),
    {
        if !runtime.routes.begin_deactivation_with(&self.address, self.generation, free, limit) {
            return self.step(TaskPhase::Serving, TaskAction::Receive);
        }
        self.step(
            TaskPhase::Deactivating(DeactivationReason::Idle),
            TaskAction::Deactivate(DeactivationReason::Idle),
        )
    }

    /// Deactivation has ended, in whatever way.
    pub fn deactivated<C, F, T>(&mut self, runtime: &mut RuntimeInner<C, T>) -> (step: CommandStep<
        C,
        F,
    >)
        requires
            old(runtime).wf(),
            old(self)@.phase is Deactivating,
        ensures
            follows(old(self)@.phase, final(self)@.phase),
            final(runtime).wf(),
            final(runtime).same_but_routes(old(runtime)),
            final(runtime).routes@ == without_route(old(runtime).routes@, old(self)@),
            final(self)@ == (CommandTaskView { phase: TaskPhase::Finished, ..old(self)@ }),
            step.quiet(TaskAction::Finish),
    {
        self.end(runtime)
    }
}

/// `step` and the states after it are what an idle timeout comes to.
pub open spec fn idle_handled<C, F, T>(
    before: TableView<AddressView, C, T>,
    after: TableView<AddressView, C, T>,
    task: CommandTaskView,
    next: CommandTaskView,
    free: usize,
    limit: nat,
    step: CommandStep<C, F>,
) -> bool {
    let begun = next.phase == TaskPhase::Deactivating(DeactivationReason::Idle);
    &&& deactivation_begun(before, after, task.address, task.generation, free, limit, begun)
    &&& if begun {
        &&& next == (CommandTaskView {
            phase: TaskPhase::Deactivating(DeactivationReason::Idle),
            ..task
        })
        &&& step.quiet(TaskAction::Deactivate(DeactivationReason::Idle))
    } else {
        &&& next == task
        &&& step.quiet(TaskAction::Receive)
    }
}

/// Every runtime error that travels has its own number on the wire.
pub proof fn law_runtime_errors_have_their_numbers(error: RuntimeError)
    ensures
        failure_of(error).code() == match error {
            RuntimeError::OutcomeUnknown => 0int,
            RuntimeError::MailboxFull => 1,
            RuntimeError::ActivationFailed => 2,
            RuntimeError::ActorDeactivating => 3,
            RuntimeError::RuntimeAtCapacity => 4,
            RuntimeError::RuntimeShuttingDown => 5,
            RuntimeError::ActorStopped => 6,
            RuntimeError::RuntimeStopped => 7,
            RuntimeError::RemoteProtocol => 8,
            RuntimeError::ActorTypeNotRegistered => 9,
            RuntimeError::CommandNotRegistered => 10,
            RuntimeError::MalformedPayload => 11,
            RuntimeError::NodeFenced => 12,
            RuntimeError::RemoteUnavailable => 13,
            RuntimeError::OwnershipUnavailable => 14,
            RuntimeError::NotOwner => 15,
        },
        error_of(failure_from_code(0)) == RuntimeError::RemoteProtocol,
{
}

/// The caller of a command learns of a runtime error by its name. That a Server is not the
/// Owner is its own affair, and reads as ownership that cannot be told; errors of the
/// protocol say which side of it failed.
pub proof fn law_callers_learn_the_error<E>(error: RuntimeError)
    ensures
        ({
            let told = send_error_of::<E>(error);
            &&& told is ActorStopped <==> error == RuntimeError::ActorStopped
            &&& told is RuntimeStopped <==> error == RuntimeError::RuntimeStopped
            &&& told is NodeFenced <==> error == RuntimeError::NodeFenced
            &&& told is MailboxFull <==> error == RuntimeError::MailboxFull
            &&& told is ActivationFailed <==> error == RuntimeError::ActivationFailed
            &&& told is ActorDeactivating <==> error == RuntimeError::ActorDeactivating
            &&& told is RuntimeAtCapacity <==> error == RuntimeError::RuntimeAtCapacity
            &&& told is RuntimeShuttingDown <==> error == RuntimeError::RuntimeShuttingDown
            &&& told is RemoteUnavailable <==> error == RuntimeError::RemoteUnavailable
            &&& told is OwnershipUnavailable <==> error == RuntimeError::OwnershipUnavailable
                || error == RuntimeError::NotOwner
            &&& told is OutcomeUnknown <==> error == RuntimeError::OutcomeUnknown
            &&& told == SendError::<E>::RemoteProtocol(RemoteProtocolError::VersionMismatch)
                <==> error == RuntimeError::RemoteProtocol
            &&& told == SendError::<E>::RemoteProtocol(RemoteProtocolError::ActorTypeNotRegistered)
                <==> error == RuntimeError::ActorTypeNotRegistered
            &&& told == SendError::<E>::RemoteProtocol(RemoteProtocolError::CommandNotRegistered)
                <==> error == RuntimeError::CommandNotRegistered
            &&& told == SendError::<E>::RemoteProtocol(RemoteProtocolError::MalformedRequest)
                <==> error == RuntimeError::MalformedPayload
        }),
{
}

/// A mailbox that can be made holds at least one command and no more than the bound, and
/// its Actor has an idle timeout.
pub proof fn law_usable_registrations(registration: Registration)
    ensures
        usable(registration) <==> registration.mailbox_capacity is Some
            && registration.mailbox_capacity->0 > 0 && registration.mailbox_capacity->0
            <= MAX_MAILBOX_CAPACITY && registration.idle_timeout is Some,
{
}

/// A running runtime whose authority stands admits commands; any other says why it does
/// not, and a lost authority comes before everything else.
pub proof fn law_closed_runtimes_say_why(
    status: Status,
    authority: Option<AuthorityView>,
    now: u64,
)
    ensures
        ({
            let lost = authority is Some && !(authority->0.unfenced && now < authority->0.deadline);
            let closed = closed_to_commands(status, authority, now);
            &&& lost ==> closed == Some(RuntimeError::NodeFenced)
            &&& !lost ==> {
                &&& status == Status::Running ==> closed is None
                &&& status == Status::ShuttingDown ==> closed == Some(
                    RuntimeError::RuntimeShuttingDown,
                )
                &&& status == Status::Fenced ==> closed == Some(RuntimeError::NodeFenced)
                &&& status == Status::Stopped ==> closed == Some(RuntimeError::RuntimeStopped)
            }
        }),
{
}

/// A runtime may answer for its Actors exactly if it was not fenced and its authority, where
/// it has one, stands.
pub proof fn law_fenced_runtimes_do_not_answer<C, T>(runtime: RuntimeInner<C, T>, now: u64)
    ensures
        runtime.may_answer(now) <==> runtime.status != Status::Fenced && (
        runtime.authority matches Some(authority) ==> authority@.unfenced && now
            < authority@.deadline),
{
}

/// A command is sent exactly if a mailbox took it. Otherwise it comes back to be failed with
/// the error that its sender gets, which says why. An Actor is started exactly if the
/// dispatch made a route.
pub proof fn law_senders_learn_what_became_of_a_command<C>(outcome: Dispatch<C>)
    ensures
        ({
            let told = sent_of(outcome);
            &&& told.result is Ok <==> outcome is Accepted || (outcome is Spawned && outcome->offer
                is Taken)
            &&& told.failed is Some <==> told.result is Err
            &&& told.result matches Err(error) ==> (told.failed->0).1 == error
            &&& told.spawn is Some <==> outcome is Spawned
            &&& outcome matches Dispatch::Spawned { generation, receiver, offer } ==> {
                &&& told.spawn->0.generation == generation
                &&& told.spawn->0.receiver == receiver
                &&& offer matches Offer::Full(command) ==> told.failed == Some(
                    (command, RuntimeError::MailboxFull),
                )
                &&& offer matches Offer::Closed(command) ==> told.failed == Some(
                    (command, RuntimeError::ActorStopped),
                )
            }
            &&& outcome matches Dispatch::Refused { reason, message } ==> {
                &&& reason == Refusal::MailboxFull ==> told.failed == Some(
                    (message, RuntimeError::MailboxFull),
                )
                &&& reason == Refusal::ActorDeactivating ==> told.failed == Some(
                    (message, RuntimeError::ActorDeactivating),
                )
                &&& reason == Refusal::AtCapacity ==> told.failed == Some(
                    (message, RuntimeError::RuntimeAtCapacity),
                )
            }
        }),
{
}

/// A closed runtime sends nothing: the command is failed with the reason, no Actor is
/// started, and no route changes. A reservation is given up all the same.
pub proof fn law_closed_runtimes_send_nothing<C, T>(
    runtime: RuntimeInner<C, T>,
    after: TableView<AddressView, C, T>,
    address: AddressView,
    command: C,
    reserved: bool,
    now: u64,
    out: Sent<C>,
)
    requires
        sends(runtime, after, address, command, reserved, now, out),
        runtime.status != Status::Running || (runtime.authority matches Some(authority) && !(
        authority@.unfenced && now < authority@.deadline)),
        reserved ==> runtime.routes@.reserved > 0,
    ensures
        out.result is Err,
        out.failed == Some((command, out.result->Err_0)),
        out.spawn is None,
        after.routes == runtime.routes@.routes,
        after.reserved == runtime.routes@.reserved - if reserved {
            1int
        } else {
            0
        },
{
}

/// A running runtime with room starts an Actor for a command to an address without one: with
/// a mailbox of the registered size.
pub proof fn law_open_runtimes_start_actors<C, T>(
    runtime: RuntimeInner<C, T>,
    after: TableView<AddressView, C, T>,
    address: AddressView,
    command: C,
    now: u64,
    out: Sent<C>,
)
    requires
        sends(runtime, after, address, command, false, now, out),
        runtime.status == Status::Running,
        runtime.authority matches Some(authority) ==> authority@.unfenced && now
            < authority@.deadline,
        runtime.routes@.bounded(),
        !runtime.routes@.routes.dom().contains(address),
    ensures
        runtime.routes@.routes.dom().len() + runtime.routes@.reserved == runtime.routes@.maximum
            ==> out.failed == Some((command, RuntimeError::RuntimeAtCapacity)) && out.spawn is None
            && after == runtime.routes@,
        runtime.routes@.routes.dom().len() + runtime.routes@.reserved < runtime.routes@.maximum ==> {
            &&& out.spawn is Some
            &&& out.spawn->0.generation == runtime.routes@.next_generation
            &&& after.routes.dom() == runtime.routes@.routes.dom().insert(address)
            &&& after.routes[address].sender@.capacity
                == runtime.registrations@[address.actor_type].mailbox_capacity->0
            &&& after.routes[address].sender@.channel == out.spawn->0.receiver@.channel
        },
{
    let (answer, outcome) = choose|answer: Offer<C>, outcome: Dispatch<C>|
        answer.gives_back(command) && out == sent_of(outcome) && #[trigger] dispatched(
            runtime.routes@,
            after,
            address,
            command,
            false,
            runtime.capacity_of(address.actor_type),
            answer,
            outcome,
        );
    crate::runtime::route::law_a_message_starts_its_actor(
        runtime.routes@,
        after,
        address,
        command,
        false,
        runtime.capacity_of(address.actor_type),
        answer,
        outcome,
    );
}

/// The end of a task removes its own route and frees its permit; a later route at the same
/// address stays.
pub proof fn law_command_tasks_free_their_permit<C, T>(
    table: TableView<AddressView, C, T>,
    task: CommandTaskView,
)
    requires
        table.routes.dom().finite(),
    ensures
        ({
            let after = without_route(table, task);
            let own = table.routes.dom().contains(task.address)
                && table.routes[task.address].generation == task.generation;
            &&& own ==> after.routes == table.routes.remove(task.address) && after.available()
                == table.available() + 1
            &&& !own ==> after == table
            &&& after.reserved == table.reserved && after.maximum == table.maximum
        }),
{
    assert(table.routes.remove(task.address).dom() =~= table.routes.dom().remove(task.address));
}

/// Commands are failed one by one, in their order, all with the one error.
pub proof fn law_commands_are_failed_in_order<C>(commands: Seq<C>, error: RuntimeError, i: int)
    requires
        0 <= i < commands.len(),
    ensures
        all_failed(commands, error).len() == commands.len(),
        all_failed(commands, error)[i] == (commands[i], error),
{
}

/// An Actor whose activation ended well serves. One that failed is gone, with its route, and
/// every command that waits is failed: with the failure of the activation, or because the
/// Actor stopped.
pub proof fn law_failed_activations_fail_commands<C, F, T>(
    before: RuntimeInner<C, T>,
    after: RuntimeInner<C, T>,
    task: CommandTaskView,
    next: CommandTaskView,
    activation: Activation,
    pending: Seq<C>,
    step: CommandStep<C, F>,
    i: int,
)
    requires
        activation_handled(before, after, task, next, activation, pending, step),
    ensures
        activation == Activation::Ready ==> next.phase == TaskPhase::Serving && step.action
            == TaskAction::Receive && step.failed@.len() == 0 && after == before,
        activation != Activation::Ready ==> {
            &&& next.phase == TaskPhase::Finished && step.action == TaskAction::Finish
            &&& step.failed@.len() == pending.len()
            &&& 0 <= i < pending.len() ==> step.failed@[i] == (
                pending[i],
                if activation == Activation::Failed {
                    RuntimeError::ActivationFailed
                } else {
                    RuntimeError::ActorStopped
                },
            )
            &&& before.routes@.routes.dom().contains(task.address)
                && before.routes@.routes[task.address].generation == task.generation
                ==> !after.routes@.routes.dom().contains(task.address)
        },
        step.panicked is None,
        next.address == task.address && next.generation == task.generation,
{
}

/// An Actor goes on after a command exactly if the handler did not panic and the authority
/// stands: to the next command, or to what is left at shutdown. Otherwise it is gone, with
/// its route, and the commands that wait are failed because the Actor stopped or because the
/// node was fenced.
pub proof fn law_panics_and_fencing_stop_the_actor<C, F, T>(
    before: RuntimeInner<C, T>,
    after: RuntimeInner<C, T>,
    task: CommandTaskView,
    next: CommandTaskView,
    outcome: CommandOutcome<F>,
    pending: Seq<C>,
    now: u64,
    step: CommandStep<C, F>,
    i: int,
)
    requires
        execution_handled(before, after, task, next, outcome, pending, now, step),
        task.phase == TaskPhase::Serving || task.phase == TaskPhase::Draining,
    ensures
        ({
            let stands = before.authority matches Some(authority) ==> authority@.unfenced && now
                < authority@.deadline;
            &&& outcome is Completed && stands ==> {
                &&& next == task && after == before
                &&& step.failed@.len() == 0 && step.panicked is None
                &&& task.phase == TaskPhase::Serving ==> step.action == TaskAction::Receive
                &&& task.phase == TaskPhase::Draining ==> step.action == TaskAction::Drain
            }
            &&& !(outcome is Completed && stands) ==> {
                &&& next.phase == TaskPhase::Finished && step.action == TaskAction::Finish
                &&& step.failed@.len() == pending.len()
                &&& 0 <= i < pending.len() ==> step.failed@[i] == (
                    pending[i],
                    if outcome is Completed {
                        RuntimeError::NodeFenced
                    } else {
                        RuntimeError::ActorStopped
                    },
                )
                &&& before.routes@.routes.dom().contains(task.address)
                    && before.routes@.routes[task.address].generation == task.generation
                    ==> !after.routes@.routes.dom().contains(task.address)
            }
            &&& outcome matches CommandOutcome::Panicked(handle) ==> step.panicked == Some(handle)
        }),
{
}

/// An Actor with an empty mailbox is deactivated when the idle timeout has passed; one with a
/// command left goes on.
pub proof fn law_idle_command_actors_are_passivated<C, F, T>(
    before: TableView<AddressView, C, T>,
    after: TableView<AddressView, C, T>,
    task: CommandTaskView,
    next: CommandTaskView,
    free: usize,
    limit: nat,
    step: CommandStep<C, F>,
)
    requires
        idle_handled(before, after, task, next, free, limit, step),
        task.phase == TaskPhase::Serving,
        before.routes.dom().contains(task.address),
        before.routes[task.address].generation == task.generation,
    ensures
        step.action == TaskAction::Deactivate(DeactivationReason::Idle) <==> free == limit,
        step.action != TaskAction::Deactivate(DeactivationReason::Idle) ==> step.action
            == TaskAction::Receive && next == task && after == before,
        step.action == TaskAction::Deactivate(DeactivationReason::Idle) ==> after.routes[
            task.address
        ].state != crate::runtime::route::RouteState::Active && next.phase
            == TaskPhase::Deactivating(DeactivationReason::Idle) && next.address == task.address
            && next.generation == task.generation,
        step.failed@.len() == 0 && step.panicked is None,
{
}

/// Where nothing but the routes of a runtime is said to change, its configuration, its status
/// and its authority stay.
pub proof fn law_runtimes_keep_what_they_are<C, T>(
    before: RuntimeInner<C, T>,
    after: RuntimeInner<C, T>,
)
    requires
        after.same_but_routes(&before),
    ensures
        after.registrations == before.registrations,
        after.status == before.status,
        after.authority == before.authority,
        after.distributed == before.distributed,
        after.deactivation_timeout == before.deactivation_timeout,
        after.shutdown_timeout == before.shutdown_timeout,
        after.peer_protocol_version == before.peer_protocol_version,
{
}

/// A quiet step tells nobody anything.
pub proof fn law_quiet_steps_tell_nobody<C, F>(step: CommandStep<C, F>, action: TaskAction)
    requires
        step.quiet(action),
    ensures
        step.action == action,
        step.failed@.len() == 0,
        step.panicked is None,
{
}

} // verus!
