//! Commands that cross from one runtime to another.

use vstd::prelude::*;
use vstd::string::*;

use crate::command::api::{ActorAddress, ActorId, AddressView, SendError};
use crate::command::ownership::{resolve_local, DistributedContext, ResolvedOwner};
use crate::command::runtime::{error_of, failure_of, sends, RuntimeError, RuntimeInner, Sent};
use crate::keyed::Key;
use crate::runtime::server::Status;
use crate::transport_protocol::failure_from_code;

verus! {

/// What a remote runtime gave for a command.
#[derive(Clone, Debug, PartialEq, Eq)]
pub enum RemotePayload {
    Success(Vec<u8>),
    HandlerError(Vec<u8>),
}

/// A command on its way to a remote runtime.
pub struct RemoteCall {
    pub command: &'static str,
    pub payload: Vec<u8>,
}

/// Where a command was executed.
pub enum DispatchOutcome {
    Local,
    Remote(RemotePayload),
}

/// Why a command that came from a remote caller has no reply.
pub enum RemoteReplyError {
    Handler(Vec<u8>),
    Runtime(RuntimeError),
}

/// A command that came from a remote caller, and the host's handle on its reply.
pub struct RemoteInvocation<C, F> {
    pub command: C,
    pub reply: F,
}

/// A request from a remote caller.
pub struct InvokeRequest {
    pub protocol_version: u32,
    pub actor_type: String,
    pub actor_id: Vec<u8>,
    pub command: String,
    pub payload: Vec<u8>,
}

/// The answer to a remote caller.
#[derive(Clone, Debug, PartialEq, Eq)]
pub enum InvokeOutcome {
    Success(Vec<u8>),
    HandlerError(Vec<u8>),
    RuntimeFailure(i32),
}

/// The answer that reports a runtime error.
pub fn runtime_failure(error: RuntimeError) -> (outcome: InvokeOutcome)
    requires
        error != RuntimeError::OutcomeUnknown,
    ensures
        outcome == InvokeOutcome::RuntimeFailure(failure_of(error).code()),
{
    InvokeOutcome::RuntimeFailure(error.to_wire())
}

/// What became of a call to a remote runtime.
pub enum InvokeReply {
    /// There was no connection.
    NotConnected,
    /// The call was lost: nobody knows whether the command was executed.
    Lost,
    /// The answer, if it holds one.
    Answered(Option<InvokeOutcome>),
}

/// What the caller of a remote command learns. Only a call that certainly did not
/// reach the runtime counts as unavailable.
pub open spec fn remote_result(reply: InvokeReply) -> Result<RemotePayload, RuntimeError> {
    match reply {
        InvokeReply::NotConnected => Err(RuntimeError::RemoteUnavailable),
        InvokeReply::Lost => Err(RuntimeError::OutcomeUnknown),
        InvokeReply::Answered(None) => Err(RuntimeError::RemoteProtocol),
        InvokeReply::Answered(Some(InvokeOutcome::Success(bytes))) => Ok(
            RemotePayload::Success(bytes),
        ),
        InvokeReply::Answered(Some(InvokeOutcome::HandlerError(bytes))) => Ok(
            RemotePayload::HandlerError(bytes),
        ),
        InvokeReply::Answered(Some(InvokeOutcome::RuntimeFailure(failure))) => Err(
            error_of(failure_from_code(failure)),
        ),
    }
}

/// What the caller of a remote command learns.
pub fn read_reply(reply: InvokeReply) -> (result: Result<RemotePayload, RuntimeError>)
    ensures
        result == remote_result(reply),
{
    match reply {
        InvokeReply::NotConnected => Err(RuntimeError::RemoteUnavailable),
        InvokeReply::Lost => Err(RuntimeError::OutcomeUnknown),
        InvokeReply::Answered(outcome) => match outcome {
            None => Err(RuntimeError::RemoteProtocol),
            Some(InvokeOutcome::Success(bytes)) => Ok(RemotePayload::Success(bytes)),
            Some(InvokeOutcome::HandlerError(bytes)) => Ok(RemotePayload::HandlerError(bytes)),
            Some(InvokeOutcome::RuntimeFailure(failure)) => Err(RuntimeError::from_wire(failure)),
        },
    }
}

/// Where the commands of a reference go.
pub enum ActorRefTarget {
    /// To the runtime that the reference was made by.
    Local,
    /// To the runtime at this endpoint.
    Remote { endpoint: String, protocol_version: u32 },
}

/// A reference to an Actor.
pub struct ActorRef {
    pub target: ActorRefTarget,
    pub address: ActorAddress,
}

impl Clone for ActorRef {
    fn clone(&self) -> (copy: Self)
        ensures
            copy.address@ == self.address@,
            match self.target {
                ActorRefTarget::Local => copy.target is Local,
                ActorRefTarget::Remote { endpoint, protocol_version } => copy.target matches ActorRefTarget::Remote {
                    endpoint: e,
                    protocol_version: v,
                } && e@ == endpoint@ && v == protocol_version,
            },
    {
        ActorRef {
            target: match &self.target {
                ActorRefTarget::Local => ActorRefTarget::Local,
                ActorRefTarget::Remote { endpoint, protocol_version } => ActorRefTarget::Remote {
                    endpoint: endpoint.clone(),
                    protocol_version: *protocol_version,
                },
            },
            address: self.address.duplicate(),
        }
    }
}

impl ActorRef {
    /// Why a command cannot be sent through the reference to a local Actor, if it
    /// cannot. `alive` tells whether the runtime is still there.
    pub fn refuses_local(&self, alive: bool) -> (error: Option<RuntimeError>)
        ensures
            error == match self.target {
                ActorRefTarget::Remote { .. } => Some(RuntimeError::RemoteUnavailable),
                ActorRefTarget::Local => if alive {
                    None
                } else {
                    Some(RuntimeError::RuntimeStopped)
                },
            },
    {
        match &self.target {
            ActorRefTarget::Remote { .. } => Some(RuntimeError::RemoteUnavailable),
            ActorRefTarget::Local => if alive {
                None
            } else {
                Some(RuntimeError::RuntimeStopped)
            },
        }
    }

    /// What the caller of a command learns whose reply never came. `status` is
    /// that of the runtime, if it is still there.
    pub fn reply_channel_closed_error<E>(&self, status: Option<Status>) -> (error: SendError<E>)
        ensures
            error == if self.target is Local && status == Some(Status::Fenced) {
                SendError::<E>::NodeFenced
            } else {
                SendError::<E>::ActorStopped
            },
    {
        match (&self.target, status) {
            (ActorRefTarget::Local, Some(Status::Fenced)) => SendError::NodeFenced,
            _ => SendError::ActorStopped,
        }
    }

    /// Whether a reply counts: a local runtime that lost its authority meanwhile
    /// cannot vouch for it. `authority` is what the runtime has, if it is still
    /// there.
    pub fn ensure_reply_authority<E>(&self, authority: Option<bool>) -> (result: Result<
        (),
        SendError<E>,
    >)
        ensures
            result == match self.target {
                ActorRefTarget::Remote { .. } => Ok::<(), SendError<E>>(()),
                ActorRefTarget::Local => match authority {
                    None => Err(SendError::RuntimeStopped),
                    Some(true) => Ok(()),
                    Some(false) => Err(SendError::NodeFenced),
                },
            },
    {
        match &self.target {
            ActorRefTarget::Remote { .. } => Ok(()),
            ActorRefTarget::Local => match authority {
                None => Err(SendError::RuntimeStopped),
                Some(true) => Ok(()),
                Some(false) => Err(SendError::NodeFenced),
            },
        }
    }
}

/// Where a command goes, once that is settled.
pub enum RouteDecision {
    /// To an Actor of this runtime. `reserved` tells whether there is a
    /// reservation for its route.
    Local { reserved: bool },
    /// It was executed by a remote runtime.
    Remote(RemotePayload),
}

/// The next operation of routing a command.
pub enum RemoteAction {
    /// Find out who owns the Actor.
    Resolve,
    /// Call the runtime at this endpoint. A runtime that was found by resolution
    /// has to be connected to within the connect timeout.
    Invoke { endpoint: String, protocol_version: u32, bounded: bool },
    /// It is settled.
    Finish(Result<RouteDecision, RuntimeError>),
}

/// The routing of a command in progress: which attempt it is, and whether it was
/// found by resolution.
#[derive(Clone, Copy, Debug, PartialEq, Eq, Structural)]
pub struct RemoteRouting {
    pub resolving: bool,
    pub attempt: u8,
}

/// A remote runtime that may no longer own the Actor is asked to give way to
/// another resolution once.
pub open spec fn retried(routing: RemoteRouting, error: RuntimeError) -> bool {
    routing.resolving && routing.attempt == 0 && (error == RuntimeError::RemoteUnavailable || error
        == RuntimeError::NotOwner)
}

impl RemoteRouting {
    /// Starts to route a command through a reference. `distributed` tells whether
    /// the runtime of the reference takes part in a cluster, if it is still there.
    pub fn begin(actor: &ActorRef, distributed: Option<bool>) -> (start: (Self, RemoteAction))
        ensures
            match actor.target {
                ActorRefTarget::Remote { endpoint, protocol_version } => {
                    &&& start.0 == (RemoteRouting { resolving: false, attempt: 0 })
                    &&& start.1 matches RemoteAction::Invoke {
                        endpoint: e,
                        protocol_version: v,
                        bounded,
                    } && e@ == endpoint@ && v == protocol_version && !bounded
                },
                ActorRefTarget::Local => {
                    &&& start.0 == (RemoteRouting { resolving: true, attempt: 0 })
                    &&& start.1 == match distributed {
                        None => RemoteAction::Finish(Err(RuntimeError::RuntimeStopped)),
                        Some(false) => RemoteAction::Finish(
                            Ok(RouteDecision::Local { reserved: false }),
                        ),
                        Some(true) => RemoteAction::Resolve,
                    }
                },
            },
    {
        match &actor.target {
            ActorRefTarget::Remote { endpoint, protocol_version } => (
                RemoteRouting { resolving: false, attempt: 0 },
                RemoteAction::Invoke {
                    endpoint: endpoint.clone(),
                    protocol_version: *protocol_version,
                    bounded: false,
                },
            ),
            ActorRefTarget::Local => {
                let action = match distributed {
                    None => RemoteAction::Finish(Err(RuntimeError::RuntimeStopped)),
                    Some(false) => RemoteAction::Finish(
                        Ok(RouteDecision::Local { reserved: false }),
                    ),
                    Some(true) => RemoteAction::Resolve,
                };
                (RemoteRouting { resolving: true, attempt: 0 }, action)
            },
        }
    }

    /// Goes on with who owns the Actor.
    pub fn resolved(&mut self, result: Result<ResolvedOwner, RuntimeError>) -> (action:
        RemoteAction)
        ensures
            *final(self) == *old(self),
            action == match result {
                Ok(ResolvedOwner::Local { reserved }) => RemoteAction::Finish(
                    Ok(RouteDecision::Local { reserved }),
                ),
                Ok(ResolvedOwner::Remote { endpoint, protocol_version }) => RemoteAction::Invoke {
                    endpoint,
                    protocol_version,
                    bounded: true,
                },
                Err(error) => RemoteAction::Finish(Err(error)),
            },
    {
        match result {
            Ok(ResolvedOwner::Local { reserved }) => RemoteAction::Finish(
                Ok(RouteDecision::Local { reserved }),
            ),
            Ok(ResolvedOwner::Remote { endpoint, protocol_version }) => RemoteAction::Invoke {
                endpoint,
                protocol_version,
                bounded: true,
            },
            Err(error) => RemoteAction::Finish(Err(error)),
        }
    }

    /// Goes on with what the remote runtime gave. What is remembered of the Owner
    /// is forgotten before another resolution.
    pub fn invoked(
        &mut self,
        context: &mut DistributedContext,
        address: &ActorAddress,
        reply: InvokeReply,
    ) -> (action: RemoteAction)
        requires
            old(context).wf(),
        ensures
            final(context).wf(),
            final(context).me() == old(context).me(),
            match remote_result(reply) {
                Ok(payload) => {
                    &&& action == RemoteAction::Finish(Ok(RouteDecision::Remote(payload)))
                    &&& *final(self) == *old(self)
                    &&& final(context).remembered() == old(context).remembered()
                },
                Err(error) => if retried(*old(self), error) {
                    &&& action == RemoteAction::Resolve
                    &&& *final(self) == (RemoteRouting { attempt: 1, ..*old(self) })
                    &&& final(context).remembered() == old(context).remembered().remove(address@)
                } else {
                    &&& action == RemoteAction::Finish(Err(error))
                    &&& *final(self) == *old(self)
                    &&& final(context).remembered() == old(context).remembered()
                },
            },
    {
        match read_reply(reply) {
            Ok(payload) => RemoteAction::Finish(Ok(RouteDecision::Remote(payload))),
            Err(error) => {
                let stale = error == RuntimeError::RemoteUnavailable || error
                    == RuntimeError::NotOwner;
                if self.resolving && self.attempt == 0 && stale {
                    context.invalidate(address);
                    self.attempt = 1;
                    RemoteAction::Resolve
                } else {
                    RemoteAction::Finish(Err(error))
                }
            },
        }
    }
}

/// A command whose outcome is unknown is never sent again: another try follows
/// only on errors that say it was not executed, and only once.
pub proof fn law_commands_are_sent_at_most_twice(routing: RemoteRouting, reply: InvokeReply)
    ensures
        remote_result(reply) matches Err(error) ==> {
            &&& error == RuntimeError::OutcomeUnknown ==> !retried(routing, error)
            &&& !retried(RemoteRouting { attempt: 1, ..routing }, error)
        },
{
}

/// What a request from a remote caller comes to before anything is executed.
pub open spec fn admission<C, T>(runtime: RuntimeInner<C, T>, request: InvokeRequest) -> Option<
    RuntimeError,
> {
    if request.protocol_version != runtime.peer_protocol_version {
        Some(RuntimeError::RemoteProtocol)
    } else if !runtime.registered(request.actor_type@) {
        Some(RuntimeError::ActorTypeNotRegistered)
    } else if !takes_command(runtime.registrations@[request.actor_type@], request.command@) {
        Some(RuntimeError::CommandNotRegistered)
    } else {
        None
    }
}

/// An Actor Type takes a command from remote callers.
pub open spec fn takes_command(
    registration: crate::command::runtime::Registration,
    command: Seq<char>,
) -> bool {
    exists|i: int|
        0 <= i < registration.remote_commands@.len() && (
        #[trigger] registration.remote_commands@[i])@ == command
}

fn is_taken(registration: &crate::command::runtime::Registration, command: &String) -> (taken: bool)
    ensures
        taken == takes_command(*registration, command@),
{
    let mut i: usize = 0;
    while i < registration.remote_commands.len()
        invariant
            i <= registration.remote_commands@.len(),
            forall|j: int|
                0 <= j < i ==> (#[trigger] registration.remote_commands@[j])@ != command@,
        decreases registration.remote_commands@.len() - i,
    {
        let name = registration.remote_commands[i].to_owned();
        if name == *command {
            assert(registration.remote_commands@[i as int]@ == command@);
            return true;
        }
        i += 1;
    }
    false
}

/// Checks a request from a remote caller: the address of the Actor it is for, or
/// the answer that refuses it.
pub fn check_request<C, T>(runtime: &RuntimeInner<C, T>, request: &InvokeRequest) -> (admitted: Result<
    ActorAddress,
    InvokeOutcome,
>)
    requires
        runtime.wf(),
    ensures
        match admission(*runtime, *request) {
            None => admitted matches Ok(address) && address@ == (AddressView {
                actor_type: request.actor_type@,
                actor_id: request.actor_id@,
            }),
            Some(error) => admitted == Err::<ActorAddress, InvokeOutcome>(
                InvokeOutcome::RuntimeFailure(failure_of(error).code()),
            ),
        },
{
    if request.protocol_version != runtime.peer_protocol_version {
        return Err(runtime_failure(RuntimeError::RemoteProtocol));
    }
    match runtime.registrations.get(&request.actor_type) {
        Some(registration) => {
            if !is_taken(registration, &request.command) {
                return Err(runtime_failure(RuntimeError::CommandNotRegistered));
            }
            Ok(
                ActorAddress::new(
                    request.actor_type.clone(),
                    ActorId::new(crate::runtime::inbound::copy_bytes(&request.actor_id)),
                ),
            )
        },
        None => Err(runtime_failure(RuntimeError::ActorTypeNotRegistered)),
    }
}

/// The next operation of serving a request from a remote caller.
pub enum ServeAction {
    /// Find out whether this runtime owns the Actor.
    Resolve,
    /// Send the command. `reserved` tells whether there is a reservation for the
    /// route.
    Send { reserved: bool },
    /// Answer the caller.
    Answer(InvokeOutcome),
}

/// Goes on with a request once its command was made of its payload, or could not
/// be made.
pub fn command_made<C, T>(runtime: &RuntimeInner<C, T>, made: Result<(), RuntimeError>) -> (action:
    ServeAction)
    requires
        made != Err::<(), RuntimeError>(RuntimeError::OutcomeUnknown),
    ensures
        action == match made {
            Err(error) => ServeAction::Answer(
                InvokeOutcome::RuntimeFailure(failure_of(error).code()),
            ),
            Ok(()) => if runtime.distributed {
                ServeAction::Resolve
            } else {
                ServeAction::Send { reserved: false }
            },
        },
{
    match made {
        Err(error) => ServeAction::Answer(runtime_failure(error)),
        Ok(()) => if runtime.distributed {
            ServeAction::Resolve
        } else {
            ServeAction::Send { reserved: false }
        },
    }
}

/// Goes on with a request once the runtime knows who owns the Actor: only its
/// own Actors are served.
pub fn request_resolved(result: Result<ResolvedOwner, RuntimeError>) -> (action: ServeAction)
    requires
        result != Err::<ResolvedOwner, RuntimeError>(RuntimeError::OutcomeUnknown),
    ensures
        action == match result {
            Ok(ResolvedOwner::Local { reserved }) => ServeAction::Send { reserved },
            Ok(ResolvedOwner::Remote { .. }) => ServeAction::Answer(
                InvokeOutcome::RuntimeFailure(failure_of(RuntimeError::NotOwner).code()),
            ),
            Err(error) => ServeAction::Answer(
                InvokeOutcome::RuntimeFailure(failure_of(error).code()),
            ),
        },
{
    match resolve_local(result) {
        Ok(reserved) => ServeAction::Send { reserved },
        Err(error) => ServeAction::Answer(runtime_failure(error)),
    }
}

/// Sends the command of a request to its Actor. A refusal is answered at once;
/// otherwise the host awaits the reply.
pub fn send_request<C, T>(
    runtime: &mut RuntimeInner<C, T>,
    address: &ActorAddress,
    command: C,
    reserved: bool,
    now: u64,
) -> (out: (Sent<C>, Option<InvokeOutcome>))
    requires
        old(runtime).wf(),
        old(runtime).registered(address@.actor_type),
        reserved ==> old(runtime).routes@.reserved > 0,
    ensures
        final(runtime).wf(),
        final(runtime).same_but_routes(old(runtime)),
        sends(*old(runtime), final(runtime).routes@, address@, command, reserved, now, out.0),
        out.1 == match out.0.result {
            Ok(()) => None::<InvokeOutcome>,
            Err(error) => Some(InvokeOutcome::RuntimeFailure(failure_of(error).code())),
        },
{
    let sent = runtime.send_with_reservation(address, command, reserved, now);
    let refusal = match &sent.result {
        Ok(()) => None,
        Err(error) => Some(runtime_failure(*error)),
    };
    (sent, refusal)
}

/// The answer to a remote caller once its command has a reply. A runtime that
/// lost its authority meanwhile cannot vouch for it.
pub fn reply_outcome<C, T>(
    runtime: &RuntimeInner<C, T>,
    reply: Result<Vec<u8>, RemoteReplyError>,
    now: u64,
) -> (outcome: InvokeOutcome)
    requires
        reply matches Err(RemoteReplyError::Runtime(error)) ==> error
            != RuntimeError::OutcomeUnknown,
    ensures
        outcome == if !runtime.may_answer(now) {
            InvokeOutcome::RuntimeFailure(failure_of(RuntimeError::NodeFenced).code())
        } else {
            match reply {
                Ok(bytes) => InvokeOutcome::Success(bytes),
                Err(RemoteReplyError::Handler(bytes)) => InvokeOutcome::HandlerError(bytes),
                Err(RemoteReplyError::Runtime(error)) => InvokeOutcome::RuntimeFailure(
                    failure_of(error).code(),
                ),
            }
        },
{
    if !runtime.has_authority(now) {
        return runtime_failure(RuntimeError::NodeFenced);
    }
    match reply {
        Ok(bytes) => InvokeOutcome::Success(bytes),
        Err(RemoteReplyError::Handler(bytes)) => InvokeOutcome::HandlerError(bytes),
        Err(RemoteReplyError::Runtime(error)) => runtime_failure(error),
    }
}

/// A remote caller reads what the runtime answered: success and handler errors
/// as they are, and every runtime error as itself.
pub proof fn law_the_caller_reads_what_the_runtime_answered(error: RuntimeError, bytes: Vec<u8>)
    requires
        error != RuntimeError::OutcomeUnknown,
    ensures
        remote_result(
            InvokeReply::Answered(Some(InvokeOutcome::RuntimeFailure(failure_of(error).code()))),
        ) == Err::<RemotePayload, RuntimeError>(error),
        remote_result(InvokeReply::Answered(Some(InvokeOutcome::Success(bytes)))) == Ok::<
            RemotePayload,
            RuntimeError,
        >(RemotePayload::Success(bytes)),
        remote_result(InvokeReply::Answered(Some(InvokeOutcome::HandlerError(bytes)))) == Ok::<
            RemotePayload,
            RuntimeError,
        >(RemotePayload::HandlerError(bytes)),
{
}

/// The caller of a remote command learns that it succeeded only from an answer that says so.
/// A call without a connection was not executed; one that was lost may have been.
pub proof fn law_remote_calls_are_judged_by_their_answer(reply: InvokeReply)
    ensures
        remote_result(reply) is Ok <==> reply is Answered && reply->Answered_0 is Some && !(
        reply->Answered_0->0 is RuntimeFailure),
        reply is NotConnected ==> remote_result(reply) == Err::<RemotePayload, RuntimeError>(
            RuntimeError::RemoteUnavailable,
        ),
        remote_result(reply) == Err::<RemotePayload, RuntimeError>(RuntimeError::OutcomeUnknown)
            <==> reply is Lost,
        reply is Answered && reply->Answered_0 is None ==> remote_result(reply) == Err::<
            RemotePayload,
            RuntimeError,
        >(RuntimeError::RemoteProtocol),
{
}

/// A command is routed anew exactly if its Owner was found by resolution, this was the first
/// attempt, and the runtime was not reached or said that it is not the Owner.
pub proof fn law_stale_owners_are_asked_once(routing: RemoteRouting, error: RuntimeError)
    ensures
        retried(routing, error) <==> routing.resolving && routing.attempt == 0 && (error
            == RuntimeError::RemoteUnavailable || error == RuntimeError::NotOwner),
        error == RuntimeError::RemoteUnavailable && routing == (RemoteRouting {
            resolving: true,
            attempt: 0,
        }) ==> retried(routing, error),
{
}

/// A request is admitted exactly if it speaks the runtime's version and names a registered
/// Actor Type that takes the command. A refusal names the first of these that fails.
pub proof fn law_requests_are_admitted<C, T>(
    runtime: RuntimeInner<C, T>,
    request: InvokeRequest,
    i: int,
)
    ensures
        ({
            let known = runtime.registrations@.dom().contains(request.actor_type@);
            let commands = runtime.registrations@[request.actor_type@].remote_commands@;
            let refusal = admission(runtime, request);
            &&& request.protocol_version != runtime.peer_protocol_version ==> refusal == Some(
                RuntimeError::RemoteProtocol,
            )
            &&& request.protocol_version == runtime.peer_protocol_version && !known ==> refusal
                == Some(RuntimeError::ActorTypeNotRegistered)
            &&& request.protocol_version == runtime.peer_protocol_version && known && 0 <= i
                < commands.len() && commands[i]@ == request.command@ ==> refusal is None
            &&& refusal is None ==> exists|k: int|
                0 <= k < commands.len() && (#[trigger] commands[k])@ == request.command@
            &&& request.protocol_version == runtime.peer_protocol_version && known && refusal
                is Some ==> refusal == Some(RuntimeError::CommandNotRegistered)
        }),
{
}

} // verus!
