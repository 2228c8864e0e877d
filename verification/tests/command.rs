use coactor::cluster::authority::{ActorOwner, ActorOwnerRecord, NodeSessionId};
use coactor::cluster::endpoint::SocketText;
use coactor::cluster::node::NodeAuthority;
use coactor::command::api::{
    ActorAddress, ActorId, ActorRefError, ActorTypeConfig, BuildError, CommandContext,
    RemoteProtocolError, SendError,
};
use coactor::command::builder::{
    bound, finish_start, remote_actor_ref, with_peer_protocol_version, Runtime, RuntimeBuilder,
    StartedRuntime,
};
use coactor::command::lease::{
    terminated, AcquireReply, AcquireStep, AmbiguousMutation, DistributedRuntimeConfig,
    LeaseMutation, LeaseReply, LeaseTiming, NodeLease, OwnershipStorageError, RuntimeStartError,
    RuntimeStartup, RuntimeTermination, RuntimeTerminationReason, VersionedActorOwnerRecord,
    VersionedNodeLease,
};
use coactor::command::ownership::{
    DistributedContext, Resolution, ResolveAction, ResolvedOwner, StorageReply,
};
use coactor::command::remote::{
    check_request, command_made, read_reply, reply_outcome, request_resolved, send_request,
    ActorRef, ActorRefTarget, InvokeOutcome, InvokeReply, InvokeRequest, RemoteAction,
    RemotePayload, RemoteReplyError, RemoteRouting, RouteDecision, ServeAction,
};
use coactor::command::runtime::{
    CommandOutcome, CommandStep, CommandTask, RuntimeError, RuntimeInner, Sent,
};
use coactor::runtime::lifecycle::{Activation, TaskAction};
use coactor::runtime::route::RouteTable;
use coactor::runtime::server::Status;
use std::time::Duration;

type Routes = RouteTable<ActorAddress, (), ()>;
type Step = CommandStep<u32, &'static str>;

fn address() -> ActorAddress {
    ActorAddress::new("counter".into(), ActorId::from_text("a"))
}

fn runtime_with(capacity: usize, actors: usize) -> Runtime<u32, (), &'static str> {
    RuntimeBuilder::new("state")
        .mailbox_capacity(capacity)
        .max_active_actors(actors)
        .register("counter", vec!["add"])
        .build()
        .ok()
        .unwrap()
}

fn runtime() -> RuntimeInner<u32, ()> {
    runtime_with(2, 2).inner
}

fn life(text: &str) -> NodeSessionId {
    NodeSessionId::from_text(text.into())
}

fn socket(port: u16) -> SocketText {
    SocketText { text: format!("10.0.0.1:{port}"), port }
}

fn lease(id: &str, expires: u64) -> NodeLease {
    NodeLease {
        node_id: id.into(),
        session_id: life(id),
        advertised_address: socket(7),
        protocol_version: 2,
        expires_at_unix_ms: expires,
        sampled_at_unix_ms: 0,
        active_actor_count: 0,
        max_actor_count: 1,
        pressured: false,
        draining: false,
    }
}

fn owned(node: Option<&str>, epoch: u64) -> VersionedActorOwnerRecord {
    VersionedActorOwnerRecord {
        record: ActorOwnerRecord {
            owner: node.map(|n| ActorOwner { node_id: n.into(), session_id: life(n) }),
            ownership_epoch: epoch,
        },
        etag: "tag".into(),
    }
}

fn context() -> DistributedContext {
    DistributedContext::new("me".into(), life("me"))
}

#[test]
fn addresses_have_bytes_of_their_own() {
    let text = ActorId::from_text("ab");
    assert_eq!(text.as_bytes(), b"ab");
    assert_eq!(text, ActorId::new(vec![97, 98]));
    let bytes = ActorAddress::new("t".into(), ActorId::new(vec![9])).to_bytes();
    assert_eq!(bytes, vec![0, 0, 0, 1, b't', 9]);
    let left = ActorAddress::new("ab".into(), ActorId::from_text("c"));
    let right = ActorAddress::new("a".into(), ActorId::from_text("bc"));
    assert_ne!(left.to_bytes(), right.to_bytes());
    let ctx = CommandContext::new(&left);
    assert_eq!(ctx.actor_address(), &left);
    assert_eq!(ctx.actor_id(), &ActorId::from_text("c"));
}

#[test]
fn runtimes_are_validated() {
    let build = |builder: RuntimeBuilder<()>| -> Option<BuildError> { builder.build::<u32, ()>().err() };
    assert_eq!(build(RuntimeBuilder::new(()).mailbox_capacity(0)), Some(BuildError::InvalidMailboxCapacity));
    assert_eq!(build(RuntimeBuilder::new(()).max_active_actors(0)), Some(BuildError::InvalidMaxActiveActors));
    let zero = ActorTypeConfig::new().mailbox_capacity(0);
    assert_eq!(
        build(RuntimeBuilder::new(()).register_with("a", vec![], zero)),
        Some(BuildError::InvalidMailboxCapacity)
    );
    let twice = RuntimeBuilder::new(()).register("a", vec![]).register("a", vec![]);
    assert_eq!(build(twice), Some(BuildError::DuplicateActorType("a")));
    let config = ActorTypeConfig::new().mailbox_capacity(7).idle_timeout(Duration::from_secs(1));
    let built: Runtime<u32, (), u8> = RuntimeBuilder::new(5)
        .register("plain", vec![])
        .register_with("special", vec!["go"], config)
        .build()
        .ok()
        .unwrap();
    assert_eq!(built.state, 5);
    let plain = built.inner.registrations.get(&"plain".to_string()).unwrap();
    assert_eq!((plain.mailbox_capacity, plain.idle_timeout), (Some(32), Some(Duration::from_secs(60))));
    let special = built.inner.registrations.get(&"special".to_string()).unwrap();
    assert_eq!((special.mailbox_capacity, special.idle_timeout), (Some(7), Some(Duration::from_secs(1))));
    assert_eq!(special.remote_commands, vec!["go"]);
}

#[test]
fn an_invalid_builder_is_refused_whatever_its_limits() {
    let build = |builder: RuntimeBuilder<()>| -> Option<BuildError> { builder.build::<u32, ()>().err() };
    let own = ActorTypeConfig::new().mailbox_capacity(1);
    for actors in [0, usize::MAX] {
        let builder = RuntimeBuilder::new(())
            .register_with("a", vec![], own)
            .max_active_actors(actors)
            .mailbox_capacity(0);
        assert_eq!(build(builder), Some(BuildError::InvalidMailboxCapacity));
    }
    let large = RuntimeBuilder::new(()).mailbox_capacity(usize::MAX);
    assert_eq!(build(large.register_with("a", vec![], own)), None);
}

#[test]
fn the_order_of_idle_timeout_and_register_does_not_matter() {
    let own = || ActorTypeConfig::new().idle_timeout(Duration::from_secs(1));
    let base = || RuntimeBuilder::new(()).register_with("own", vec![], own());
    let timeout = Duration::from_secs(7);
    let first = base().idle_timeout(timeout).register("plain", vec![]);
    let last = base().register("plain", vec![]).idle_timeout(timeout);
    for builder in [first, last] {
        let built: Runtime<u32, (), ()> = builder.build().ok().unwrap();
        let of = |name: &str| built.inner.registrations.get(&name.to_string()).unwrap().idle_timeout;
        assert_eq!(of("plain"), Some(timeout));
        assert_eq!(of("own"), Some(Duration::from_secs(1)));
    }
}

#[test]
fn the_protocol_version_that_was_set_last_wins() {
    let builder = RuntimeBuilder::new(()).register("counter", vec![]);
    let builder = with_peer_protocol_version(with_peer_protocol_version(builder, 9), 10);
    let runtime: Runtime<u32, (), ()> = builder.build().ok().unwrap();
    let id = ActorId::from_text("a");
    let remote = remote_actor_ref(&runtime, "counter", id, "http://b:1".into()).ok().unwrap();
    assert!(matches!(remote.target, ActorRefTarget::Remote { protocol_version: 10, .. }));
}

#[test]
fn references_need_a_registered_type() {
    let runtime = runtime_with(2, 2);
    let actor = runtime.actor_ref("counter", ActorId::from_text("a")).unwrap_or_else(|_| panic!("no reference"));
    assert!(matches!(actor.target, ActorRefTarget::Local));
    assert_eq!(actor.address, address());
    assert_eq!(
        runtime.actor_ref("other", ActorId::from_text("a")).err(),
        Some(ActorRefError::ActorTypeNotRegistered("other"))
    );
    let builder = RuntimeBuilder::new(()).register("counter", vec![]);
    let newer: Runtime<u32, (), ()> = with_peer_protocol_version(builder, 9).build().ok().unwrap();
    let remote = remote_actor_ref(&newer, "counter", ActorId::from_text("a"), "http://b:1".into()).ok().unwrap();
    assert!(matches!(
        remote.target,
        ActorRefTarget::Remote { endpoint, protocol_version: 9 } if endpoint == "http://b:1"
    ));
}

#[test]
fn commands_reach_a_mailbox_or_fail() {
    let mut runtime = runtime();
    let Sent { result, failed, spawn } = runtime.send(&address(), 1, 0);
    assert_eq!((result, failed), (Ok(()), None));
    let mut spawn = spawn.unwrap();
    assert_eq!(runtime.send(&address(), 2, 0).result, Ok(()));
    let full = runtime.send(&address(), 3, 0);
    assert_eq!(full.failed, Some((3, RuntimeError::MailboxFull)));
    assert_eq!(spawn.receiver.receiver().try_recv(), Ok(1));
    assert_eq!(spawn.receiver.receiver().try_recv(), Ok(2));
    let other = ActorAddress::new("counter".into(), ActorId::from_text("b"));
    let kept = runtime.send(&other, 4, 0);
    assert!(kept.spawn.is_some());
    let third = ActorAddress::new("counter".into(), ActorId::from_text("c"));
    assert_eq!(runtime.send(&third, 5, 0).failed, Some((5, RuntimeError::RuntimeAtCapacity)));
}

#[test]
fn closed_runtimes_take_no_commands() {
    let mut stopping = runtime();
    assert_eq!(stopping.begin_shutdown(), Some(vec![]));
    assert_eq!(stopping.send(&address(), 1, 0).failed, Some((1, RuntimeError::RuntimeShuttingDown)));
    assert_eq!(stopping.begin_shutdown(), None);
    stopping.finish_shutdown(true);
    assert_eq!(stopping.send(&address(), 1, 0).failed, Some((1, RuntimeError::RuntimeStopped)));
    let mut fenced = runtime();
    fenced.send(&address(), 1, 0);
    assert_eq!(fenced.begin_fence(), vec![address()]);
    assert_eq!(fenced.send(&address(), 1, 0).failed, Some((1, RuntimeError::NodeFenced)));
    assert!(!fenced.has_authority(0));
    fenced.finish_fence();
    assert!(fenced.routes.addresses().is_empty());
    let mut leased = runtime();
    leased.authority = Some(NodeAuthority::new(0, Duration::from_nanos(10)));
    assert!(leased.has_authority(9));
    assert_eq!(leased.send(&address(), 1, 10).failed, Some((1, RuntimeError::NodeFenced)));
}

#[test]
fn command_tasks_serve_and_passivate() {
    let mut runtime = runtime();
    let mut spawn = runtime.send(&address(), 1, 0).spawn.unwrap();
    let (mut task, first) = CommandTask::begin(&address(), spawn.generation);
    assert_eq!(first, TaskAction::Activate);
    let step: Step = task.activated(&mut runtime, Activation::Ready, &mut spawn.receiver);
    assert_eq!(step.action, TaskAction::Receive);
    let step: Step = task.executed(&mut runtime, CommandOutcome::Completed, &mut spawn.receiver, 0);
    assert_eq!(step.action, TaskAction::Receive);
    let step: Step = task.idle_elapsed_with(&mut runtime, 1, 2);
    assert_eq!(step.action, TaskAction::Receive);
    let step: Step = task.idle_elapsed_with(&mut runtime, 2, 2);
    assert!(matches!(step.action, TaskAction::Deactivate { .. }));
    assert_eq!(runtime.send(&address(), 2, 0).failed, Some((2, RuntimeError::ActorDeactivating)));
    let step: Step = task.deactivated(&mut runtime);
    assert_eq!(step.action, TaskAction::Finish);
    assert!(runtime.send(&address(), 3, 0).spawn.is_some());
}

#[test]
fn failing_command_tasks_fail_what_waits() {
    for (activation, error) in [
        (Activation::Failed, RuntimeError::ActivationFailed),
        (Activation::Panicked, RuntimeError::ActorStopped),
    ] {
        let mut runtime = runtime();
        let mut spawn = runtime.send(&address(), 1, 0).spawn.unwrap();
        let (mut task, _) = CommandTask::begin(&address(), spawn.generation);
        let step: Step = task.activated(&mut runtime, activation, &mut spawn.receiver);
        assert_eq!(step.action, TaskAction::Finish);
        assert_eq!(step.failed, vec![(1, error)]);
        assert!(runtime.routes.addresses().is_empty());
    }
    let mut runtime = runtime();
    let mut spawn = runtime.send(&address(), 1, 0).spawn.unwrap();
    runtime.send(&address(), 2, 0);
    let (mut task, _) = CommandTask::begin(&address(), spawn.generation);
    let _: Step = task.activated(&mut runtime, Activation::Ready, &mut spawn.receiver);
    assert_eq!(spawn.receiver.receiver().try_recv(), Ok(1));
    let step: Step = task.executed(&mut runtime, CommandOutcome::Panicked("caller"), &mut spawn.receiver, 0);
    assert_eq!(step.action, TaskAction::Finish);
    assert_eq!(step.panicked, Some("caller"));
    assert_eq!(step.failed, vec![(2, RuntimeError::ActorStopped)]);
}

#[test]
fn command_tasks_drain_before_they_stop() {
    let mut runtime = runtime();
    let mut spawn = runtime.send(&address(), 1, 0).spawn.unwrap();
    let (mut task, _) = CommandTask::begin(&address(), spawn.generation);
    let _: Step = task.activated(&mut runtime, Activation::Ready, &mut spawn.receiver);
    let step: Step = task.shutdown_signalled(false, &mut spawn.receiver);
    assert_eq!(step.action, TaskAction::Receive);
    let step: Step = task.shutdown_signalled(true, &mut spawn.receiver);
    assert_eq!(step.action, TaskAction::Drain);
    assert_eq!(runtime.send(&address(), 2, 0).result.is_err(), false);
    let step: Step = task.executed(&mut runtime, CommandOutcome::Completed, &mut spawn.receiver, 0);
    assert_eq!(step.action, TaskAction::Drain);
    let step: Step = task.drained();
    assert!(matches!(step.action, TaskAction::Deactivate { .. }));
}

#[test]
fn unowned_actors_are_claimed() {
    let mut routes = Routes::new(1);
    let mut context = context();
    let (mut resolution, first) = Resolution::begin(&context, &address());
    assert!(matches!(first, ResolveAction::ReadOwner));
    let action = resolution.on_owner(&mut context, StorageReply::Ready(None), &mut routes);
    match action {
        ResolveAction::Claim { record, etag: None } => {
            assert_eq!(record, context.local_claim(1));
            assert_eq!(record.owner.unwrap().node_id, "me");
        }
        _ => panic!("nothing is claimed"),
    }
    let applied = StorageReply::Ready(LeaseMutation::Applied { etag: "e".into() });
    let action = resolution.on_claim(&mut context, applied, &mut routes);
    assert!(matches!(action, ResolveAction::Finish(Ok(ResolvedOwner::Local { reserved: true }))));
    assert!(matches!(context.cached(&address()), Some(ResolvedOwner::Local { reserved: false })));
    context.invalidate(&address());
    assert!(context.cached(&address()).is_none());
    let (mut second, _) = Resolution::begin(&context, &address());
    let action = second.on_owner(&mut context, StorageReply::Ready(None), &mut routes);
    assert!(matches!(action, ResolveAction::Finish(Err(RuntimeError::RuntimeAtCapacity))));
}

#[test]
fn live_owners_are_respected_and_dead_ones_replaced() {
    let mut routes = Routes::new(1);
    let mut context = context();
    let (mut resolution, _) = Resolution::begin(&context, &address());
    let reply = StorageReply::Ready(Some(owned(Some("other"), 4)));
    let action = resolution.on_owner(&mut context, reply, &mut routes);
    assert!(matches!(action, ResolveAction::ReadLease { session_id } if session_id.as_str() == "other"));
    let live = StorageReply::Ready(Some(VersionedNodeLease { lease: lease("other", 11), etag: "l".into() }));
    let action = resolution.on_lease(&mut context, live, 10, &mut routes);
    match action {
        ResolveAction::Finish(Ok(ResolvedOwner::Remote { endpoint, protocol_version })) => {
            assert_eq!((endpoint.as_str(), protocol_version), ("http://10.0.0.1:7", 2));
        }
        _ => panic!("the owner is not remote"),
    }
    context.invalidate(&address());
    let (mut resolution, _) = Resolution::begin(&context, &address());
    let reply = StorageReply::Ready(Some(owned(Some("other"), 4)));
    resolution.on_owner(&mut context, reply, &mut routes);
    let dead = StorageReply::Ready(Some(VersionedNodeLease { lease: lease("other", 10), etag: "l".into() }));
    match resolution.on_lease(&mut context, dead, 10, &mut routes) {
        ResolveAction::Claim { record, etag: Some(etag) } => {
            assert_eq!(record.ownership_epoch, 5);
            assert_eq!(etag, "tag");
        }
        _ => panic!("nothing is claimed"),
    }
}

#[test]
fn uncertain_claims_are_read_back() {
    let mut routes = Routes::new(1);
    let mut context = context();
    let (mut resolution, _) = Resolution::begin(&context, &address());
    resolution.on_owner(&mut context, StorageReply::Ready(None), &mut routes);
    let lost = StorageReply::Ready(LeaseMutation::Ambiguous(AmbiguousMutation::ResponseLost));
    let action = resolution.on_claim(&mut context, lost, &mut routes);
    assert!(matches!(action, ResolveAction::ReadOwner));
    let action = resolution.on_owner(&mut context, StorageReply::Failed, &mut routes);
    assert!(matches!(action, ResolveAction::ReadOwner));
    let mine = VersionedActorOwnerRecord { record: context.local_claim(1), etag: "e".into() };
    let action = resolution.on_owner(&mut context, StorageReply::Ready(Some(mine)), &mut routes);
    assert!(matches!(action, ResolveAction::Finish(Ok(ResolvedOwner::Local { reserved: true }))));
}

#[test]
fn rejected_claims_are_tried_again_for_a_while() {
    let mut routes = Routes::new(1);
    let mut context = context();
    let (mut resolution, _) = Resolution::begin(&context, &address());
    for round in 0..3 {
        let action = resolution.on_owner(&mut context, StorageReply::Ready(None), &mut routes);
        assert!(matches!(action, ResolveAction::Claim { .. }));
        let rejected = StorageReply::Ready(LeaseMutation::ConditionalRejected);
        let action = resolution.on_claim(&mut context, rejected, &mut routes);
        if round < 2 {
            assert!(matches!(action, ResolveAction::ReadOwner));
        } else {
            assert!(matches!(action, ResolveAction::Finish(Err(RuntimeError::OwnershipUnavailable))));
        }
    }
    assert!(routes.try_reserve());
}

#[test]
fn references_say_where_commands_go() {
    let local = ActorRef { target: ActorRefTarget::Local, address: address() };
    let remote = ActorRef {
        target: ActorRefTarget::Remote { endpoint: "http://b:1".into(), protocol_version: 2 },
        address: address(),
    };
    assert_eq!(local.refuses_local(true), None);
    assert_eq!(local.refuses_local(false), Some(RuntimeError::RuntimeStopped));
    assert_eq!(remote.refuses_local(true), Some(RuntimeError::RemoteUnavailable));
    assert_eq!(local.reply_channel_closed_error::<()>(Some(Status::Fenced)), SendError::NodeFenced);
    assert_eq!(local.reply_channel_closed_error::<()>(None), SendError::ActorStopped);
    assert_eq!(remote.reply_channel_closed_error::<()>(Some(Status::Fenced)), SendError::ActorStopped);
    assert_eq!(local.ensure_reply_authority::<()>(None), Err(SendError::RuntimeStopped));
    assert_eq!(local.ensure_reply_authority::<()>(Some(false)), Err(SendError::NodeFenced));
    assert_eq!(remote.ensure_reply_authority::<()>(None), Ok(()));
    let (_, action) = RemoteRouting::begin(&remote, None);
    assert!(matches!(action, RemoteAction::Invoke { bounded: false, .. }));
    let (_, action) = RemoteRouting::begin(&local, None);
    assert!(matches!(action, RemoteAction::Finish(Err(RuntimeError::RuntimeStopped))));
    let (_, action) = RemoteRouting::begin(&local, Some(false));
    assert!(matches!(action, RemoteAction::Finish(Ok(RouteDecision::Local { reserved: false }))));
}

#[test]
fn stale_owners_are_asked_once_more() {
    let local = ActorRef { target: ActorRefTarget::Local, address: address() };
    let mut context = context();
    let (mut routing, first) = RemoteRouting::begin(&local, Some(true));
    assert!(matches!(first, RemoteAction::Resolve));
    let owner = || ResolvedOwner::Remote { endpoint: "http://b:1".into(), protocol_version: 2 };
    assert!(matches!(routing.resolved(Ok(owner())), RemoteAction::Invoke { bounded: true, .. }));
    let action = routing.invoked(&mut context, &address(), InvokeReply::NotConnected);
    assert!(matches!(action, RemoteAction::Resolve));
    routing.resolved(Ok(owner()));
    let action = routing.invoked(&mut context, &address(), InvokeReply::NotConnected);
    assert!(matches!(action, RemoteAction::Finish(Err(RuntimeError::RemoteUnavailable))));
    let (mut lost, _) = RemoteRouting::begin(&local, Some(true));
    let action = lost.invoked(&mut context, &address(), InvokeReply::Lost);
    assert!(matches!(action, RemoteAction::Finish(Err(RuntimeError::OutcomeUnknown))));
    let done = InvokeReply::Answered(Some(InvokeOutcome::Success(vec![1])));
    match lost.invoked(&mut context, &address(), done) {
        RemoteAction::Finish(Ok(RouteDecision::Remote(payload))) => {
            assert_eq!(payload, RemotePayload::Success(vec![1]));
        }
        _ => panic!("the command was not executed"),
    }
}

fn request(version: u32, actor_type: &str, command: &str) -> InvokeRequest {
    InvokeRequest {
        protocol_version: version,
        actor_type: actor_type.into(),
        actor_id: b"a".to_vec(),
        command: command.into(),
        payload: vec![],
    }
}

#[test]
fn requests_are_served_in_order() {
    let mut runtime = runtime();
    let failure = |error: RuntimeError| InvokeOutcome::RuntimeFailure(error.to_wire());
    assert_eq!(check_request(&runtime, &request(1, "counter", "add")).err(), Some(failure(RuntimeError::RemoteProtocol)));
    assert_eq!(check_request(&runtime, &request(2, "other", "add")).err(), Some(failure(RuntimeError::ActorTypeNotRegistered)));
    assert_eq!(check_request(&runtime, &request(2, "counter", "sub")).err(), Some(failure(RuntimeError::CommandNotRegistered)));
    let admitted = check_request(&runtime, &request(2, "counter", "add")).unwrap_or_else(|_| panic!("refused"));
    assert_eq!(admitted, address());
    let malformed = command_made(&runtime, Err(RuntimeError::MalformedPayload));
    assert!(matches!(malformed, ServeAction::Answer(outcome) if outcome == failure(RuntimeError::MalformedPayload)));
    assert!(matches!(command_made(&runtime, Ok(())), ServeAction::Send { reserved: false }));
    runtime.distributed = true;
    assert!(matches!(command_made(&runtime, Ok(())), ServeAction::Resolve));
    let elsewhere = Ok(ResolvedOwner::Remote { endpoint: "http://b:1".into(), protocol_version: 2 });
    assert!(matches!(request_resolved(elsewhere), ServeAction::Answer(outcome) if outcome == failure(RuntimeError::NotOwner)));
    let here = Ok(ResolvedOwner::Local { reserved: true });
    assert!(matches!(request_resolved(here), ServeAction::Send { reserved: true }));
    let (sent, refusal) = send_request(&mut runtime, &address(), 1, false, 0);
    assert!(sent.spawn.is_some() && refusal.is_none());
    send_request(&mut runtime, &address(), 2, false, 0);
    let other = ActorAddress::new("counter".into(), ActorId::from_text("b"));
    send_request(&mut runtime, &other, 3, false, 0);
    let third = ActorAddress::new("counter".into(), ActorId::from_text("c"));
    let (_, refusal) = send_request(&mut runtime, &third, 4, false, 0);
    assert_eq!(refusal, Some(failure(RuntimeError::RuntimeAtCapacity)));
    assert_eq!(reply_outcome(&runtime, Ok(vec![5]), 0), InvokeOutcome::Success(vec![5]));
    let handler = Err(RemoteReplyError::Handler(vec![6]));
    assert_eq!(reply_outcome(&runtime, handler, 0), InvokeOutcome::HandlerError(vec![6]));
    runtime.begin_fence();
    assert_eq!(reply_outcome(&runtime, Ok(vec![5]), 0), failure(RuntimeError::NodeFenced));
}

#[test]
fn replies_are_read_as_they_were_answered() {
    for error in [RuntimeError::NotOwner, RuntimeError::MailboxFull, RuntimeError::MalformedPayload] {
        let reply = InvokeReply::Answered(Some(InvokeOutcome::RuntimeFailure(error.to_wire())));
        assert_eq!(read_reply(reply), Err(error));
    }
    assert_eq!(read_reply(InvokeReply::Answered(None)), Err(RuntimeError::RemoteProtocol));
    let send: SendError<()> = SendError::from(RuntimeError::CommandNotRegistered);
    assert_eq!(send, SendError::RemoteProtocol(RemoteProtocolError::CommandNotRegistered));
}

#[test]
fn distributed_configurations_are_checked() {
    let config = |id: &str, port: u16| DistributedRuntimeConfig::new(id.into(), socket(0), socket(port));
    let fault = |config: DistributedRuntimeConfig| RuntimeBuilder::new(()).distributed(config).err();
    assert_eq!(fault(config("  ", 1)), Some(RuntimeStartError::InvalidNodeId));
    assert_eq!(fault(config("n", 0)), Some(RuntimeStartError::InvalidAdvertisedAddress));
    let mut timing = LeaseTiming::default();
    timing.renewal_interval = timing.ttl;
    assert_eq!(fault(config("n", 1).lease_timing(timing)), Some(RuntimeStartError::InvalidLeaseTiming));
    assert_eq!(fault(config("n", 1)), None);
    assert_eq!(LeaseTiming::default().renewal_interval, Duration::from_secs(10) / 3);
    assert_eq!(bound(false), Err(RuntimeStartError::BindFailed));
    assert_eq!(RuntimeStartError::LeaseConflict.message(), "Node Lease is already owned");
}

#[test]
fn distributed_runtimes_start_under_a_lease() {
    let config = || DistributedRuntimeConfig::new("n".into(), socket(0), socket(1));
    let builder = || RuntimeBuilder::new(3u8).register("counter", vec![]).distributed(config()).ok().unwrap();
    let (core, mut startup, lease, timeout) = builder().acquire(100, 5_000);
    assert_eq!((lease.node_id.as_str(), lease.expires_at_unix_ms), ("n", 15_000));
    assert_eq!((lease.sampled_at_unix_ms, lease.max_actor_count), (5_000, 10_000));
    assert_eq!(timeout, 10_000_000_000);
    let lost = AcquireReply::Ready(LeaseMutation::Ambiguous(AmbiguousMutation::Timeout));
    assert!(matches!(startup.acquired(lost, 200), AcquireStep::Confirm { .. }));
    assert!(matches!(startup.confirmed(LeaseReply::TimedOut, 300), AcquireStep::Confirm { .. }));
    let read = LeaseReply::Ready(Some(VersionedNodeLease { lease, etag: "e".into() }));
    assert!(matches!(startup.confirmed(read, 400), AcquireStep::Held { etag } if etag == "e"));
    let started: StartedRuntime<u32, (), u8> = finish_start(core, startup, "e".into(), 500).ok().unwrap();
    assert!(started.runtime.inner.distributed && started.runtime.inner.has_authority(500));
    assert_eq!((started.runtime.state, started.etag.as_str()), (3, "e"));
    let (core, startup, _, _) = builder().acquire(100, 5_000);
    let late: Result<StartedRuntime<u32, (), u8>, _> =
        finish_start(core, startup, "e".into(), 10_000_000_101);
    assert_eq!(late.err(), Some(RuntimeStartError::LeaseUnconfirmed));
    let (mut startup, _, _) = RuntimeStartup::acquire(config(), 1, 0, 0);
    let failed = AcquireReply::Failed(OwnershipStorageError::Unavailable);
    assert!(matches!(
        startup.acquired(failed, 0),
        AcquireStep::Failed { error: RuntimeStartError::OwnershipStorage }
    ));
    let rejected = AcquireReply::Ready(LeaseMutation::ConditionalRejected);
    assert!(matches!(
        startup.acquired(rejected, 0),
        AcquireStep::Failed { error: RuntimeStartError::LeaseConflict }
    ));
    assert!(matches!(
        startup.acquired(AcquireReply::TimedOut, 0),
        AcquireStep::Failed { error: RuntimeStartError::LeaseUnconfirmed }
    ));
}

#[test]
fn runtimes_end_by_report_or_by_silence() {
    let fenced = RuntimeTermination { reason: RuntimeTerminationReason::Fenced };
    assert_eq!(terminated(Some(fenced), true), Some(fenced));
    assert_eq!(terminated(None, true), None);
    assert_eq!(
        terminated(None, false).map(|end| end.reason),
        Some(RuntimeTerminationReason::Shutdown)
    );
}

#[test]
fn what_waits_on_a_lost_authority_is_fenced() {
    let mut runtime = runtime();
    let spawn = runtime.send(&address(), 1, 0).spawn.unwrap();
    runtime.authority = Some(NodeAuthority::new(0, Duration::from_nanos(10)));
    let (mut task, _) = CommandTask::begin(&address(), spawn.generation);
    let _: Step = task.activated_with(&mut runtime, Activation::Ready, Vec::new());
    let step: Step = task.executed_with(&mut runtime, CommandOutcome::Completed, Vec::new(), 9);
    assert_eq!(step.action, TaskAction::Receive);
    let step: Step = task.executed_with(&mut runtime, CommandOutcome::Completed, vec![4, 5], 10);
    assert_eq!(step.action, TaskAction::Finish);
    assert_eq!(step.failed, vec![(4, RuntimeError::NodeFenced), (5, RuntimeError::NodeFenced)]);
    assert_eq!(step.panicked, None);
    assert!(runtime.routes.addresses().is_empty());
}
