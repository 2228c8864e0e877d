use coactor::actor::{ActorAddress, ActorConfig, DeactivationReason};
use coactor::cluster::authority::{NodeRecord, NodeSessionId};
use coactor::cluster::node::NodeAuthority;
use coactor::error::{RemoteProtocolError, SendError, ServerError};
use coactor::runtime::actor::{ActorRuntime, MessageContext, MessageOutcome};
use coactor::runtime::builder::ServerBuilderCore;
use coactor::runtime::inbound::{Inbound, PendingOpen, RemoteMessage};
use coactor::runtime::lifecycle::{Activation, ActorTask, TaskAction};
use coactor::runtime::message::{fail_messages, MailboxMessage};
use coactor::runtime::server::{ServerInner, Spawn, Status};
use coactor::runtime::session::{delivered, SessionId, SessionRegistry};
use coactor::transport_protocol::{AckOutcome, Envelope, Kind, TRANSPORT_PROTOCOL_VERSION};
use coactor::mailbox::Offer;
use std::sync::Arc;
use std::time::Duration;

type Server = ServerInner<u32, &'static str>;

fn server_with(capacity: usize, max: usize, authority: Option<NodeAuthority>, clustered: bool) -> Server {
    let mut core = ServerBuilderCore::base(None).with_state(());
    core.add_actor(ActorConfig::new("room").mailbox_capacity(capacity));
    core.max_active_actors = max;
    core.build_with_authority(authority, clustered).unwrap().0
}

fn server() -> Server {
    server_with(2, 2, None, false)
}

fn address(id: &str) -> ActorAddress {
    ActorAddress::new("room", id).unwrap()
}

fn session(n: u8) -> SessionId {
    SessionId::from_bytes(&[n; 16]).unwrap()
}

fn envelope(id: &str, n: u8, kind: Kind) -> Envelope {
    Envelope {
        protocol_version: TRANSPORT_PROTOCOL_VERSION,
        actor_type: "room".into(),
        actor_id: id.as_bytes().to_vec(),
        session_id: vec![n; 16],
        kind: Some(kind),
    }
}

fn action(text: &[u8]) -> Kind {
    Kind::Action { payload: text.to_vec() }
}

fn open(server: &mut Server, id: &str, n: u8, connection: u64) -> (PendingOpen, Option<Spawn<u32>>) {
    match server.dispatch_inbound(envelope(id, n, Kind::SessionOpen), Some(connection), n as u32, 0) {
        Inbound::Opening { open, start } => {
            assert_eq!(start.refused, None);
            let delivery = start.delivery.unwrap();
            assert_eq!(delivery.result, Ok(()));
            (open, delivery.spawn)
        }
        _ => panic!("the Session is not being opened"),
    }
}

fn failure(envelope: &Envelope) -> SendError {
    match &envelope.kind {
        Some(Kind::SessionError { failure }) => SendError::from_wire(*failure),
        Some(Kind::SessionOpenedAck { outcome: Some(AckOutcome::Failure(failure)) }) => {
            SendError::from_wire(*failure)
        }
        _ => panic!("no failure"),
    }
}

#[test]
fn a_session_opens_carries_actions_and_closes() {
    let mut server = server();
    let (pending, spawn) = open(&mut server, "lobby", 1, 7);
    let mut spawn = spawn.unwrap();
    assert_eq!(spawn.generation, 1);
    match spawn.receiver.receiver().try_recv().unwrap() {
        MailboxMessage::SessionOpened { complete, .. } => assert_eq!(complete, 1),
        _ => panic!("not an opening"),
    }
    let ack = server.finish_inbound_open(&pending, None, Some(Ok(())));
    assert_eq!(ack.connection, 7);
    assert_eq!(
        ack.envelope.kind,
        Some(Kind::SessionOpenedAck { outcome: Some(AckOutcome::Opened(Vec::new())) })
    );
    match server.dispatch_inbound(envelope("lobby", 1, action(b"hi")), Some(7), 0, 0) {
        Inbound::Dispatched { delivery, error } => {
            assert_eq!(delivery.result, Ok(()));
            assert!(delivery.spawn.is_none());
            assert!(error.is_none());
        }
        _ => panic!("not dispatched"),
    }
    match spawn.receiver.receiver().try_recv().unwrap() {
        MailboxMessage::Action { payload, session_id } => {
            assert_eq!(payload, b"hi".to_vec());
            assert_eq!(session_id, session(1));
        }
        _ => panic!("not an action"),
    }
    match server.dispatch_inbound(envelope("lobby", 1, Kind::SessionClose { reason: 1 }), Some(7), 0, 0) {
        Inbound::Closed { closing } => assert!(closing.removed),
        _ => panic!("not closed"),
    }
    assert!(matches!(spawn.receiver.receiver().try_recv().unwrap(), MailboxMessage::SessionClosed { .. }));
    assert!(!server.sessions.has_live_sessions(&address("lobby")));
}

#[test]
fn actions_need_the_connection_of_their_session() {
    let mut server = server();
    open(&mut server, "lobby", 1, 7);
    for reply in [8, 9] {
        match server.dispatch_inbound(envelope("lobby", 1, action(b"x")), Some(reply), 0, 0) {
            Inbound::Answered { answer } => {
                assert_eq!(answer.connection, reply);
                assert_eq!(failure(&answer.envelope), SendError::ActorStopped);
            }
            _ => panic!("not answered"),
        }
    }
    assert!(matches!(
        server.dispatch_inbound(envelope("lobby", 1, action(b"x")), None, 0, 0),
        Inbound::Ignored
    ));
    assert!(matches!(
        server.dispatch_inbound(envelope("lobby", 1, Kind::SessionClose { reason: 0 }), Some(8), 0, 0),
        Inbound::Ignored
    ));
    assert_eq!(server.sessions.session_count(&address("lobby")), 1);
}

#[test]
fn unreadable_messages_are_ignored() {
    let mut server = server();
    let mut no_kind = envelope("lobby", 1, Kind::SessionOpen);
    no_kind.kind = None;
    let mut short = envelope("lobby", 1, Kind::SessionOpen);
    short.session_id.pop();
    let bad_id = envelope("Lobby", 1, Kind::SessionOpen);
    let event = envelope("lobby", 1, Kind::Event { payload: Vec::new() });
    let error = envelope("lobby", 1, Kind::SessionError { failure: 1 });
    let ack = envelope("lobby", 1, Kind::SessionOpenedAck { outcome: None });
    for message in [no_kind, short, bad_id, event, error, ack] {
        assert!(matches!(server.dispatch_inbound(message, Some(1), 0, 0), Inbound::Ignored));
    }
    let mut old_action = envelope("lobby", 1, action(b"x"));
    old_action.protocol_version += 1;
    assert!(matches!(server.dispatch_inbound(old_action, Some(1), 0, 0), Inbound::Ignored));
    let mut old_open = envelope("lobby", 1, Kind::SessionOpen);
    old_open.protocol_version += 1;
    match server.dispatch_inbound(old_open, Some(1), 0, 0) {
        Inbound::Answered { answer } => assert_eq!(
            failure(&answer.envelope),
            SendError::RemoteProtocol(RemoteProtocolError::VersionMismatch)
        ),
        _ => panic!("not answered"),
    }
}

#[test]
fn clustered_servers_ask_for_the_owner_first() {
    let mut server = server_with(2, 2, None, true);
    let (pending, complete) =
        match server.dispatch_inbound(envelope("lobby", 1, Kind::SessionOpen), Some(3), 5, 0) {
            Inbound::Resolve { open, complete } => (open, complete),
            _ => panic!("not resolved"),
        };
    assert_eq!(complete, 5);
    let start = server.resume_open(&pending, Ok(false), false, complete, 0);
    assert_eq!(start.refused, Some(SendError::NotOwner));
    let ack = server.finish_inbound_open(&pending, start.refused, None);
    assert_eq!(failure(&ack.envelope), SendError::NotOwner);
    let start = server.resume_open(&pending, Err(SendError::OwnershipUnavailable), false, 5, 0);
    assert_eq!(start.refused, Some(SendError::OwnershipUnavailable));
    assert!(server.routes.try_reserve());
    assert_eq!(server.routes.available(), 1);
    let start = server.resume_open(&pending, Ok(true), true, 5, 0);
    assert_eq!(start.refused, None);
    assert_eq!(server.routes.available(), 1);
    assert_eq!(server.routes.len(), 1);
}

#[test]
fn openings_that_fail_leave_no_session() {
    let mut server = server();
    let mut unknown = envelope("lobby", 1, Kind::SessionOpen);
    unknown.actor_type = "hall".into();
    match server.dispatch_inbound(unknown, Some(1), 0, 0) {
        Inbound::Opening { start, .. } => {
            assert_eq!(start.refused, Some(SendError::ActorTypeNotRegistered("hall".into())))
        }
        _ => panic!("not opening"),
    }
    let (pending, _spawn) = open(&mut server, "lobby", 1, 7);
    match server.dispatch_inbound(envelope("lobby", 1, Kind::SessionOpen), Some(7), 0, 0) {
        Inbound::Opening { start, .. } => assert_eq!(start.refused, Some(SendError::ActorStopped)),
        _ => panic!("not opening"),
    }
    let ack = server.finish_inbound_open(&pending, None, None);
    assert_eq!(failure(&ack.envelope), SendError::ActorStopped);
    assert!(server.sessions.by_actor_addresses().is_empty());
    let (pending, _spawn) = open(&mut server, "hall", 2, 7);
    let refused = Some(Err(SendError::ActivationFailed));
    let ack = server.finish_inbound_open(&pending, None, refused);
    assert_eq!(failure(&ack.envelope), SendError::ActivationFailed);
    assert!(server.sessions.by_actor_addresses().is_empty());
}

#[test]
fn full_mailboxes_and_full_runtimes_refuse() {
    let mut server = server_with(1, 1, None, false);
    let (_, spawn) = open(&mut server, "lobby", 1, 7);
    let _held = spawn.unwrap();
    let opened = MailboxMessage::SessionOpened { session_id: session(2), complete: 22 };
    let delivery = server.dispatch_message(&address("lobby"), opened, false, 0);
    assert_eq!(delivery.result, Err(SendError::MailboxFull));
    assert_eq!(delivery.reply, Some((22, SendError::MailboxFull)));
    let opened = MailboxMessage::SessionOpened { session_id: session(2), complete: 23 };
    let delivery = server.dispatch_message(&address("hall"), opened, false, 0);
    assert_eq!(delivery.result, Err(SendError::RuntimeAtCapacity));
    assert_eq!(delivery.reply, Some((23, SendError::RuntimeAtCapacity)));
    let closed = MailboxMessage::SessionClosed { session_id: session(2) };
    let delivery = server.dispatch_message(&address("hall"), closed, false, 0);
    assert_eq!(delivery.reply, None);
    let closed = MailboxMessage::SessionClosed { session_id: session(2) };
    let result = server.dispatch_message_if_active(&address("lobby"), closed);
    assert_eq!(result, Err(SendError::MailboxFull));
    let closed = MailboxMessage::SessionClosed { session_id: session(2) };
    assert_eq!(server.dispatch_message_if_active(&address("hall"), closed), Ok(()));
}

#[test]
fn closed_routes_are_replaced_by_a_later_generation() {
    let mut server = server_with(1, 1, None, false);
    let (_, spawn) = open(&mut server, "lobby", 1, 7);
    drop(spawn);
    let message = MailboxMessage::Action { session_id: session(1), payload: vec![1] };
    let delivery = server.dispatch_message(&address("lobby"), message, false, 0);
    assert_eq!(delivery.result, Ok(()));
    assert_eq!(delivery.spawn.unwrap().generation, 2);
    assert!(!server.routes.remove_route(&address("lobby"), 1));
    assert!(server.routes.attach_task(&address("lobby"), 2, "task"));
    assert!(!server.routes.attach_task(&address("lobby"), 1, "late"));
    assert_eq!(server.routes.route(&address("lobby")).unwrap().task, Some("task"));
    let closed = MailboxMessage::SessionClosed { session_id: session(1) };
    let result = server.dispatch_message_if_active(&address("lobby"), closed);
    assert_eq!(result, Err(SendError::ActorStopped));
    assert!(server.routes.remove_route(&address("lobby"), 2));
    assert_eq!(server.routes.available(), 1);
}

#[test]
fn deactivating_actors_take_no_messages() {
    let mut server = server();
    let (_, spawn) = open(&mut server, "lobby", 1, 7);
    let spawn = spawn.unwrap();
    assert!(!server.routes.begin_deactivation_with(&address("lobby"), 1, 1, 2));
    assert!(!server.routes.begin_deactivation_with(&address("lobby"), 9, 2, 2));
    assert!(!server.routes.begin_deactivation_with(&address("hall"), 1, 2, 2));
    assert!(server.routes.begin_deactivation_with(&address("lobby"), 1, 2, 2));
    let message = MailboxMessage::Action { session_id: session(1), payload: vec![1] };
    let delivery = server.dispatch_message(&address("lobby"), message, false, 0);
    assert_eq!(delivery.result, Err(SendError::ActorDeactivating));
    drop(spawn);
}

#[test]
fn only_running_servers_with_authority_admit_messages() {
    let ttl = Duration::from_nanos(100);
    let mut server = server_with(2, 2, Some(NodeAuthority::new(10, ttl)), false);
    let send = |server: &mut Server, now| {
        let message = MailboxMessage::Action { session_id: session(1), payload: vec![1] };
        server.dispatch_message(&address("lobby"), message, false, now).result
    };
    assert_eq!(send(&mut server, 109), Ok(()));
    assert_eq!(send(&mut server, 110), Err(SendError::NodeFenced));
    assert!(server.has_authority(109));
    assert!(!server.has_authority(110));
    assert_eq!(server.begin_shutdown().unwrap(), vec![address("lobby")]);
    assert!(server.begin_shutdown().is_none());
    assert_eq!(send(&mut server, 109), Err(SendError::RuntimeShuttingDown));
    server.finish_shutdown(false);
    assert_eq!(server.routes.len(), 1);
    assert_eq!(send(&mut server, 109), Err(SendError::RuntimeStopped));
    assert_eq!(server.begin_fence(), vec![address("lobby")]);
    assert_eq!(server.status, Status::Fenced);
    assert_eq!(send(&mut server, 109), Err(SendError::NodeFenced));
    assert!(!server.has_authority(109));
    server.finish_fence();
    assert_eq!(server.routes.len(), 0);
}

#[test]
fn shutdown_that_takes_too_long_drops_the_routes() {
    let mut server = server();
    open(&mut server, "lobby", 1, 7);
    server.begin_shutdown().unwrap();
    server.finish_shutdown(true);
    assert_eq!(server.routes.len(), 0);
    assert_eq!(server.status, Status::Stopped);
}

#[test]
fn load_is_sampled_into_the_node_record() {
    let mut server = server_with(1, 2, None, true);
    let mut node = NodeRecord {
        node_id: "a".into(),
        session_id: NodeSessionId::generate(),
        advertised_endpoint: "a:1".into(),
        protocol_version: 2,
        lease_generation: 4,
        sampled_at_unix_ms: 0,
        active_actor_count: 0,
        max_actor_count: 0,
        pressured: true,
        draining: true,
    };
    assert!(server.routes.try_reserve());
    server.update_capacity_sample(&mut node, 77);
    assert_eq!((node.active_actor_count, node.max_actor_count), (1, 2));
    assert_eq!((node.pressured, node.draining, node.sampled_at_unix_ms), (false, false, 77));
    assert!(server.routes.try_reserve());
    assert!(!server.routes.try_reserve());
    server.begin_shutdown();
    server.update_capacity_sample(&mut node, 78);
    assert_eq!((node.pressured, node.draining), (true, true));
    server.routes.cancel_reservation();
    assert_eq!(server.routes.available(), 1);
    assert_eq!(node.lease_generation, 4);
}

#[test]
fn registries_list_sessions_per_actor() {
    let mut registry = SessionRegistry::new();
    assert!(registry.register_actor(&address("lobby"), session(1), 7));
    assert!(registry.register_actor(&address("lobby"), session(2), 8));
    assert!(registry.register_actor(&address("hall"), session(3), 7));
    assert!(!registry.register_actor(&address("lobby"), session(1), 9));
    assert_eq!(registry.sink(&address("lobby"), &session(1)), Some(9));
    assert_eq!(registry.by_actor_snapshot(&address("lobby")), vec![session(1), session(2)]);
    assert_eq!(registry.by_sender_snapshot(7), vec![(address("hall"), session(3))]);
    assert!(registry.unregister_actor(&address("lobby"), &session(2)));
    assert!(!registry.unregister_actor(&address("lobby"), &session(2)));
    let event = registry.deliver_event(&address("hall"), session(3), vec![5]).ok().unwrap();
    assert_eq!(event.connection, 7);
    assert_eq!(event.envelope.kind, Some(Kind::Event { payload: vec![5] }));
    let gone = registry.deliver_event(&address("hall"), session(1), vec![5]).err();
    assert_eq!(gone, Some(SendError::ActorStopped));
    let notice = registry.terminate(&address("hall"), &session(3), &SendError::NodeFenced).unwrap();
    assert_eq!(failure(&notice.envelope), SendError::NodeFenced);
    assert!(registry.terminate(&address("hall"), &session(3), &SendError::NodeFenced).is_none());
    assert_eq!(registry.by_actor_addresses(), vec![address("lobby")]);
    assert_eq!(delivered(true), Ok(()));
    assert_eq!(delivered(false), Err(SendError::RemoteUnavailable));
}

#[test]
fn broadcasts_reach_every_session() {
    let mut server = server();
    server.sessions.register_actor(&address("lobby"), session(1), 7);
    server.sessions.register_actor(&address("lobby"), session(2), 8);
    server.sessions.register_actor(&address("hall"), session(3), 9);
    let events = server.broadcast_event(&address("lobby"), &vec![1, 2]);
    let targets: Vec<u64> = events.iter().map(|event| event.connection).collect();
    assert_eq!(targets, vec![7, 8]);
    assert_eq!(events[1].envelope.session_id, vec![2; 16]);
    assert!(server.broadcast_event(&address("attic"), &vec![1]).is_empty());
}

#[test]
fn lost_connections_close_their_sessions_only() {
    let mut server = server();
    open(&mut server, "lobby", 1, 7);
    open(&mut server, "lobby", 2, 8);
    open(&mut server, "hall", 3, 7);
    let closed = server.close_sessions_for_sender(7);
    assert_eq!(closed.len(), 2);
    let addresses: Vec<&str> = closed.iter().map(|session| session.address.actor_id()).collect();
    assert_eq!(addresses, vec!["lobby", "hall"]);
    assert!(closed.iter().all(|session| matches!(session.notice, Some(Offer::Closed(_)))));
    assert_eq!(server.sessions.by_actor_addresses(), vec![address("lobby")]);
    assert_eq!(server.sessions.by_actor_snapshot(&address("lobby")), vec![session(2)]);
}

#[test]
fn failed_activations_fail_everybody() {
    for (activation, error) in [
        (Activation::Failed, SendError::ActivationFailed),
        (Activation::Panicked, SendError::ActorStopped),
    ] {
        let mut server = server();
        let (_, spawn) = open(&mut server, "lobby", 1, 7);
        let mut spawn = spawn.unwrap();
        let (mut task, first) = ActorTask::begin(&address("lobby"), spawn.generation);
        assert_eq!(first, TaskAction::Activate);
        let step = task.activated(&mut server, activation, &mut spawn.receiver);
        assert_eq!(step.action, TaskAction::Finish);
        assert_eq!(step.replies, vec![(1, Err(error.clone()))]);
        assert_eq!(step.notices.len(), 1);
        assert_eq!(failure(&step.notices[0].envelope), error);
        assert_eq!(server.routes.len(), 0);
        assert!(server.sessions.by_actor_addresses().is_empty());
    }
}

#[test]
fn actors_shut_down_after_their_mailbox_is_empty() {
    let mut server = server();
    let (_, spawn) = open(&mut server, "lobby", 1, 7);
    let mut spawn = spawn.unwrap();
    let (mut task, _) = ActorTask::begin(&address("lobby"), spawn.generation);
    let step = task.activated(&mut server, Activation::Ready, &mut spawn.receiver);
    assert_eq!(step.action, TaskAction::Receive);
    let step = task.shutdown_signalled(false, &mut spawn.receiver);
    assert_eq!(step.action, TaskAction::Receive);
    let step = task.shutdown_signalled(true, &mut spawn.receiver);
    assert_eq!(step.action, TaskAction::Drain);
    let complete = match spawn.receiver.receiver().try_recv().unwrap() {
        MailboxMessage::SessionOpened { complete, .. } => complete,
        _ => panic!("not an opening"),
    };
    let step = task.executed(&mut server, Some(complete), MessageOutcome::Completed);
    assert_eq!(step.action, TaskAction::Drain);
    assert_eq!(step.replies, vec![(1, Ok(()))]);
    assert!(spawn.receiver.receiver().try_recv().is_err());
    let step = task.drained(&mut server);
    assert_eq!(step.action, TaskAction::Deactivate(DeactivationReason::Shutdown));
    assert_eq!(failure(&step.notices[0].envelope), SendError::RuntimeShuttingDown);
    let step = task.deactivated(&mut server);
    assert_eq!(step.action, TaskAction::Finish);
    assert_eq!(server.routes.len(), 0);
}

#[test]
fn panicking_handlers_end_their_actor() {
    let mut server = server();
    let (_, spawn) = open(&mut server, "lobby", 1, 7);
    let mut spawn = spawn.unwrap();
    let (mut task, _) = ActorTask::begin(&address("lobby"), spawn.generation);
    task.activated(&mut server, Activation::Ready, &mut spawn.receiver);
    let step = task.executed(&mut server, Some(9), MessageOutcome::Panicked);
    assert_eq!(step.action, TaskAction::Finish);
    assert_eq!(step.replies, vec![(9, Err(SendError::ActorStopped))]);
    assert_eq!(failure(&step.notices[0].envelope), SendError::ActorStopped);
    assert_eq!(server.routes.len(), 0);
}

#[test]
fn idle_actors_without_sessions_are_passivated() {
    for clustered in [false, true] {
        let mut server = server_with(2, 2, None, clustered);
        let message = MailboxMessage::Action { session_id: session(1), payload: vec![1] };
        let delivery = server.dispatch_message(&address("lobby"), message, false, 0);
        let mut spawn = delivery.spawn.unwrap();
        let mut sender = server.routes.route(&address("lobby")).unwrap().sender.clone();
        let (mut task, _) = ActorTask::begin(&address("lobby"), spawn.generation);
        task.activated(&mut server, Activation::Ready, &mut spawn.receiver);
        assert_eq!(task.idle_elapsed(&mut server, &mut sender).action, TaskAction::Receive);
        spawn.receiver.receiver().try_recv().unwrap();
        server.sessions.register_actor(&address("lobby"), session(1), 7);
        assert_eq!(task.idle_elapsed(&mut server, &mut sender).action, TaskAction::Receive);
        server.sessions.unregister_actor(&address("lobby"), &session(1));
        let idle = TaskAction::Deactivate(DeactivationReason::Idle);
        assert_eq!(task.idle_elapsed(&mut server, &mut sender).action, idle);
        let step = task.deactivated(&mut server);
        if clustered {
            assert_eq!(step.action, TaskAction::ReleaseOwner);
            assert_eq!(server.routes.len(), 1);
            assert_eq!(task.released(&mut server).action, TaskAction::Finish);
        } else {
            assert_eq!(step.action, TaskAction::Finish);
        }
        assert_eq!(server.routes.len(), 0);
    }
}

#[test]
fn tasks_whose_mailbox_ended_take_only_their_own_route_down() {
    let mut server = server();
    let (_, spawn) = open(&mut server, "lobby", 1, 7);
    let mut spawn = spawn.unwrap();
    let (mut stale, _) = ActorTask::begin(&address("lobby"), 99);
    stale.activated(&mut server, Activation::Ready, &mut spawn.receiver);
    assert_eq!(stale.mailbox_ended(&mut server).action, TaskAction::Finish);
    assert_eq!(server.routes.len(), 1);
    let (mut task, _) = ActorTask::begin(&address("lobby"), spawn.generation);
    task.activated(&mut server, Activation::Ready, &mut spawn.receiver);
    task.mailbox_ended(&mut server);
    assert_eq!(server.routes.len(), 0);
}

#[test]
fn begin_deactivation_looks_at_the_mailbox() {
    let mut server = server();
    let (_, spawn) = open(&mut server, "lobby", 1, 7);
    let mut spawn = spawn.unwrap();
    let mut sender = server.routes.route(&address("lobby")).unwrap().sender.clone();
    assert!(!server.routes.begin_deactivation(&address("lobby"), 1, &mut sender));
    spawn.receiver.receiver().try_recv().unwrap();
    assert!(server.routes.begin_deactivation(&address("lobby"), 1, &mut sender));
}

#[test]
fn actors_see_their_address_and_state() {
    let runtime = ActorRuntime::new(&address("lobby"), Arc::new(5u8));
    assert_eq!(runtime.actor_id(), "lobby");
    assert_eq!(*runtime.actor_address(), address("lobby"));
    assert_eq!(*runtime.state(), 5);
    let context = MessageContext::new(&address("lobby"), session(4));
    assert_eq!(context.actor_id(), "lobby");
    assert_eq!(*context.actor_address(), address("lobby"));
    assert_eq!(context.session().session_id, session(4));
}

#[test]
fn the_default_idle_timeout_holds_for_actor_types_registered_before() {
    let timeout = Duration::from_secs(7);
    let mut core = ServerBuilderCore::base(Some(()));
    core.add_actor(ActorConfig::new("plain"));
    core.add_actor(ActorConfig::new("own").idle_timeout(Duration::from_secs(1)));
    core.idle_timeout = timeout;
    let (server, _) = core.build_with_authority::<u32, ()>(None, false).ok().unwrap();
    let of = |name: &str| server.registrations.get(&name.to_string()).unwrap().idle_timeout;
    assert_eq!(of("plain"), Some(timeout));
    assert_eq!(of("own"), Some(Duration::from_secs(1)));
    let mut invalid = ServerBuilderCore::<()>::base(None);
    invalid.mailbox_capacity = 0;
    invalid.max_active_actors = usize::MAX;
    let refused = invalid.build_with_authority::<u32, ()>(None, false).err().unwrap();
    assert!(matches!(refused, ServerError::InvalidMailboxCapacity));
}

#[test]
fn configurations_are_validated_in_order() {
    let base = || ServerBuilderCore::<()>::base(None);
    assert!(base().validate().is_ok());
    assert_eq!(base().active_actor_limit(), 10_000);
    let mut core = base();
    core.mailbox_capacity = 0;
    core.max_active_actors = 0;
    assert!(matches!(core.validate(), Err(ServerError::InvalidMailboxCapacity)));
    core.mailbox_capacity = 1;
    assert!(matches!(core.validate(), Err(ServerError::InvalidMaxActiveActors)));
    let mut core = base();
    core.deactivation_timeout = Duration::ZERO;
    assert!(matches!(core.validate(), Err(ServerError::InvalidDeactivationTimeout)));
    let mut core = base();
    core.shutdown_timeout = Duration::ZERO;
    assert!(matches!(core.validate(), Err(ServerError::InvalidShutdownTimeout)));
    let mut core = base();
    core.add_actor(ActorConfig::new("room"));
    core.add_actor(ActorConfig::new("room").mailbox_capacity(0));
    assert!(matches!(core.validate(), Err(ServerError::InvalidMailboxCapacity)));
    let mut core = base();
    core.add_actor(ActorConfig::new("room"));
    core.add_actor(ActorConfig::new("room"));
    assert!(matches!(core.validate(), Err(ServerError::DuplicateActorType(name)) if name == "room"));
    core.add_actor(ActorConfig::new("Bad"));
    assert!(matches!(core.validate(), Err(ServerError::DuplicateActorType(name)) if name == "room"));
    let mut core = base();
    core.add_actor(ActorConfig::new("Bad"));
    assert!(matches!(core.validate(), Err(ServerError::InvalidActorType(name)) if name == "Bad"));
}

#[test]
fn remote_messages_need_a_live_session() {
    let mut server = server();
    let unknown = server.dispatch_remote_message(&address("lobby"), session(1), Some(vec![1]), 0);
    assert!(matches!(unknown, RemoteMessage::Gone));
    assert_eq!(unknown.result(), Err(SendError::ActorStopped));
    let (_, spawn) = open(&mut server, "lobby", 1, 7);
    let mut spawn = spawn.unwrap();
    spawn.receiver.receiver().try_recv().ok();
    let action = server.dispatch_remote_message(&address("lobby"), session(1), Some(vec![1]), 0);
    assert_eq!(action.result(), Ok(()));
    assert!(matches!(
        spawn.receiver.receiver().try_recv(),
        Ok(MailboxMessage::Action { payload, .. }) if payload == vec![1]
    ));
    let over = server.dispatch_remote_message(&address("lobby"), session(1), None, 0);
    assert!(matches!(&over, RemoteMessage::Closed(closing) if closing.removed));
    assert_eq!(over.result(), Ok(()));
    assert!(!server.sessions.has_live_sessions(&address("lobby")));
}

#[test]
fn only_openings_have_somebody_to_tell() {
    let messages = vec![
        MailboxMessage::SessionOpened { session_id: session(1), complete: 1 },
        MailboxMessage::Action { session_id: session(1), payload: vec![1] },
        MailboxMessage::SessionOpened { session_id: session(2), complete: 2 },
        MailboxMessage::SessionClosed { session_id: session(1) },
    ];
    let told = fail_messages(messages, &SendError::ActorStopped);
    let stopped = || Err(SendError::ActorStopped);
    assert_eq!(told, vec![(1, stopped()), (2, stopped())]);
}

#[test]
fn a_ready_actor_leaves_its_mailbox_alone() {
    let mut server = server();
    let (_, spawn) = open(&mut server, "lobby", 1, 7);
    let (mut task, _) = ActorTask::begin(&address("lobby"), spawn.unwrap().generation);
    let step = task.activated_with(&mut server, Activation::Ready, Vec::new());
    assert_eq!(step.action, TaskAction::Receive);
    assert!(step.replies.is_empty() && step.notices.is_empty());
    assert_eq!(server.routes.len(), 1);
}
