use coactor::actor::ActorAddress;
use coactor::client::builder::{Client, ClientBuilder};
use coactor::client::connection::{ConnectionPlan, ConnectionPools, TransportConnection};
use coactor::client::discovery::{DiscoveryError, DnsDiscovery, StaticListDiscovery};
use coactor::client::inner::{read_ack, ClientInner, Received};
use coactor::client::open::{
    ask_outcome, node_read, owner_read, OpenAction, Opening, OwnerLookup, OwnerResolution,
};
use coactor::client::placing::{
    choose_candidate, exclude, hard_filter, select_placement_candidate, PLACEMENT_CACHE_TTL,
};
use coactor::client::session::{
    envelope_action, envelope_session_close, envelope_session_open, CallerRegistry, Ended,
    SessionItem,
};
use coactor::cluster::authority::{
    ActorOwner, ActorOwnerRecord, CoordinationError, CoordinationErrorKind, NodeRecord,
    NodeSessionId, Revision, StoreReply, VersionedActorOwnerRecord,
};
use coactor::cluster::placement::{P2cPlacement, PlacementCandidate};
use coactor::error::{ClientBuildError, OpenError, RemoteProtocolError, SendError};
use coactor::mailbox::{mailbox, Inbox, Offer};
use coactor::runtime::session::SessionId;
use coactor::transport::Endpoint;
use coactor::transport_protocol::{AckOutcome, Envelope, Kind, TRANSPORT_PROTOCOL_VERSION};
use std::time::Duration;

fn address() -> ActorAddress {
    ActorAddress::new("room", "lobby").unwrap()
}

fn session(n: u8) -> SessionId {
    SessionId::from_bytes(&[n; 16]).unwrap()
}

fn endpoint(name: &str) -> Endpoint {
    Endpoint::new(name.to_string())
}

fn owner(node: &str, life: &str) -> ActorOwner {
    ActorOwner { node_id: node.into(), session_id: NodeSessionId::from_text(life.into()) }
}

fn node(name: &str, life: &str, active: usize, max: usize) -> NodeRecord {
    NodeRecord {
        node_id: name.into(),
        session_id: NodeSessionId::from_text(life.into()),
        advertised_endpoint: format!("{name}:1"),
        protocol_version: TRANSPORT_PROTOCOL_VERSION,
        lease_generation: 1,
        sampled_at_unix_ms: 0,
        active_actor_count: active,
        max_actor_count: max,
        pressured: false,
        draining: false,
    }
}

fn candidate(name: &str) -> PlacementCandidate {
    PlacementCandidate { endpoint: name.into(), active_actor_count: 0, max_actor_count: 1 }
}

fn client_with(attempts: usize) -> ClientInner<u32> {
    let built: Client<u32, (), P2cPlacement> =
        ClientBuilder::new(()).max_open_attempts(attempts).build().ok().unwrap();
    built.inner
}

fn client() -> ClientInner<u32> {
    client_with(3)
}

fn message(session_id: &SessionId, kind: Option<Kind>) -> Envelope {
    Envelope {
        protocol_version: TRANSPORT_PROTOCOL_VERSION,
        actor_type: String::new(),
        actor_id: Vec::new(),
        session_id: session_id.as_bytes(),
        kind,
    }
}

fn failure(error: SendError) -> i32 {
    error.to_wire()
}

fn listen(client: &mut ClientInner<u32>, id: SessionId) -> Inbox<SessionItem> {
    let (sender, receiver) = mailbox(4);
    client.sessions.register_local(id, sender);
    receiver
}

#[test]
fn builders_check_their_limits() {
    let zero = Duration::from_secs(0);
    let error = |result: Result<Client<u32, (), P2cPlacement>, ClientBuildError>| result.err();
    assert_eq!(
        error(ClientBuilder::new(()).open_timeout(zero).build()),
        Some(ClientBuildError::InvalidOpenTimeout)
    );
    assert_eq!(
        error(ClientBuilder::new(()).transport_connect_timeout(zero).build()),
        Some(ClientBuildError::InvalidTransportConnectTimeout)
    );
    assert_eq!(
        error(ClientBuilder::new(()).max_open_attempts(0).build()),
        Some(ClientBuildError::InvalidMaxOpenAttempts)
    );
    assert_eq!(
        error(ClientBuilder::new(()).max_connections_per_endpoint(0).build()),
        Some(ClientBuildError::InvalidMaxConnectionsPerEndpoint)
    );
    let built: Client<u32, &str, P2cPlacement> = ClientBuilder::new("store")
        .open_timeout(Duration::from_secs(9))
        .max_connections_per_endpoint(2)
        .build()
        .ok()
        .unwrap();
    assert_eq!(built.coordination, "store");
    assert_eq!(built.inner.open_timeout, Duration::from_secs(9));
    assert_eq!(built.inner.max_open_attempts, 3);
    assert_eq!(built.inner.max_connections_per_endpoint, 2);
    assert!(built.inner.running);
}

#[test]
fn requests_name_the_actor_and_the_session() {
    let open = envelope_session_open(&address(), session(1));
    assert_eq!(open.protocol_version, TRANSPORT_PROTOCOL_VERSION);
    assert_eq!(open.actor_type, "room");
    assert_eq!(open.actor_id, b"lobby".to_vec());
    assert_eq!(open.session_id, vec![1; 16]);
    assert!(matches!(open.kind, Some(Kind::SessionOpen)));
    let action = envelope_action(&address(), session(1), vec![7]);
    assert!(matches!(action.kind, Some(Kind::Action { payload }) if payload == vec![7]));
    let close = envelope_session_close(&address(), session(1));
    assert!(matches!(close.kind, Some(Kind::SessionClose { .. })));
}

#[test]
fn callers_receive_until_they_are_terminated() {
    let mut registry = CallerRegistry::new();
    let (sender, mut receiver) = mailbox(1);
    registry.register_local(session(1), sender);
    assert!(matches!(registry.deliver(&session(1), Ok(vec![1])), Some(Offer::Taken)));
    assert!(matches!(registry.deliver(&session(1), Ok(vec![2])), Some(Offer::Full(Ok(item))) if item == vec![2]));
    assert!(registry.deliver(&session(2), Ok(vec![1])).is_none());
    assert_eq!(receiver.receiver().try_recv().unwrap(), Ok(vec![1]));
    let told = registry.terminate(&session(1), SendError::RemoteUnavailable);
    assert!(matches!(told, Some(Ended { answer: Offer::Taken, .. })));
    assert_eq!(receiver.receiver().try_recv().unwrap(), Err(SendError::RemoteUnavailable));
    assert!(registry.terminate(&session(1), SendError::RemoteUnavailable).is_none());
    assert!(registry.deliver(&session(1), Ok(vec![1])).is_none());
}

#[test]
fn connections_count_their_sessions() {
    let mut connection = TransportConnection::new(5, &endpoint("a"));
    assert_eq!(connection.id(), 5);
    assert!(connection.goes_to(&endpoint("a")) && !connection.goes_to(&endpoint("b")));
    connection.bind(session(1));
    connection.bind(session(1));
    connection.bind(session(2));
    assert_eq!(connection.bound_sessions(), 2);
    connection.unbind(&session(1));
    assert!(!connection.is_bound(&session(1)) && connection.is_bound(&session(2)));
    assert_eq!(connection.admits(), Ok(()));
    assert!(connection.close());
    assert!(!connection.close());
    assert_eq!(connection.admits(), Err(SendError::RemoteUnavailable));
    assert_eq!(connection.drain(), vec![session(2)]);
    assert_eq!(connection.bound_sessions(), 0);
}

#[test]
fn pools_fill_up_before_they_share() {
    let mut pools = ConnectionPools::new();
    assert_eq!(pools.plan(&endpoint("a"), session(1), 2), ConnectionPlan::Connect);
    let first = pools.connected(&endpoint("a"), session(1));
    assert_eq!(pools.plan(&endpoint("a"), session(2), 2), ConnectionPlan::Connect);
    let second = pools.connected(&endpoint("a"), session(2));
    assert_eq!((first, second), (1, 2));
    assert_eq!(pools.plan(&endpoint("a"), session(3), 2), ConnectionPlan::Reuse(first));
    assert_eq!(pools.plan(&endpoint("a"), session(4), 2), ConnectionPlan::Reuse(second));
    assert_eq!(pools.plan(&endpoint("b"), session(5), 2), ConnectionPlan::Connect);
    assert!(pools.is_bound(first, &session(3)) && pools.is_bound(second, &session(4)));
    pools.unbind(first, &session(3));
    assert!(!pools.is_bound(first, &session(3)));
    let mut gone = pools.remove(second);
    gone.sort_by_key(|id| id.as_bytes());
    assert_eq!(gone, vec![session(2), session(4)]);
    assert_eq!(pools.admits(second), Err(SendError::RemoteUnavailable));
    assert_eq!(pools.plan(&endpoint("a"), session(6), 2), ConnectionPlan::Connect);
    assert_eq!(pools.clear(), vec![first]);
}

#[test]
fn only_nodes_with_room_are_candidates() {
    let mut pressured = node("pressured", "p", 0, 1);
    pressured.pressured = true;
    let mut draining = node("draining", "d", 0, 1);
    draining.draining = true;
    let mut foreign = node("foreign", "f", 0, 1);
    foreign.protocol_version = TRANSPORT_PROTOCOL_VERSION + 1;
    let mut nowhere = node("nowhere", "n", 0, 1);
    nowhere.advertised_endpoint = "  ".into();
    let nodes = vec![
        node("a", "1", 3, 4),
        node("full", "2", 4, 4),
        pressured,
        draining,
        foreign,
        nowhere,
        node("b", "3", 0, 9),
    ];
    let candidates = hard_filter(&nodes);
    let names: Vec<&str> = candidates.iter().map(|c| c.endpoint.as_str()).collect();
    assert_eq!(names, vec!["a:1", "b:1"]);
    assert_eq!((candidates[0].active_actor_count, candidates[0].max_actor_count), (3, 4));
    let left = exclude(&candidates, &vec!["a:1".to_string()]);
    assert_eq!(left.len(), 1);
    assert_eq!(left[0].endpoint, "b:1");
}

#[test]
fn the_first_valid_candidate_is_chosen() {
    let candidates = vec![candidate("a"), candidate("b")];
    let ordered = vec!["gone".to_string(), "b".to_string(), "a".to_string()];
    assert_eq!(choose_candidate(&ordered, &candidates).unwrap().as_str(), "b");
    assert_eq!(
        choose_candidate(&vec!["gone".to_string()], &candidates).err(),
        Some(SendError::RuntimeAtCapacity)
    );
    let mut placement = P2cPlacement::new();
    let excluded = vec!["a".to_string()];
    let choice = select_placement_candidate(&address(), &candidates, &excluded, &mut placement, 0);
    assert_eq!(choice.unwrap().as_str(), "b");
    let all = vec!["a".to_string(), "b".to_string()];
    let none = select_placement_candidate(&address(), &candidates, &all, &mut placement, 0);
    assert_eq!(none.err(), Some(SendError::RuntimeAtCapacity));
}

#[test]
fn candidates_are_cached_for_a_while() {
    let mut client = client();
    assert!(client.cached_candidates(0).is_none());
    client.cache_candidates(&vec![node("a", "1", 0, 1)], 5);
    assert_eq!(client.cached_candidates(5 + PLACEMENT_CACHE_TTL - 1).unwrap().len(), 1);
    assert!(client.cached_candidates(5 + PLACEMENT_CACHE_TTL).is_none());
}

#[test]
fn messages_reach_only_sessions_of_their_connection() {
    let mut client = client();
    let mut receiver = listen(&mut client, session(1));
    let connection = client.pools.connected(&endpoint("a"), session(1));
    let other = client.pools.connected(&endpoint("a"), session(2));
    let event = |payload: Vec<u8>| message(&session(1), Some(Kind::Event { payload }));
    assert!(matches!(client.handle_envelope(event(vec![1]), other), Received::Ignored));
    assert!(matches!(client.handle_envelope(event(vec![2]), connection), Received::Delivered(Offer::Taken)));
    assert_eq!(receiver.receiver().try_recv().unwrap(), Ok(vec![2]));
    let kind = Kind::SessionError { failure: failure(SendError::MailboxFull) };
    let error = client.handle_envelope(message(&session(1), Some(kind)), connection);
    assert!(matches!(error, Received::Delivered(Offer::Taken)));
    assert_eq!(receiver.receiver().try_recv().unwrap(), Err(SendError::MailboxFull));
    assert!(matches!(client.handle_envelope(message(&session(1), None), connection), Received::Ignored));
    let mut short = event(vec![3]);
    short.session_id.pop();
    assert!(matches!(client.handle_envelope(short, connection), Received::Ignored));
    let request = message(&session(1), Some(Kind::SessionOpen));
    assert!(matches!(client.handle_envelope(request, connection), Received::Ignored));
}

#[test]
fn acknowledgements_answer_the_waiting_caller_once() {
    let mut client = client();
    let connection = client.pools.connected(&endpoint("a"), session(1));
    let request = client.begin_session_open(&address(), session(1), connection, 11).unwrap();
    assert_eq!(request.connection, connection);
    assert!(matches!(request.envelope.kind, Some(Kind::SessionOpen)));
    let ack = |outcome| message(&session(1), Some(Kind::SessionOpenedAck { outcome }));
    let opened = ack(Some(AckOutcome::Opened(vec![])));
    assert!(matches!(client.handle_envelope(opened, connection + 1), Received::Ignored));
    let opened = ack(Some(AckOutcome::Opened(vec![])));
    assert!(matches!(
        client.handle_envelope(opened, connection),
        Received::Answered { complete: 11, result: Ok(()) }
    ));
    let again = ack(Some(AckOutcome::Opened(vec![])));
    assert!(matches!(client.handle_envelope(again, connection), Received::Ignored));
    assert_eq!(
        read_ack(Some(AckOutcome::Failure(failure(SendError::NotOwner)))),
        Err(SendError::NotOwner)
    );
    assert_eq!(
        read_ack(None),
        Err(SendError::RemoteProtocol(RemoteProtocolError::MalformedMessage))
    );
}

#[test]
fn a_lost_connection_ends_what_it_carried() {
    let mut client = client();
    let mut first = listen(&mut client, session(1));
    let mut third = listen(&mut client, session(3));
    let connection = client.pools.connected(&endpoint("a"), session(1));
    client.pools.plan(&endpoint("a"), session(2), 1);
    let other = client.pools.connected(&endpoint("a"), session(3));
    client.begin_session_open(&address(), session(2), connection, 22).ok();
    client.begin_session_open(&address(), session(3), other, 33).ok();
    let lost = client.connection_lost(connection);
    assert_eq!(lost.replies, vec![22]);
    assert_eq!(lost.notices.len(), 1);
    assert_eq!(first.receiver().try_recv().unwrap(), Err(SendError::RemoteUnavailable));
    assert!(third.receiver().try_recv().is_err());
    assert!(client.pending_opens.contains(&session(3)));
    assert_eq!(client.pools.admits(connection), Err(SendError::RemoteUnavailable));
    assert_eq!(client.pools.admits(other), Ok(()));
    let again = client.connection_lost(connection);
    assert!(again.replies.is_empty() && again.notices.is_empty());
}

#[test]
fn sessions_send_and_close_over_their_connection() {
    let mut client = client();
    let connection = client.pools.connected(&endpoint("a"), session(1));
    let action = client.session_send(&address(), session(1), connection, vec![4]).unwrap();
    assert_eq!(action.connection, connection);
    assert!(matches!(action.envelope.kind, Some(Kind::Action { payload }) if payload == vec![4]));
    let close = client.session_dropped(&address(), session(1), connection).unwrap();
    assert!(matches!(close.envelope.kind, Some(Kind::SessionClose { .. })));
    assert!(!client.pools.is_bound(connection, &session(1)));
    client.connection_lost(connection);
    assert_eq!(
        client.session_send(&address(), session(1), connection, vec![4]).err(),
        Some(SendError::RemoteUnavailable)
    );
    assert!(client.session_dropped(&address(), session(1), connection).is_none());
}

#[test]
fn shutdown_happens_once() {
    let mut client = client();
    let mut receiver = listen(&mut client, session(1));
    let connection = client.pools.connected(&endpoint("a"), session(1));
    client.begin_session_open(&address(), session(2), connection, 2).ok();
    let (closed, notices) = client.shutdown().unwrap();
    assert_eq!(closed, vec![connection]);
    assert_eq!(notices.len(), 1);
    assert_eq!(receiver.receiver().try_recv().unwrap(), Err(SendError::RuntimeStopped));
    assert!(client.shutdown().is_none());
    let next = client.pools.connected(&endpoint("a"), session(9));
    assert!(closed.iter().all(|id| *id < next));
    assert!(matches!(Opening::begin(&client, &address(), 0), Err(OpenError::RuntimeStopped)));
    assert!(!client.pending_opens.contains(&session(2)));
}

#[test]
fn owners_are_looked_up_in_two_reads() {
    let versioned = |owner| VersionedActorOwnerRecord {
        record: ActorOwnerRecord { owner, ownership_epoch: 3 },
        revision: Revision::new("r".into()),
    };
    assert!(matches!(
        owner_read(StoreReply::Ready(None)),
        OwnerLookup::Settled(Ok(OwnerResolution::Unowned))
    ));
    assert!(matches!(
        owner_read(StoreReply::Ready(Some(versioned(None)))),
        OwnerLookup::Settled(Ok(OwnerResolution::Unowned))
    ));
    assert!(matches!(
        owner_read(StoreReply::TimedOut),
        OwnerLookup::Settled(Err(SendError::OwnershipUnavailable))
    ));
    let error = CoordinationError::from_kind(CoordinationErrorKind::Unavailable);
    assert!(matches!(
        owner_read(StoreReply::Failed(error)),
        OwnerLookup::Settled(Err(SendError::OwnershipUnavailable))
    ));
    match owner_read(StoreReply::Ready(Some(versioned(Some(owner("a", "1")))))) {
        OwnerLookup::ReadNode { owner: found } => assert_eq!(found, owner("a", "1")),
        _ => panic!("the owner is not read"),
    }
    let live = node_read(owner("a", "1"), StoreReply::Ready(Some(node("a", "1", 0, 1))));
    assert!(matches!(live, Ok(OwnerResolution::Live { endpoint, .. }) if endpoint.as_str() == "a:1"));
    let reborn = node_read(owner("a", "1"), StoreReply::Ready(Some(node("a", "2", 0, 1))));
    assert!(matches!(reborn, Ok(OwnerResolution::Unowned)));
    assert!(matches!(node_read(owner("a", "1"), StoreReply::Ready(None)), Ok(OwnerResolution::Unowned)));
    let mut foreign = node("a", "1", 0, 1);
    foreign.protocol_version += 1;
    assert!(matches!(
        node_read(owner("a", "1"), StoreReply::Ready(Some(foreign))),
        Err(SendError::RemoteUnavailable)
    ));
    assert!(matches!(
        node_read(owner("a", "1"), StoreReply::TimedOut),
        Err(SendError::DirectoryUnavailable)
    ));
}

fn ask(opening: &mut Opening, client: &mut ClientInner<u32>, name: &str) -> u64 {
    let id = client.pools.connected(&endpoint(name), opening.session_id());
    let step = opening.connected(client, Some(id));
    assert!(matches!(step.action, OpenAction::Ask { .. }));
    id
}

#[test]
fn an_opening_reaches_the_owner() {
    let mut client = client();
    let (mut opening, first) = Opening::begin(&client, &address(), 0).ok().unwrap();
    assert!(matches!(first, OpenAction::Resolve { .. }));
    let live = OwnerResolution::Live { endpoint: endpoint("a"), owner: owner("a", "1") };
    let step = opening.resolved(Ok(live), 3);
    assert!(matches!(step.action, OpenAction::Connect { endpoint, .. } if endpoint.as_str() == "a"));
    let id = ask(&mut opening, &mut client, "a");
    let step = opening.answered(&mut client, id, true, Ok(()));
    assert!(matches!(step.action, OpenAction::Finish(Ok(()))));
    assert!(client.pools.is_bound(id, &opening.session_id()));
}

#[test]
fn an_opening_gives_up_on_an_owner_that_cannot_be_reached() {
    let mut client = client();
    let (mut opening, _) = Opening::begin(&client, &address(), 0).ok().unwrap();
    let live = || OwnerResolution::Live { endpoint: endpoint("a"), owner: owner("a", "1") };
    opening.resolved(Ok(live()), 3);
    let step = opening.connected(&mut client, None);
    assert!(matches!(step.action, OpenAction::Resolve { .. }));
    assert_eq!(step.placement_failed, None);
    let step = opening.resolved(Ok(live()), 3);
    assert!(matches!(step.action, OpenAction::Finish(Err(OpenError::RemoteUnavailable))));
    let reborn = OwnerResolution::Live { endpoint: endpoint("a"), owner: owner("a", "2") };
    assert!(matches!(opening.resolved(Ok(reborn), 3).action, OpenAction::Connect { .. }));
    let error = opening.resolved(Err(SendError::DirectoryUnavailable), 3);
    assert!(matches!(error.action, OpenAction::Finish(Err(OpenError::DirectoryUnavailable))));
}

#[test]
fn an_opening_does_not_place_an_actor_twice_at_a_full_node() {
    let mut client = client();
    let (mut opening, _) = Opening::begin(&client, &address(), 0).ok().unwrap();
    assert!(matches!(opening.resolved(Ok(OwnerResolution::Unowned), 3).action, OpenAction::Place { .. }));
    let step = opening.placed(Ok(endpoint("a")), 3);
    assert!(matches!(step.action, OpenAction::Connect { .. }));
    let id = ask(&mut opening, &mut client, "a");
    let step = opening.answered(&mut client, id, true, Err(SendError::RuntimeAtCapacity));
    assert!(matches!(step.action, OpenAction::Resolve { .. }));
    assert_eq!(step.placement_failed, Some("a".to_string()));
    assert!(matches!(step.close.unwrap().envelope.kind, Some(Kind::SessionClose { .. })));
    assert_eq!(opening.excluded(), &vec!["a".to_string()]);
    assert!(!client.pools.is_bound(id, &opening.session_id()));
    let step = opening.placed(Err(SendError::RuntimeAtCapacity), 3);
    assert!(matches!(step.action, OpenAction::Finish(Err(OpenError::RuntimeAtCapacity))));
}

#[test]
fn a_full_owner_ends_an_opening() {
    let mut client = client();
    let (mut opening, _) = Opening::begin(&client, &address(), 0).ok().unwrap();
    let live = OwnerResolution::Live { endpoint: endpoint("a"), owner: owner("a", "1") };
    opening.resolved(Ok(live), 3);
    let id = ask(&mut opening, &mut client, "a");
    let step = opening.answered(&mut client, id, true, Err(SendError::RuntimeAtCapacity));
    assert!(matches!(step.action, OpenAction::Finish(Err(OpenError::RuntimeAtCapacity))));
    assert_eq!(step.placement_failed, None);
}

#[test]
fn attempts_are_exhausted() {
    let mut client = client_with(2);
    let (mut opening, _) = Opening::begin(&client, &address(), 0).ok().unwrap();
    for last in [false, true] {
        let live = OwnerResolution::Live { endpoint: endpoint("a"), owner: owner("a", "1") };
        opening.resolved(Ok(live), 2);
        let id = ask(&mut opening, &mut client, "a");
        let step = opening.answered(&mut client, id, true, Err(SendError::NotOwner));
        if last {
            assert!(matches!(step.action, OpenAction::Finish(Err(OpenError::AttemptsExhausted))));
        } else {
            assert!(matches!(step.action, OpenAction::Resolve { .. }));
        }
    }
}

#[test]
fn an_opening_has_one_deadline() {
    let mut client = client();
    client.open_timeout = Duration::from_nanos(500);
    let (mut opening, first) = Opening::begin(&client, &address(), 40).ok().unwrap();
    assert!(matches!(first, OpenAction::Resolve { until: 540 }));
    let live = OwnerResolution::Live { endpoint: endpoint("b"), owner: owner("b", "1") };
    let step = opening.resolved(Ok(live), 3);
    assert!(matches!(step.action, OpenAction::Connect { until: 540, .. }));
    let step = opening.connected(&mut client, None);
    assert!(matches!(step.action, OpenAction::Resolve { until: 540 }));
    let step = opening.resolved(Ok(OwnerResolution::Unowned), 3);
    assert!(matches!(step.action, OpenAction::Place { until: 540 }));
    let step = opening.placed(Ok(endpoint("a")), 3);
    assert!(matches!(step.action, OpenAction::Connect { until: 540, .. }));
    let id = client.pools.connected(&endpoint("a"), opening.session_id());
    let step = opening.connected(&mut client, Some(id));
    assert!(matches!(step.action, OpenAction::Ask { until: 540 }));
    let step = opening.answered(&mut client, id, true, Err(SendError::NotOwner));
    assert!(matches!(step.action, OpenAction::Resolve { until: 540 }));
    client.open_timeout = Duration::MAX;
    let (_, late) = Opening::begin(&client, &address(), u64::MAX).ok().unwrap();
    let until_late = u64::MAX as u128 + Duration::MAX.as_nanos();
    assert!(matches!(late, OpenAction::Resolve { until } if until == until_late));
}

#[test]
fn abandoned_openings_leave_nothing_behind() {
    let mut client = client();
    let (mut opening, _) = Opening::begin(&client, &address(), 0).ok().unwrap();
    listen(&mut client, opening.session_id());
    opening.resolved(Ok(OwnerResolution::Unowned), 3);
    opening.placed(Ok(endpoint("a")), 3);
    let id = ask(&mut opening, &mut client, "a");
    client.begin_session_open(&address(), opening.session_id(), id, 1).ok();
    opening.abandon(&mut client);
    assert!(!client.pending_opens.contains(&opening.session_id()));
    assert!(client.sessions.deliver(&opening.session_id(), Ok(vec![])).is_none());
}

#[test]
fn unanswered_requests_count_as_unavailable() {
    assert_eq!(ask_outcome(Err(SendError::MailboxFull), None), (false, Err(SendError::MailboxFull)));
    assert_eq!(ask_outcome(Ok(()), None), (true, Err(SendError::RemoteUnavailable)));
    assert_eq!(ask_outcome(Ok(()), Some(Ok(()))), (true, Ok(())));
    assert_eq!(
        ask_outcome(Ok(()), Some(Err(SendError::NotOwner))),
        (true, Err(SendError::NotOwner))
    );
}

#[test]
fn discovery_lists_each_endpoint_once() {
    let list = StaticListDiscovery::new(vec![endpoint("b"), endpoint("a"), endpoint("b")]);
    let names: Vec<String> = list.resolve().iter().map(|e| e.as_str().to_string()).collect();
    assert_eq!(names, vec!["b", "a", "b"]);
    let addresses = vec!["10.0.0.2:1".to_string(), "10.0.0.1:1".to_string(), "10.0.0.2:1".to_string()];
    let found = DnsDiscovery::endpoints(&addresses);
    let names: Vec<&str> = found.iter().map(|e| e.as_str()).collect();
    assert_eq!(names, vec!["http://10.0.0.1:1", "http://10.0.0.2:1"]);
    assert_eq!(DnsDiscovery::new("svc:1".into()).name(), "svc:1");
    let error = DiscoveryError::ResolveFailed("no such host".into());
    assert_eq!(error.message(), "discovery failed: no such host");
}
