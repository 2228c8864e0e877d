use coactor::actor::ActorAddress;
use coactor::cluster::authority::{
    ActorOwner, ActorOwnerRecord, CoordinationError, CoordinationErrorKind, MutationOutcome,
    NodeRecord, NodeSessionId, Revision, StoreReply, VersionedActorOwnerRecord,
};
use coactor::cluster::endpoint::SocketText;
use coactor::cluster::in_process::{release_over, resolve_over};
use coactor::cluster::lease::{
    random_share, share_of, LeaseConfirmation, LeaseRenewal, RenewalAction,
};
use coactor::cluster::node::NodeAuthority;
use coactor::cluster::routing::{
    ClusterRouter, OwnerRelease, ReleaseAction, Resolution, ResolveAction, ResolvedOwner,
};
use coactor::cluster::startup::{
    begin_start, bound, check_ended, serve_result, supervise, AcquireStep, StartAction, Startup,
    Supervision,
};
use coactor::error::{SendError, ServerError};
use coactor::runtime::builder::{ServerBuilder, ServerBuilderCore, ServerRuntimeConfig, ServerStarter};
use coactor::runtime::route::RouteTable;
use coactor::runtime::server::{ServerInner, Status};
use coactor::test_support::{test_endpoint, SingleNodeDirectory, TestCoordinationStore, TestServerBuilder};
use coactor::time::{after, wall_time_millis};
use std::time::Duration;

type Routes = RouteTable<ActorAddress, (), ()>;

fn address() -> ActorAddress {
    ActorAddress::new("room", "lobby").unwrap()
}

fn life(session: &str) -> NodeSessionId {
    NodeSessionId::from_text(session.into())
}

fn router(node: &str, session: &str) -> ClusterRouter {
    ClusterRouter::new(node.into(), life(session))
}

fn record(owner: Option<(&str, &str)>, epoch: u64) -> ActorOwnerRecord {
    ActorOwnerRecord {
        owner: owner.map(|(node, session)| ActorOwner {
            node_id: node.into(),
            session_id: life(session),
        }),
        ownership_epoch: epoch,
    }
}

fn versioned(owner: Option<(&str, &str)>, epoch: u64, revision: &str) -> VersionedActorOwnerRecord {
    VersionedActorOwnerRecord {
        record: record(owner, epoch),
        revision: Revision::new(revision.into()),
    }
}

fn node(id: &str, session: &str) -> NodeRecord {
    NodeRecord {
        node_id: id.into(),
        session_id: life(session),
        advertised_endpoint: format!("{id}:1"),
        protocol_version: 2,
        lease_generation: 0,
        sampled_at_unix_ms: 0,
        active_actor_count: 0,
        max_actor_count: 10,
        pressured: false,
        draining: false,
    }
}

fn unavailable() -> CoordinationError {
    CoordinationError::from_kind(CoordinationErrorKind::Unavailable)
}

fn revision(text: &str) -> Revision {
    Revision::new(text.into())
}

fn applied<T>(value: T) -> StoreReply<MutationOutcome<T>> {
    StoreReply::Ready(MutationOutcome::Applied(value))
}

fn conflict<T>() -> StoreReply<MutationOutcome<T>> {
    StoreReply::Ready(MutationOutcome::Conflict)
}

fn indeterminate<T>() -> StoreReply<MutationOutcome<T>> {
    StoreReply::Ready(MutationOutcome::Indeterminate(unavailable()))
}

fn finished(action: ResolveAction) -> Result<ResolvedOwner, SendError> {
    match action {
        ResolveAction::Finish(result) => result,
        _ => panic!("not finished"),
    }
}

fn claimed(action: ResolveAction) -> (ActorOwnerRecord, Option<Revision>) {
    match action {
        ResolveAction::CompareExchange { record, revision } => (record, revision),
        _ => panic!("no claim"),
    }
}

#[test]
fn unowned_actors_are_claimed_in_the_first_epoch() {
    let mut routes = Routes::new(1);
    let (mut resolution, first) = Resolution::begin(router("a", "s1"));
    assert!(matches!(first, ResolveAction::ReadOwner));
    let (claim, under) = claimed(resolution.on_owner(StoreReply::Ready(None), &mut routes));
    assert_eq!(claim, record(Some(("a", "s1")), 1));
    assert_eq!(under, None);
    assert_eq!(routes.available(), 0);
    let owner = finished(resolution.on_exchange(applied(revision("r1")), &mut routes));
    assert_eq!(owner, Ok(ResolvedOwner::Local { reserved: true }));
    assert_eq!(routes.available(), 0);
}

#[test]
fn own_actors_are_local() {
    let mut routes = Routes::new(1);
    let (mut resolution, _) = Resolution::begin(router("a", "s1"));
    let read = StoreReply::Ready(Some(versioned(Some(("a", "s1")), 4, "r")));
    let owner = finished(resolution.on_owner(read, &mut routes));
    assert_eq!(owner, Ok(ResolvedOwner::Local { reserved: false }));
    assert_eq!(routes.available(), 1);
}

#[test]
fn live_owners_keep_their_actors() {
    let mut routes = Routes::new(1);
    let (mut resolution, _) = Resolution::begin(router("a", "s1"));
    let read = StoreReply::Ready(Some(versioned(Some(("b", "s2")), 4, "r")));
    match resolution.on_owner(read, &mut routes) {
        ResolveAction::ReadNode { node_id } => assert_eq!(node_id, "b"),
        _ => panic!("no node read"),
    }
    let owner = finished(resolution.on_node(StoreReply::Ready(Some(node("b", "s2"))), &mut routes));
    assert_eq!(owner, Ok(ResolvedOwner::Remote));
}

#[test]
fn stale_owners_lose_their_actors_to_a_later_epoch() {
    for lease in [None, Some(node("b", "s3"))] {
        let mut routes = Routes::new(1);
        let (mut resolution, _) = Resolution::begin(router("a", "s1"));
        let read = StoreReply::Ready(Some(versioned(Some(("b", "s2")), 4, "r")));
        resolution.on_owner(read, &mut routes);
        let (claim, under) = claimed(resolution.on_node(StoreReply::Ready(lease), &mut routes));
        assert_eq!(claim, record(Some(("a", "s1")), 5));
        assert_eq!(under, Some(revision("r")));
    }
}

#[test]
fn epochs_stop_at_their_end() {
    let mut routes = Routes::new(1);
    let (mut resolution, _) = Resolution::begin(router("a", "s1"));
    let read = StoreReply::Ready(Some(versioned(None, u64::MAX, "r")));
    let (claim, _) = claimed(resolution.on_owner(read, &mut routes));
    assert_eq!(claim.ownership_epoch, u64::MAX);
}

#[test]
fn earlier_lives_are_taken_over_without_a_second_try() {
    let start = |routes: &mut Routes| {
        let (mut resolution, _) = Resolution::begin(router("a", "s2"));
        let read = StoreReply::Ready(Some(versioned(Some(("a", "s1")), 4, "r")));
        let (claim, under) = claimed(resolution.on_owner(read, routes));
        assert_eq!((claim.ownership_epoch, under), (5, Some(revision("r"))));
        resolution
    };
    let mut routes = Routes::new(1);
    let owner = finished(start(&mut routes).on_exchange(conflict(), &mut routes));
    assert_eq!(owner, Ok(ResolvedOwner::Remote));
    assert_eq!(routes.available(), 1);
    let mut resolution = start(&mut routes);
    assert!(matches!(resolution.on_exchange(indeterminate(), &mut routes), ResolveAction::ReadOwner));
    let other = StoreReply::Ready(Some(versioned(Some(("b", "s9")), 6, "r2")));
    let owner = finished(resolution.on_owner(other, &mut routes));
    assert_eq!(owner, Err(SendError::OwnershipUnavailable));
    assert_eq!(routes.available(), 1);
    let mut resolution = start(&mut routes);
    resolution.on_exchange(indeterminate(), &mut routes);
    let mine = StoreReply::Ready(Some(versioned(Some(("a", "s2")), 5, "r2")));
    let owner = finished(resolution.on_owner(mine, &mut routes));
    assert_eq!(owner, Ok(ResolvedOwner::Local { reserved: true }));
}

#[test]
fn conflicts_lead_to_three_rounds_at_most() {
    let mut routes = Routes::new(1);
    let (mut resolution, _) = Resolution::begin(router("a", "s1"));
    for round in 0..3 {
        claimed(resolution.on_owner(StoreReply::Ready(None), &mut routes));
        let action = resolution.on_exchange(conflict(), &mut routes);
        assert_eq!(routes.available(), 1);
        if round < 2 {
            assert!(matches!(action, ResolveAction::ReadOwner));
        } else {
            assert_eq!(finished(action), Ok(ResolvedOwner::Remote));
        }
    }
}

#[test]
fn uncertain_claims_are_looked_up_three_times() {
    let mut routes = Routes::new(1);
    let (mut resolution, _) = Resolution::begin(router("a", "s1"));
    resolution.on_owner(StoreReply::Ready(None), &mut routes);
    resolution.on_exchange(indeterminate(), &mut routes);
    assert!(matches!(
        resolution.on_owner(StoreReply::TimedOut, &mut routes),
        ResolveAction::ReadOwner
    ));
    assert!(matches!(
        resolution.on_owner(StoreReply::Ready(None), &mut routes),
        ResolveAction::ReadOwner
    ));
    let owner = finished(resolution.on_owner(StoreReply::Failed(unavailable()), &mut routes));
    assert_eq!(owner, Err(SendError::OwnershipUnavailable));
    assert_eq!(routes.available(), 1);
}

#[test]
fn uncertain_claims_that_lost_start_over() {
    let mut routes = Routes::new(1);
    let (mut resolution, _) = Resolution::begin(router("a", "s1"));
    resolution.on_owner(StoreReply::Ready(None), &mut routes);
    resolution.on_exchange(indeterminate(), &mut routes);
    let other = || StoreReply::Ready(Some(versioned(Some(("b", "s2")), 1, "r")));
    assert!(matches!(resolution.on_owner(other(), &mut routes), ResolveAction::ReadOwner));
    assert_eq!(routes.available(), 1);
    assert!(matches!(resolution.on_owner(other(), &mut routes), ResolveAction::ReadNode { .. }));
}

#[test]
fn resolutions_fail_with_the_store_and_without_room() {
    let mut full = Routes::new(0);
    let (mut resolution, _) = Resolution::begin(router("a", "s1"));
    let owner = finished(resolution.on_owner(StoreReply::Ready(None), &mut full));
    assert_eq!(owner, Err(SendError::RuntimeAtCapacity));
    let mut routes = Routes::new(1);
    let (mut resolution, _) = Resolution::begin(router("a", "s1"));
    let owner = finished(resolution.on_owner(StoreReply::TimedOut, &mut routes));
    assert_eq!(owner, Err(SendError::OwnershipUnavailable));
    let (mut resolution, _) = Resolution::begin(router("a", "s1"));
    let read = StoreReply::Ready(Some(versioned(Some(("b", "s2")), 4, "r")));
    resolution.on_owner(read, &mut routes);
    let owner = finished(resolution.on_node(StoreReply::Failed(unavailable()), &mut routes));
    assert_eq!(owner, Err(SendError::OwnershipUnavailable));
    let (mut resolution, _) = Resolution::begin(router("a", "s1"));
    resolution.on_owner(StoreReply::Ready(None), &mut routes);
    let owner = finished(resolution.on_exchange(StoreReply::TimedOut, &mut routes));
    assert_eq!(owner, Err(SendError::OwnershipUnavailable));
    assert_eq!(routes.available(), 1);
}

fn released(action: ReleaseAction) -> Result<(), SendError> {
    match action {
        ReleaseAction::Finish(result) => result,
        _ => panic!("not finished"),
    }
}

#[test]
fn owners_release_what_they_own() {
    let mine = || StoreReply::Ready(Some(versioned(Some(("a", "s1")), 4, "r")));
    let (mut release, _) = OwnerRelease::begin(router("a", "s1"));
    match release.on_owner(mine()) {
        ReleaseAction::Release { record: written, revision: under } => {
            assert_eq!(written, record(None, 4));
            assert_eq!(under, revision("r"));
        }
        _ => panic!("no release"),
    }
    assert_eq!(released(release.on_exchange(applied(revision("r2")))), Ok(()));
    let gone = Err(SendError::OwnershipUnavailable);
    let (mut release, _) = OwnerRelease::begin(router("a", "s2"));
    assert_eq!(released(release.on_owner(mine())), gone);
    let (mut release, _) = OwnerRelease::begin(router("a", "s1"));
    assert_eq!(released(release.on_owner(StoreReply::Ready(None))), gone);
    let (mut release, _) = OwnerRelease::begin(router("a", "s1"));
    release.on_owner(mine());
    assert_eq!(released(release.on_exchange(StoreReply::TimedOut)), gone);
    let (mut release, _) = OwnerRelease::begin(router("a", "s1"));
    release.on_owner(mine());
    assert!(matches!(release.on_exchange(conflict()), ReleaseAction::ReadOwner));
    assert!(matches!(release.on_owner(mine()), ReleaseAction::ReadOwner));
    let free = StoreReply::Ready(Some(versioned(None, 4, "r2")));
    assert_eq!(released(release.on_owner(free)), Ok(()));
    let (mut release, _) = OwnerRelease::begin(router("a", "s1"));
    release.on_owner(mine());
    release.on_exchange(indeterminate());
    let other = StoreReply::Ready(Some(versioned(Some(("b", "s2")), 5, "r2")));
    assert_eq!(released(release.on_owner(other)), gone);
    let (mut release, _) = OwnerRelease::begin(router("a", "s1"));
    release.on_owner(mine());
    release.on_exchange(indeterminate());
    assert!(matches!(release.on_owner(StoreReply::TimedOut), ReleaseAction::ReadOwner));
    assert!(matches!(release.on_owner(StoreReply::TimedOut), ReleaseAction::ReadOwner));
    assert_eq!(released(release.on_owner(StoreReply::TimedOut)), gone);
}

#[test]
fn one_owner_at_a_time_and_failover_to_a_later_epoch() {
    let ttl = Duration::from_secs(10);
    let mut store = TestCoordinationStore::new();
    let mut a_routes = Routes::new(1);
    let mut b_routes = Routes::new(1);
    assert!(matches!(store.acquire_node(node("a", "s1"), ttl, 0), MutationOutcome::Applied(_)));
    assert!(matches!(store.acquire_node(node("b", "s2"), ttl, 0), MutationOutcome::Applied(_)));
    let first = resolve_over(&mut store, router("a", "s1"), &address(), &mut a_routes, 1);
    assert_eq!(first, Ok(ResolvedOwner::Local { reserved: true }));
    let again = resolve_over(&mut store, router("a", "s1"), &address(), &mut a_routes, 1);
    assert_eq!(again, Ok(ResolvedOwner::Local { reserved: false }));
    let other = resolve_over(&mut store, router("b", "s2"), &address(), &mut b_routes, 1);
    assert_eq!(other, Ok(ResolvedOwner::Remote));
    store.expire_node("a");
    let successor = resolve_over(&mut store, router("b", "s2"), &address(), &mut b_routes, 1);
    assert_eq!(successor, Ok(ResolvedOwner::Local { reserved: true }));
    let stored = store.read_actor_owner(&address()).unwrap();
    assert_eq!(stored.record, record(Some(("b", "s2")), 2));
    let former = resolve_over(&mut store, router("a", "s1"), &address(), &mut a_routes, 1);
    assert_eq!(former, Ok(ResolvedOwner::Remote));
    assert_eq!(
        release_over(&mut store, router("a", "s1"), &address()),
        Err(SendError::OwnershipUnavailable)
    );
    assert_eq!(release_over(&mut store, router("b", "s2"), &address()), Ok(()));
    assert_eq!(store.read_actor_owner(&address()).unwrap().record, record(None, 2));
    let full = resolve_over(&mut store, router("a", "s1"), &address(), &mut a_routes, 1);
    assert_eq!(full, Err(SendError::RuntimeAtCapacity));
}

#[test]
fn stores_write_only_under_the_revision_that_was_read() {
    let ttl = Duration::from_millis(10);
    let mut store = TestCoordinationStore::new();
    let first = match store.acquire_node(node("a", "s1"), ttl, 5) {
        MutationOutcome::Applied(revision) => revision,
        _ => panic!("not acquired"),
    };
    assert_eq!(first.as_str(), "test-revision-1");
    assert!(matches!(store.acquire_node(node("a", "s2"), ttl, 14), MutationOutcome::Conflict));
    assert_eq!(store.read_node("a", 14), Some(node("a", "s1")));
    assert_eq!(store.read_node("a", 15), None);
    assert_eq!(store.list_nodes(14), vec![node("a", "s1")]);
    assert!(store.list_nodes(15).is_empty());
    let second = match store.renew_node(node("a", "s1"), ttl, &first, 14) {
        MutationOutcome::Applied(revision) => revision,
        _ => panic!("not renewed"),
    };
    assert!(matches!(store.renew_node(node("a", "s1"), ttl, &first, 14), MutationOutcome::Conflict));
    assert_eq!(store.read_node_lease("a", 20), Some((node("a", "s1"), second.clone())));
    assert!(matches!(store.release_node("a", &first), MutationOutcome::Conflict));
    assert!(matches!(store.release_node("a", &second), MutationOutcome::Applied(())));
    assert_eq!(store.read_node("a", 0), None);
    let claim = || record(Some(("a", "s1")), 1);
    let stale = Revision::new("nothing".into());
    assert!(matches!(
        store.compare_exchange_actor_owner(&address(), claim(), Some(&stale)),
        MutationOutcome::Conflict
    ));
    assert!(matches!(
        store.compare_exchange_actor_owner(&address(), claim(), None),
        MutationOutcome::Applied(_)
    ));
    assert!(matches!(
        store.compare_exchange_actor_owner(&address(), claim(), None),
        MutationOutcome::Conflict
    ));
    let current = store.read_actor_owner(&address()).unwrap();
    let released = store.release_actor_owner(&address(), &current);
    let stored = store.read_actor_owner(&address()).unwrap();
    assert!(matches!(released, MutationOutcome::Applied(revision) if revision == stored.revision));
    assert_eq!(stored.revision.as_str(), "test-revision-4");
    assert_eq!(store.revisions(), 4);
    assert!(matches!(store.release_actor_owner(&address(), &current), MutationOutcome::Conflict));
    store.remove_node("a");
}

#[test]
fn authority_ends_at_its_deadline_and_with_fencing() {
    let mut authority = NodeAuthority::new(100, Duration::from_nanos(50));
    assert_eq!(authority.deadline(), 150);
    assert!(authority.is_valid(149));
    assert!(!authority.is_valid(150));
    assert_eq!(authority.remaining(150), Some(0));
    assert_eq!(authority.remaining(151), None);
    authority.renew(120);
    assert!(authority.is_valid(169));
    assert!(authority.fence());
    assert!(!authority.fence());
    authority.renew(500);
    assert!(!authority.is_valid(501));
}

fn clustered_server(ttl: Duration) -> ServerInner<u32, ()> {
    let core = ServerBuilderCore::base(Some(()));
    core.build_with_authority(Some(NodeAuthority::new(0, ttl)), true).unwrap().0
}

fn renewal() -> LeaseRenewal {
    LeaseRenewal::new(node("a", "s1"), revision("r1"), Duration::from_nanos(40), 30)
}

#[test]
fn leases_are_renewed_within_their_authority() {
    let mut server = clustered_server(Duration::from_nanos(100));
    let mut renewal = renewal();
    assert_eq!(renewal.wake_at(100, 10, Duration::from_nanos(24)), 34);
    assert_eq!(renewal.wake_at(20, 10, Duration::from_nanos(30)), 20);
    match renewal.woken(&mut server, 70, 9) {
        RenewalAction::Renew { node, revision: under, timeout } => {
            assert_eq!(node.lease_generation, 1);
            assert_eq!(node.sampled_at_unix_ms, 9);
            assert_eq!(under, revision("r1"));
            assert_eq!(timeout, 30);
        }
        _ => panic!("no renewal"),
    }
    assert!(matches!(
        renewal.renewed(&mut server, applied(revision("r2")), 80),
        RenewalAction::Wait
    ));
    assert_eq!(server.authority.as_ref().unwrap().deadline(), 170);
    let (node_id, under) = renewal.stop();
    assert_eq!((node_id.as_str(), under.as_str()), ("a", "r2"));
}

#[test]
fn lost_leases_fence_the_server() {
    let fence = |action, server: &ServerInner<u32, ()>| {
        assert!(matches!(action, RenewalAction::Fence { announce: true, .. }));
        assert_eq!(server.status, Status::Fenced);
        assert!(!server.has_authority(0));
    };
    let ttl = Duration::from_nanos(100);
    let mut server = clustered_server(ttl);
    let action = renewal().woken(&mut server, 100, 0);
    fence(action, &server);
    let mut server = clustered_server(ttl);
    let mut lost = renewal();
    lost.woken(&mut server, 10, 0);
    let action = lost.renewed(&mut server, conflict(), 20);
    fence(action, &server);
    let mut server = clustered_server(ttl);
    let mut failed = renewal();
    failed.woken(&mut server, 10, 0);
    let action = failed.renewed(&mut server, StoreReply::TimedOut, 99);
    assert!(matches!(action, RenewalAction::Wait));
    failed.woken(&mut server, 99, 0);
    let action = failed.renewed(&mut server, StoreReply::Failed(unavailable()), 100);
    fence(action, &server);
}

#[test]
fn uncertain_renewals_are_looked_up() {
    let ttl = Duration::from_nanos(100);
    let mut server = clustered_server(ttl);
    let mut uncertain = renewal();
    let written = match uncertain.woken(&mut server, 10, 0) {
        RenewalAction::Renew { node, .. } => node,
        _ => panic!("no renewal"),
    };
    let action = uncertain.renewed(&mut server, indeterminate(), 70);
    assert!(matches!(action, RenewalAction::Confirm { timeout: 30 }));
    let other = StoreReply::Ready(Some((node("a", "s9"), revision("x"))));
    let action = uncertain.confirmed(&mut server, other, 80);
    assert!(matches!(action, RenewalAction::Confirm { timeout: 20 }));
    let mine = StoreReply::Ready(Some((written, revision("r7"))));
    assert!(matches!(uncertain.confirmed(&mut server, mine, 90), RenewalAction::Wait));
    assert_eq!(server.authority.as_ref().unwrap().deadline(), 110);
    uncertain.woken(&mut server, 100, 0);
    uncertain.renewed(&mut server, indeterminate(), 101);
    uncertain.confirmed(&mut server, StoreReply::TimedOut, 102);
    uncertain.confirmed(&mut server, StoreReply::TimedOut, 103);
    let action = uncertain.confirmed(&mut server, StoreReply::TimedOut, 104);
    assert!(matches!(action, RenewalAction::Fence { .. }));
}

#[test]
fn confirmations_stop_at_the_deadline() {
    let mut confirmation = LeaseConfirmation::new(node("a", "s1"), 50, Duration::from_nanos(40));
    assert_eq!(confirmation.expected().node_id, "a");
    assert_eq!(confirmation.next_read(5), Some(40));
    assert_eq!(confirmation.next_read(51), None);
    assert_eq!(confirmation.next_read(50), Some(0));
    assert_eq!(confirmation.next_read(49), Some(1));
    assert_eq!(confirmation.next_read(49), None);
    assert!(confirmation.confirms(StoreReply::Ready(None)).is_none());
    let mine = StoreReply::Ready(Some((node("a", "s1"), revision("r"))));
    assert_eq!(confirmation.confirms(mine), Some(revision("r")));
}

fn starter(bind: Option<&str>) -> ServerStarter<&'static str, ()> {
    ServerStarter {
        builder: ServerBuilderCore::base(Some(())),
        config: ServerRuntimeConfig {
            node_id: "a".into(),
            bind_address: bind.map(|address| address.to_owned()),
            advertised_endpoint: "a:1".into(),
            node_lease_ttl: Duration::from_nanos(90),
            coordination_timeout: Duration::from_nanos(200),
        },
        store: "store",
    }
}

#[test]
fn servers_start_under_a_lease() {
    match begin_start(&starter(Some("0.0.0.0:1"))) {
        Ok(StartAction::Bind { address }) => assert_eq!(address, "0.0.0.0:1"),
        _ => panic!("no bind"),
    }
    assert!(matches!(begin_start(&starter(None)), Ok(StartAction::Acquire)));
    let mut invalid = starter(None);
    invalid.builder.max_active_actors = 0;
    assert!(matches!(begin_start(&invalid).err(), Some(ServerError::InvalidMaxActiveActors)));
    assert!(matches!(bound(Ok(7)), Ok(7)));
    let in_use = std::io::Error::new(std::io::ErrorKind::AddrInUse, "port 1 is taken");
    match bound::<u8>(Err(in_use)) {
        Err(ServerError::BindFailed(error)) => {
            assert_eq!(error.kind(), std::io::ErrorKind::AddrInUse);
            assert_eq!(error.to_string(), "port 1 is taken");
        }
        _ => panic!("bound"),
    }
    let (mut startup, record, timeout) = Startup::acquire(starter(None), 10, 77);
    assert_eq!(timeout, 90);
    assert_eq!(record.max_actor_count, 10_000);
    assert_eq!(record.sampled_at_unix_ms, 77);
    assert_eq!(record.session_id.as_str().len(), 36);
    assert_eq!(&record.session_id.as_str()[14..15], "4");
    assert!(record.session_id.as_str().chars().all(|c| c == '-' || c.is_ascii_hexdigit()));
    let held = match startup.acquired(applied(revision("r1")), 20) {
        AcquireStep::Held { revision } => revision,
        _ => panic!("not held"),
    };
    let started = startup.finish::<u32, ()>(held, 20).ok().unwrap();
    assert!(started.inner.clustered);
    assert_eq!(started.inner.authority.unwrap().deadline(), 100);
    assert_eq!(started.store, "store");
}

#[test]
fn servers_without_a_lease_do_not_start() {
    let start = || Startup::acquire(starter(None), 10, 77).0;
    let failed = |step| match step {
        AcquireStep::Failed { error } => error,
        _ => panic!("not failed"),
    };
    assert!(matches!(failed(start().acquired(StoreReply::TimedOut, 20)), ServerError::LeaseUnconfirmed));
    assert!(matches!(failed(start().acquired(conflict(), 20)), ServerError::LeaseConflict));
    let denied = CoordinationError::new(CoordinationErrorKind::PermissionDenied, "403".into());
    assert_eq!(denied.source(), Some("403"));
    assert_eq!(denied.message(), "coordination store permission denied");
    match failed(start().acquired(StoreReply::Failed(denied), 20)) {
        ServerError::Coordination(error) => {
            assert_eq!(error.kind(), CoordinationErrorKind::PermissionDenied);
            assert_eq!(error.source(), Some("403"));
        }
        _ => panic!("not the error of the store"),
    }
    assert!(matches!(failed(start().acquired(indeterminate(), 101)), ServerError::LeaseUnconfirmed));
    let (mut startup, record, _) = Startup::acquire(starter(None), 10, 77);
    assert!(matches!(
        startup.acquired(indeterminate(), 40),
        AcquireStep::Confirm { timeout: 60 }
    ));
    assert!(matches!(
        startup.confirmed(StoreReply::TimedOut, 50),
        AcquireStep::Confirm { timeout: 50 }
    ));
    let read = StoreReply::Ready(Some((record, revision("r3"))));
    match startup.confirmed(read, 60) {
        AcquireStep::Held { revision: held } => assert_eq!(held, revision("r3")),
        _ => panic!("not held"),
    }
    let late = startup.finish::<u32, ()>(revision("r3"), 100);
    assert!(matches!(late.err(), Some(ServerError::LeaseUnconfirmed)));
}

#[test]
fn supervision_ends_with_the_parts_of_a_server() {
    assert!(matches!(check_ended(true, true), Some(ServerError::Fenced)));
    assert!(matches!(check_ended(false, true), Some(ServerError::ServiceStopped)));
    assert!(check_ended(false, false).is_none());
    assert!(supervise(Supervision::FencedChanged { alive: true }).is_none());
    assert!(matches!(supervise(Supervision::FencedChanged { alive: false }), Some(ServerError::ServiceStopped)));
    assert!(supervise(Supervision::TransportChanged { alive: true, stopped: false }).is_none());
    assert!(matches!(supervise(Supervision::TransportChanged { alive: true, stopped: true }), Some(ServerError::ServiceStopped)));
    assert!(matches!(supervise(Supervision::TransportChanged { alive: false, stopped: false }), Some(ServerError::ServiceStopped)));
    assert!(matches!(supervise(Supervision::RenewalChanged), Some(ServerError::ServiceStopped)));
    let fenced = serve_result(Ok(()), Err(ServerError::Fenced));
    assert!(matches!(fenced, Err(ServerError::Fenced)));
    let both = serve_result(Err(ServerError::ServiceStopped), Err(ServerError::Fenced));
    assert!(matches!(both, Err(ServerError::ServiceStopped)));
    assert!(serve_result(Ok(()), Ok(())).is_ok());
}

#[test]
fn builders_check_what_a_cluster_needs() {
    let builder = || {
        let mut builder = ServerBuilder::new("store")
            .with_state(5u8)
            .actor("room")
            .advertised_endpoint("Actor-0.Internal:7000");
        builder.bind_address = Some("0.0.0.0:7000".into());
        builder
    };
    let starter = builder().into_starter(None, None).ok().unwrap();
    assert_eq!(starter.config.node_id, "actor-0.internal:7000");
    assert_eq!(starter.config.advertised_endpoint, "actor-0.internal:7000");
    assert_eq!(starter.config.renewal_interval(), 3_333_333_333);
    assert_eq!(starter.builder.state, Some(5));
    assert_eq!(starter.builder.registrations[0].name, "room");
    let starter = builder().node_id("node-1").into_starter(Some(6), None).ok().unwrap();
    assert_eq!((starter.config.node_id.as_str(), starter.builder.state), ("node-1", Some(6)));
    let error = |result: Result<ServerStarter<&'static str, u8>, ServerError>| result.err().unwrap();
    let mut silent = builder();
    silent.advertised_endpoint = None;
    assert!(matches!(error(silent.into_starter(None, None)), ServerError::MissingAdvertisedEndpoint));
    assert!(matches!(
        error(builder().advertised_endpoint("http://x").into_starter(None, None)),
        ServerError::InvalidAdvertisedEndpoint
    ));
    assert!(matches!(error(builder().node_id("Node").into_starter(None, None)), ServerError::InvalidNodeId));
    assert!(matches!(
        error(builder().node_lease_ttl(Duration::ZERO).into_starter(None, None)),
        ServerError::InvalidNodeLeaseTtl
    ));
    assert!(matches!(
        error(builder().coordination_timeout(Duration::ZERO).into_starter(None, None)),
        ServerError::InvalidCoordinationTimeout
    ));
    let socket = SocketText { text: "127.0.0.1:9".into(), port: 9 };
    let starter = builder().into_starter(None, Some(socket)).ok().unwrap();
    assert_eq!(starter.config.advertised_endpoint, "127.0.0.1:9");
    let policy = builder()
        .default_mailbox_capacity(1)
        .max_active_actors(2)
        .default_idle_timeout(Duration::from_secs(3))
        .deactivation_timeout(Duration::from_secs(4))
        .shutdown_timeout(Duration::from_secs(5))
        .core_config;
    assert_eq!((policy.mailbox_capacity, policy.max_active_actors), (1, 2));
    assert_eq!(policy.idle_timeout, Duration::from_secs(3));
    assert_eq!(policy.deactivation_timeout, Duration::from_secs(4));
    assert_eq!(policy.shutdown_timeout, Duration::from_secs(5));
}

#[test]
fn test_servers_are_configured_alike() {
    let core = TestServerBuilder::new()
        .with_state(1u8)
        .actor("room")
        .default_mailbox_capacity(1)
        .max_active_actors(2)
        .default_idle_timeout(Duration::from_secs(3))
        .deactivation_timeout(Duration::from_secs(4))
        .shutdown_timeout(Duration::from_secs(5))
        .core_config;
    assert_eq!(core.state, Some(1));
    assert_eq!(core.registrations.len(), 1);
    assert_eq!((core.mailbox_capacity, core.max_active_actors), (1, 2));
    assert_eq!(core.idle_timeout, Duration::from_secs(3));
    let (inner, state) = core.build_with_authority::<u8, ()>(None, false).ok().unwrap();
    assert_eq!(state, 1);
    assert_eq!(inner.registrations.get(&"room".to_owned()).unwrap().mailbox_capacity, Some(1));
    assert_eq!(test_endpoint(120), "inmem://test-120");
    let directory = SingleNodeDirectory::new(test_endpoint(0), 5);
    assert_eq!(directory.read_node("test").unwrap().advertised_endpoint, "inmem://test-0");
    assert!(directory.read_node("other").is_none());
    assert_eq!(directory.list_nodes().len(), 1);
    let inmem = ServerRuntimeConfig::inmem("a".into(), "here".into());
    assert_eq!(inmem.bind_address, None);
    assert_eq!(inmem.node_lease_ttl, Duration::from_secs(10));
}

#[test]
fn wall_time_is_counted_in_milliseconds() {
    assert_eq!(wall_time_millis(None), 0);
    assert_eq!(wall_time_millis(Some(Duration::from_micros(1_234_567))), 1_234);
    assert_eq!(wall_time_millis(Some(Duration::MAX)), u64::MAX);
    assert_eq!(after(10, &Duration::from_millis(5)), 15);
    assert_eq!(after(u64::MAX, &Duration::from_millis(5)), u64::MAX);
    let wrapped = Duration::from_millis(u64::MAX) + Duration::from_millis(3);
    assert_eq!(after(10, &wrapped), 12);
}

#[test]
fn renewals_wake_up_within_their_jitter() {
    assert_eq!((share_of(0), share_of(400), share_of(401), share_of(u16::MAX)), (800, 1200, 800, 972));
    let mut shares = Vec::new();
    for _ in 0..50 {
        let share = random_share();
        assert!((800..=1200).contains(&share));
        shares.push(share);
    }
    assert!(shares.iter().any(|share| *share != shares[0]));
    assert_eq!(renewal().interval(), 30);
    assert_eq!(renewal().wake_at(1_000, 1_000, Duration::from_nanos(30)), 1_000);
    let long = renewal().wake_at(u128::MAX, u64::MAX, Duration::MAX);
    assert_eq!(long, u64::MAX as u128 + Duration::MAX.as_nanos());
}

#[test]
fn an_unstarted_configuration_is_reported_after_the_lease() {
    let finish = |now| {
        let mut invalid = starter(None);
        invalid.builder.max_active_actors = 0;
        invalid.builder.state = None;
        let (startup, _, _) = Startup::acquire(invalid, 10, 77);
        startup.finish::<u32, ()>(revision("r1"), now).err().unwrap()
    };
    assert!(matches!(finish(20), ServerError::InvalidMaxActiveActors));
    assert!(matches!(finish(100), ServerError::LeaseUnconfirmed));
}
