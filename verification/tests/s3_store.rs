use coactor::actor::ActorAddress;
use coactor::cluster::authority::{
    ActorOwnerRecord, CoordinationErrorKind, MutationOutcome, NodeRecord, NodeSessionId, Revision,
};
use coactor::cluster::endpoint::SocketText;
use coactor::cluster::s3::{
    classify_read_error, delete_outcome, expires_at, insert_node, next_page, plan_acquire,
    read_actor_key, read_node_key, write_outcome, AcquirePlan, ListAction, NodeListing, ObjectBody,
    ObjectRead, ObjectWrite, S3CoordinationStore, S3StoreConfigError, StoredNodeLease,
};
use coactor::command::lease::{
    AmbiguousMutation, LeaseMutation, NodeLease, OwnershipStorageError,
};
use coactor::command::s3::{
    classify_write_error, read_key, released, trimmed, written, LeaseBody, LeaseListAction,
    LeaseListing, LeaseRead, RequestFailure, S3NodeLeaseConfig, S3NodeLeaseStorage,
};
use std::time::Duration;

fn store(prefix: &str) -> S3CoordinationStore {
    S3CoordinationStore::new("bucket".into(), prefix.into()).ok().unwrap()
}

fn node(id: &str) -> NodeRecord {
    NodeRecord {
        node_id: id.into(),
        session_id: NodeSessionId::from_text("life".into()),
        advertised_endpoint: format!("{id}:1"),
        protocol_version: 2,
        lease_generation: 1,
        sampled_at_unix_ms: 0,
        active_actor_count: 0,
        max_actor_count: 1,
        pressured: false,
        draining: false,
    }
}

fn stored(id: &str, expires: u64) -> ObjectRead<StoredNodeLease> {
    ObjectRead::Found {
        etag: Some("tag".into()),
        body: ObjectBody::Parsed(StoredNodeLease { node: node(id), expires_at_unix_ms: expires }),
    }
}

fn lease(id: &str) -> NodeLease {
    NodeLease {
        node_id: id.into(),
        session_id: NodeSessionId::from_text(id.into()),
        advertised_address: SocketText { text: "10.0.0.1:1".into(), port: 1 },
        protocol_version: 2,
        expires_at_unix_ms: 9,
        sampled_at_unix_ms: 1,
        active_actor_count: 0,
        max_actor_count: 1,
        pressured: false,
        draining: false,
    }
}

#[test]
fn configurations_are_checked() {
    let error = |bucket: &str, prefix: &str| S3CoordinationStore::new(bucket.into(), prefix.into()).err();
    assert_eq!(error("", "a"), Some(S3StoreConfigError::EmptyBucket));
    for prefix in ["/a", "a/", "a//b", ".", "a/../b", "a/./b"] {
        assert_eq!(error("b", prefix), Some(S3StoreConfigError::InvalidPrefix), "{prefix}");
    }
    for prefix in ["", "a", "a/b", "a.b/..c"] {
        assert_eq!(error("b", prefix), None, "{prefix}");
    }
    assert_eq!(S3StoreConfigError::EmptyBucket.message(), "S3 bucket must not be empty");
    assert_eq!(store("").bucket(), "bucket");
}

#[test]
fn keys_name_nodes_and_actors() {
    let address = ActorAddress::new("room", "lobby").unwrap();
    assert_eq!(store("").node_key("n1"), "nodes/n1/lease.json");
    assert_eq!(store("a/b").node_key("n1"), "a/b/nodes/n1/lease.json");
    assert_eq!(store("a").actor_key(&address), "a/actors/room/lobby/ownership.json");
    assert_eq!(store("a").nodes_prefix(), "a/nodes/");
    let id = |key: &str| store("a").node_id_of_key(key);
    assert_eq!(id("a/nodes/n1/lease.json"), Some("n1".into()));
    assert_eq!(id("a/nodes//lease.json"), None);
    assert_eq!(id("a/nodes/n/1/lease.json"), None);
    assert_eq!(id("a/nodes/n1/other.json"), None);
    assert_eq!(id("b/nodes/n1/lease.json"), None);
}

#[test]
fn the_directory_is_cached_for_a_while() {
    let mut store = store("").directory_refresh_interval(Duration::from_nanos(1000));
    assert!(store.cached_nodes(0).is_none());
    assert_eq!(store.refresh_every(), Duration::from_nanos(1000));
    store.cache_nodes(vec![node("a")], 50, Duration::from_nanos(800));
    assert_eq!(store.cached_nodes(849).unwrap().len(), 1);
    assert!(store.cached_nodes(850).is_none());
    store.cache_nodes(vec![node("a"), node("b")], 50, Duration::from_nanos(1200));
    assert_eq!(store.cached_nodes(1249).unwrap().len(), 2);
    assert!(store.cached_nodes(1250).is_none());
}

#[test]
fn failures_are_classified() {
    for (status, kind) in [
        (Some(401), CoordinationErrorKind::PermissionDenied),
        (Some(403), CoordinationErrorKind::PermissionDenied),
        (Some(500), CoordinationErrorKind::Unavailable),
        (None, CoordinationErrorKind::Unavailable),
    ] {
        let error = classify_read_error(status, "cause".into());
        assert_eq!(error.kind(), kind);
        assert_eq!(error.source(), Some("cause"));
    }
    let failed = |status, service| ObjectWrite::Failed { status, service, detail: "cause".into() };
    assert!(matches!(write_outcome(failed(Some(412), true)), Ok(MutationOutcome::Conflict)));
    assert!(matches!(write_outcome(failed(Some(412), false)), Ok(MutationOutcome::Conflict)));
    let reported = write_outcome(failed(Some(403), true)).err().unwrap();
    assert_eq!(reported.kind(), CoordinationErrorKind::PermissionDenied);
    match write_outcome(failed(None, false)) {
        Ok(MutationOutcome::Indeterminate(error)) => {
            assert_eq!(error.kind(), CoordinationErrorKind::Unavailable);
            assert_eq!(error.source(), Some("cause"));
        }
        _ => panic!("the outcome is known"),
    }
    let untagged = write_outcome(ObjectWrite::Written { etag: None }).err().unwrap();
    assert_eq!(untagged.kind(), CoordinationErrorKind::InvalidData);
    assert_eq!(untagged.source(), None);
    let tagged = write_outcome(ObjectWrite::Written { etag: Some("tag".into()) });
    assert!(matches!(tagged, Ok(MutationOutcome::Applied(revision)) if revision.as_str() == "tag"));
    assert!(matches!(delete_outcome(None), Ok(MutationOutcome::Applied(()))));
    let gone = delete_outcome(Some((Some(412), true, "cause".into())));
    assert!(matches!(gone, Ok(MutationOutcome::Conflict)));
}

#[test]
fn expired_leases_count_as_none() {
    let read = |expires, all| read_node_key("n1", stored("other", expires), all, 100);
    let (node, revision, expires) = read(101, false).ok().unwrap().unwrap();
    assert_eq!(node.node_id, "n1");
    assert_eq!(node.advertised_endpoint, "other:1");
    assert_eq!((revision.as_str(), expires), ("tag", 101));
    assert!(read(100, false).ok().unwrap().is_none());
    assert!(read(100, true).ok().unwrap().is_some());
    assert!(read_node_key("n1", ObjectRead::NotFound, false, 0).ok().unwrap().is_none());
    let broken = ObjectRead::Found {
        etag: Some("tag".into()),
        body: ObjectBody::Malformed { detail: "not a lease".into() },
    };
    let error = read_node_key("n1", broken, false, 0).err().unwrap();
    assert_eq!(error.kind(), CoordinationErrorKind::InvalidData);
    assert_eq!(error.source(), Some("not a lease"));
    let lost = ObjectRead::Found { etag: Some("tag".into()), body: ObjectBody::Broken { detail: "cut".into() } };
    let error = read_node_key("n1", lost, false, 0).err().unwrap();
    assert_eq!(error.kind(), CoordinationErrorKind::Unavailable);
    let untagged = ObjectRead::Found { etag: None, body: ObjectBody::Broken { detail: "cut".into() } };
    let error = read_node_key("n1", untagged, false, 0).err().unwrap();
    assert_eq!((error.kind(), error.source()), (CoordinationErrorKind::InvalidData, None));
}

#[test]
fn ownership_records_keep_their_revision() {
    let found = ObjectRead::Found {
        etag: Some("tag".into()),
        body: ObjectBody::Parsed(ActorOwnerRecord::unowned(7)),
    };
    let record = read_actor_key(found).ok().unwrap().unwrap();
    assert_eq!(record.record, ActorOwnerRecord::unowned(7));
    assert_eq!(record.revision.as_str(), "tag");
    let failed = ObjectRead::Failed { status: Some(403), detail: "denied".into() };
    assert_eq!(read_actor_key(failed).err().unwrap().kind(), CoordinationErrorKind::PermissionDenied);
}

#[test]
fn leases_are_acquired_over_expired_ones_only() {
    let current = |expires| Some((node("n1"), Revision::new("tag".into()), expires));
    assert!(matches!(plan_acquire(None, 100), AcquirePlan::Create));
    assert!(matches!(plan_acquire(current(100), 100), AcquirePlan::Replace(revision) if revision.as_str() == "tag"));
    assert!(matches!(plan_acquire(current(101), 100), AcquirePlan::Conflict));
    assert_eq!(expires_at(100, Duration::from_millis(25)), 125);
    assert_eq!(expires_at(u64::MAX - 1, Duration::from_millis(25)), u64::MAX);
}

#[test]
fn listings_read_every_page_in_order() {
    let (mut listing, first) = NodeListing::begin();
    assert!(matches!(first, ListAction::ListPage { token: None }));
    let store = store("a");
    let keys = vec![Some("a/nodes/z/lease.json".to_string()), None, Some("a/nodes/skip.txt".to_string()), Some("a/nodes/gone/lease.json".to_string())];
    let action = listing.page(&store, &keys, Some(true), Some("next".into()));
    assert!(matches!(action, ListAction::ReadNode { node_id } if node_id == "z"));
    let action = listing.node(Ok(Some((node("z"), Revision::new("1".into()), 9))));
    assert!(matches!(action, ListAction::ReadNode { node_id } if node_id == "gone"));
    let action = listing.node(Ok(None));
    assert!(matches!(action, ListAction::ListPage { token: Some(token) } if token == "next"));
    let action = listing.page(&store, &vec![Some("a/nodes/b/lease.json".to_string())], None, None);
    assert!(matches!(action, ListAction::ReadNode { node_id } if node_id == "b"));
    match listing.node(Ok(Some((node("b"), Revision::new("2".into()), 9)))) {
        ListAction::Finish(Ok(nodes)) => {
            let ids: Vec<&str> = nodes.iter().map(|n| n.node_id.as_str()).collect();
            assert_eq!(ids, vec!["b", "z"]);
        }
        _ => panic!("the listing goes on"),
    }
    let (mut listing, _) = NodeListing::begin();
    let action = listing.page(&store, &vec![], Some(true), None);
    assert!(matches!(action, ListAction::Finish(Err(error)) if error.kind() == CoordinationErrorKind::InvalidData));
    assert!(matches!(next_page(Some(false), Some("t".into())), Ok(None)));
    let mut nodes = vec![node("a"), node("c")];
    insert_node(&mut nodes, node("b"));
    assert_eq!(nodes[1].node_id, "b");
}

#[test]
fn lease_storage_trims_its_prefix() {
    for (text, expected) in [("/a/b/", "a/b"), ("//", ""), ("a", "a"), ("", ""), ("/a//b", "a//b")] {
        assert_eq!(trimmed(text), expected);
    }
    let config = S3NodeLeaseConfig::local("bucket".into(), "/x/".into(), "http://localhost:1".into());
    assert_eq!(config.region, "us-east-1");
    assert_eq!(config.request_timeout, Duration::from_secs(2));
    let storage = S3NodeLeaseStorage::new(&config);
    assert_eq!(storage.bucket(), "bucket");
    assert_eq!(storage.key(&NodeSessionId::from_text("life".into())), "x/nodes/life.json");
    assert_eq!(storage.nodes_prefix(), "x/nodes/");
}

#[test]
fn lease_writes_are_classified() {
    let class = classify_write_error;
    assert_eq!(class(Some(412), RequestFailure::Service), Ok(LeaseMutation::ConditionalRejected));
    assert_eq!(class(Some(500), RequestFailure::Service), Err(OwnershipStorageError::Failed));
    assert_eq!(class(None, RequestFailure::Construction), Err(OwnershipStorageError::Failed));
    for (failure, ambiguity) in [
        (RequestFailure::Timeout, AmbiguousMutation::Timeout),
        (RequestFailure::Response, AmbiguousMutation::ResponseLost),
        (RequestFailure::Dispatch, AmbiguousMutation::ResponseLost),
        (RequestFailure::Other, AmbiguousMutation::DispatchUnknown),
    ] {
        assert_eq!(class(None, failure), Ok(LeaseMutation::Ambiguous(ambiguity)));
    }
    assert_eq!(written(Some("t".into())), Ok(LeaseMutation::Applied { etag: "t".into() }));
    assert_eq!(written(None), Err(OwnershipStorageError::Failed));
    assert_eq!(released("t", None), Ok(LeaseMutation::Applied { etag: "t".into() }));
    assert_eq!(
        released("t", Some((Some(412), RequestFailure::Service))),
        Ok(LeaseMutation::ConditionalRejected)
    );
}

#[test]
fn leases_are_listed_over_all_pages() {
    let found = |id: &str| LeaseRead::Found { etag: Some("t".into()), body: LeaseBody::Parsed(lease(id)) };
    let (mut listing, first) = LeaseListing::begin();
    assert!(matches!(first, LeaseListAction::ListPage { token: None }));
    let keys = vec![None, Some("k1".to_string()), Some("k2".to_string())];
    let action = listing.page(keys, Some(true), Some("next".into()));
    assert!(matches!(action, LeaseListAction::ReadKey { key } if key == "k1"));
    assert!(matches!(listing.read(found("z")), LeaseListAction::ReadKey { key } if key == "k2"));
    let action = listing.read(LeaseRead::NotFound);
    assert!(matches!(action, LeaseListAction::ListPage { token: Some(token) } if token == "next"));
    let action = listing.page(vec![Some("k3".to_string())], Some(false), None);
    assert!(matches!(action, LeaseListAction::ReadKey { key } if key == "k3"));
    match listing.read(found("a")) {
        LeaseListAction::Finish(Ok(leases)) => {
            let ids: Vec<&str> = leases.iter().map(|l| l.lease.node_id.as_str()).collect();
            assert_eq!(ids, vec!["z", "a"]);
            assert_eq!(leases[0].etag, "t");
        }
        _ => panic!("the listing goes on"),
    }
    let (mut listing, _) = LeaseListing::begin();
    let action = listing.page(vec![], Some(true), None);
    assert!(matches!(action, LeaseListAction::Finish(Err(OwnershipStorageError::Failed))));
    let (mut listing, _) = LeaseListing::begin();
    listing.page(vec![Some("k".to_string())], None, None);
    let action = listing.read(LeaseRead::Failed);
    assert!(matches!(action, LeaseListAction::Finish(Err(OwnershipStorageError::Unavailable))));
    let (listing, _) = LeaseListing::begin();
    assert!(matches!(
        listing.page_failed(),
        LeaseListAction::Finish(Err(OwnershipStorageError::Unavailable))
    ));
    let untagged = LeaseRead::Found { etag: None, body: LeaseBody::Broken };
    assert!(matches!(read_key(untagged), Err(OwnershipStorageError::Failed)));
    let malformed = LeaseRead::Found { etag: Some("t".into()), body: LeaseBody::Malformed };
    assert!(matches!(read_key(malformed), Err(OwnershipStorageError::Failed)));
}
