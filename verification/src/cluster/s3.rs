//! The Coordination Store in an S3 bucket: where records stand, and what the
//! replies of the bucket mean.

use std::time::Duration;

use vstd::prelude::*;
use vstd::string::*;

use crate::actor::{valid_address, ActorAddress, AddressView};
use crate::cluster::authority::{
    ActorOwnerRecord, CoordinationError, CoordinationErrorKind, MutationOutcome, NodeRecord,
    NodeView, Revision, VersionedActorOwnerRecord,
};
use crate::text::{
    blank, characters, contains_char, is_blank, is_text_le, lemma_text_le_total,
    lemma_text_le_trans, matches_at, occurs_at, text_le, text_of,
};
use crate::time::{bounded_millis, duration_nanos, millis_of};

verus! {

/// Why a bucket cannot serve as a Coordination Store.
#[derive(Clone, Copy, Debug, PartialEq, Eq, Structural)]
pub enum S3StoreConfigError {
    EmptyBucket,
    InvalidPrefix,
}

impl S3StoreConfigError {
    /// What the error says.
    pub open spec fn text(self) -> Seq<char> {
        match self {
            S3StoreConfigError::EmptyBucket => "S3 bucket must not be empty"@,
            S3StoreConfigError::InvalidPrefix => "S3 prefix must be empty or contain canonical non-dot path segments without leading/trailing slashes"@,
        }
    }

    /// The error as text.
    pub fn message(&self) -> (message: String)
        ensures
            message@ == self.text(),
    {
        match self {
            S3StoreConfigError::EmptyBucket => "S3 bucket must not be empty".to_owned(),
            S3StoreConfigError::InvalidPrefix => "S3 prefix must be empty or contain canonical non-dot path segments without leading/trailing slashes".to_owned(),
        }
    }
}

/// A piece of a path between two slashes or ends.
pub open spec fn is_segment_at(path: Seq<char>, from: int, to: int) -> bool {
    &&& 0 <= from <= to <= path.len()
    &&& from == 0 || path[from - 1] == '/'
    &&& to == path.len() || path[to] == '/'
    &&& forall|k: int| from <= k < to ==> path[k] != '/'
}

/// A segment that is neither empty nor a dot or two.
pub open spec fn proper_segment(segment: Seq<char>) -> bool {
    &&& segment.len() > 0
    &&& segment != seq!['.']
    &&& segment != seq!['.', '.']
}

/// An object prefix that is empty or made of proper segments.
pub open spec fn canonical_prefix(prefix: Seq<char>) -> bool {
    prefix.len() == 0 || forall|from: int, to: int| #[trigger]
        is_segment_at(prefix, from, to) ==> proper_segment(prefix.subrange(from, to))
}

fn is_proper_segment(chars: &Vec<char>, from: usize, to: usize) -> (proper: bool)
    requires
        from <= to <= chars@.len(),
    ensures
        proper == proper_segment(chars@.subrange(from as int, to as int)),
{
    let ghost segment = chars@.subrange(from as int, to as int);
    let len: usize = to - from;
    if len == 0 {
        return false;
    }
    assert(segment[0] == chars@[from as int]);
    if len == 1 {
        if chars[from] == '.' {
            assert(segment =~= seq!['.']);
            return false;
        }
        assert(seq!['.'][0] == '.');
        return true;
    }
    assert(segment[1] == chars@[from + 1]);
    if len == 2 {
        if chars[from] == '.' && chars[from + 1] == '.' {
            assert(segment =~= seq!['.', '.']);
            return false;
        }
        assert(seq!['.', '.'][0] == '.' && seq!['.', '.'][1] == '.');
        return true;
    }
    true
}

fn is_canonical_prefix(prefix: &Vec<char>) -> (canonical: bool)
    ensures
        canonical == canonical_prefix(prefix@),
{
    if prefix.len() == 0 {
        return true;
    }
    let mut start: usize = 0;
    let mut i: usize = 0;
    while i < prefix.len()
        invariant
            start <= i <= prefix@.len(),
            prefix@.len() > 0,
            start == 0 || prefix@[start - 1] == '/',
            forall|k: int| start <= k < i ==> prefix@[k] != '/',
            forall|from: int, to: int|
                is_segment_at(prefix@, from, to) && from < start ==> #[trigger] proper_segment(
                    prefix@.subrange(from, to),
                ),
        decreases prefix@.len() - i,
    {
        if prefix[i] == '/' {
            if !is_proper_segment(prefix, start, i) {
                assert(is_segment_at(prefix@, start as int, i as int));
                return false;
            }
            assert forall|from: int, to: int|
                is_segment_at(prefix@, from, to) && from < i + 1 implies #[trigger] proper_segment(
                prefix@.subrange(from, to),
            ) by {
                if from >= start {
                    assert(from == start) by {
                        if from > start {
                            assert(prefix@[from - 1] != '/');
                        }
                    }
                    assert(to == i) by {
                        if to < i {
                            assert(prefix@[to] != '/');
                        }
                    }
                }
            }
            start = i + 1;
        }
        i += 1;
    }
    let last = is_proper_segment(prefix, start, prefix.len());
    proof {
        let len = prefix@.len() as int;
        assert(is_segment_at(prefix@, start as int, len));
        if last {
            assert forall|from: int, to: int| #[trigger] is_segment_at(prefix@, from, to) implies proper_segment(
                prefix@.subrange(from, to),
            ) by {
                if from >= start {
                    assert(from == start) by {
                        if from > start {
                            assert(prefix@[from - 1] != '/');
                        }
                    }
                    assert(to == len) by {
                        if to < len {
                            assert(prefix@[to] != '/');
                        }
                    }
                } else {
                    assert(proper_segment(prefix@.subrange(from, to)));
                }
            }
        }
    }
    last
}

/// The directory as it was fetched last, and when it has to be fetched again.
pub struct DirectoryCache {
    pub nodes: Vec<NodeRecord>,
    pub refresh_at: Option<u128>,
}

/// The Coordination Store in a bucket, under a prefix.
pub struct S3CoordinationStore {
    bucket: String,
    prefix: String,
    directory_refresh_interval: Duration,
    directory_cache: DirectoryCache,
}

/// A key under a prefix.
pub open spec fn key_under(prefix: Seq<char>, suffix: Seq<char>) -> Seq<char> {
    if prefix.len() == 0 {
        suffix
    } else {
        prefix + "/"@ + suffix
    }
}

/// The key of the lease of a node.
pub open spec fn node_key_of(prefix: Seq<char>, node_id: Seq<char>) -> Seq<char> {
    key_under(prefix, "nodes/"@ + node_id + "/lease.json"@)
}

/// The key of the ownership record of an Actor.
pub open spec fn actor_key_of(prefix: Seq<char>, address: AddressView) -> Seq<char> {
    key_under(
        prefix,
        "actors/"@ + address.actor_type + "/"@ + address.actor_id + "/ownership.json"@,
    )
}

/// The node whose lease stands under a key, if the key is that of a lease.
pub open spec fn node_of_key(prefix: Seq<char>, key: Seq<char>) -> Option<Seq<char>> {
    let head = key_under(prefix, "nodes/"@);
    let tail = "/lease.json"@;
    let id = key.subrange(head.len() as int, key.len() - tail.len());
    if occurs_at(key, head, 0) && key.len() - tail.len() >= head.len() && occurs_at(
        key,
        tail,
        key.len() - tail.len(),
    ) && id.len() > 0 && !id.contains('/') {
        Some(id)
    } else {
        None
    }
}

impl S3CoordinationStore {
    /// The bucket.
    pub closed spec fn spec_bucket(&self) -> Seq<char> {
        self.bucket@
    }

    /// The prefix of all keys.
    pub closed spec fn spec_prefix(&self) -> Seq<char> {
        self.prefix@
    }

    /// How long the directory is used, in nanoseconds.
    pub closed spec fn refresh_interval(&self) -> nat {
        duration_nanos(self.directory_refresh_interval)
    }

    /// The nodes of the directory as it was fetched last.
    pub closed spec fn cached(&self) -> Seq<NodeRecord> {
        self.directory_cache.nodes@
    }

    /// When the directory has to be fetched again.
    pub closed spec fn refresh_at(&self) -> Option<u128> {
        self.directory_cache.refresh_at
    }

    /// A store in a bucket, under a canonical object prefix.
    pub fn new(bucket: String, prefix: String) -> (store: Result<Self, S3StoreConfigError>)
        ensures
            match store {
                Ok(store) => {
                    &&& !blank(bucket@) && canonical_prefix(prefix@)
                    &&& store.spec_bucket() == bucket@
                    &&& store.spec_prefix() == prefix@
                    &&& store.refresh_interval() == 3_000_000_000
                    &&& store.cached() == Seq::<NodeRecord>::empty()
                    &&& store.refresh_at() is None
                },
                Err(S3StoreConfigError::EmptyBucket) => blank(bucket@),
                Err(S3StoreConfigError::InvalidPrefix) => !blank(bucket@) && !canonical_prefix(
                    prefix@,
                ),
            },
    {
        if is_blank(bucket.as_str()) {
            return Err(S3StoreConfigError::EmptyBucket);
        }
        let chars = characters(prefix.as_str());
        if !is_canonical_prefix(&chars) {
            return Err(S3StoreConfigError::InvalidPrefix);
        }
        Ok(
            S3CoordinationStore {
                bucket,
                prefix,
                directory_refresh_interval: Duration::from_secs(3),
                directory_cache: DirectoryCache { nodes: Vec::new(), refresh_at: None },
            },
        )
    }

    /// Sets the Node Directory cache refresh interval.
    ///
    /// A zero duration is valid and effectively disables caching.
    pub fn directory_refresh_interval(self, interval: Duration) -> (store: Self)
        ensures
            store.spec_bucket() == self.spec_bucket(),
            store.spec_prefix() == self.spec_prefix(),
            store.refresh_interval() == duration_nanos(interval),
            store.cached() == self.cached(),
            store.refresh_at() == self.refresh_at(),
    {
        S3CoordinationStore { directory_refresh_interval: interval, ..self }
    }

    /// The bucket.
    pub fn bucket(&self) -> (bucket: &str)
        ensures
            bucket@ == self.spec_bucket(),
    {
        self.bucket.as_str()
    }

    fn key(&self, suffix: String) -> (key: String)
        ensures
            key@ == key_under(self.spec_prefix(), suffix@),
    {
        if self.prefix.as_str().is_empty() {
            suffix
        } else {
            self.prefix.clone().concat("/").concat(suffix.as_str())
        }
    }

    /// The key of the lease of a node.
    pub fn node_key(&self, node_id: &str) -> (key: String)
        ensures
            key@ == node_key_of(self.spec_prefix(), node_id@),
    {
        self.key("nodes/".to_owned().concat(node_id).concat("/lease.json"))
    }

    /// The key of the ownership record of an Actor.
    pub fn actor_key(&self, address: &ActorAddress) -> (key: String)
        ensures
            key@ == actor_key_of(self.spec_prefix(), address@),
    {
        self.key(
            "actors/".to_owned().concat(address.actor_type()).concat("/").concat(
                address.actor_id(),
            ).concat("/ownership.json"),
        )
    }

    /// The prefix of the keys of all leases.
    pub fn nodes_prefix(&self) -> (prefix: String)
        ensures
            prefix@ == key_under(self.spec_prefix(), "nodes/"@),
    {
        self.key("nodes/".to_owned())
    }

    /// The node whose lease stands under a key, if the key is that of a lease.
    pub fn node_id_of_key(&self, key: &str) -> (node_id: Option<String>)
        ensures
            match node_id {
                Some(node_id) => node_of_key(self.spec_prefix(), key@) == Some(node_id@),
                None => node_of_key(self.spec_prefix(), key@) is None,
            },
    {
        let chars = characters(key);
        let head = characters(self.nodes_prefix().as_str());
        let tail = characters("/lease.json");
        if !matches_at(&chars, &head, 0) || chars.len() < head.len() || chars.len() - head.len()
            < tail.len() {
            return None;
        }
        let end: usize = chars.len() - tail.len();
        if !matches_at(&chars, &tail, end) {
            return None;
        }
        let node_id = text_of(&chars, head.len(), end);
        let id = characters(node_id.as_str());
        if id.len() == 0 || contains_char(&id, '/') {
            return None;
        }
        Some(node_id)
    }

    /// The nodes of the directory, if it was fetched recently enough.
    pub fn cached_nodes(&self, now: u64) -> (nodes: Option<&Vec<NodeRecord>>)
        ensures
            nodes is Some == (self.refresh_at() matches Some(at) && now < at),
            nodes matches Some(n) ==> n@ == self.cached(),
    {
        match self.directory_cache.refresh_at {
            Some(at) => if (now as u128) < at {
                Some(&self.directory_cache.nodes)
            } else {
                None
            },
            None => None,
        }
    }

    /// How long the nodes of the directory are kept, before any jitter.
    pub fn refresh_every(&self) -> (interval: Duration)
        ensures
            duration_nanos(interval) == self.refresh_interval(),
    {
        self.directory_refresh_interval
    }

    /// Keeps the nodes of the directory for the share of the interval that the
    /// host waits for.
    pub fn cache_nodes(&mut self, nodes: Vec<NodeRecord>, now: u64, wait: Duration)
        ensures
            final(self).spec_bucket() == old(self).spec_bucket(),
            final(self).spec_prefix() == old(self).spec_prefix(),
            final(self).refresh_interval() == old(self).refresh_interval(),
            final(self).cached() == nodes@,
            final(self).refresh_at() matches Some(at) && at == now as nat + duration_nanos(wait),
    {
        let nanos: u128 = wait.as_nanos();
        self.directory_cache = DirectoryCache {
            nodes,
            refresh_at: Some(now as u128 + nanos),
        };
    }
}

/// What the bucket answered to a read. `T` is what the host parsed out of the
/// object.
pub enum ObjectRead<T> {
    /// There is no such object.
    NotFound,
    /// The request failed, with the status of the response if there was one.
    Failed { status: Option<u16>, detail: String },
    /// The object was found, with its tag if it has one.
    Found { etag: Option<String>, body: ObjectBody<T> },
}

/// What became of the body of an object.
pub enum ObjectBody<T> {
    /// It could not be received.
    Broken { detail: String },
    /// It could not be parsed.
    Malformed { detail: String },
    /// It was parsed.
    Parsed(T),
}

/// What the bucket answered to a conditional write.
pub enum ObjectWrite {
    /// It was written, with its new tag if it has one.
    Written { etag: Option<String> },
    /// The request failed: the status of the response if there was one, and
    /// whether the service itself reported the error.
    Failed { status: Option<u16>, service: bool, detail: String },
}

/// The kind of error that a failed request stands for.
pub open spec fn read_error_kind(status: Option<u16>) -> CoordinationErrorKind {
    if status == Some(401u16) || status == Some(403u16) {
        CoordinationErrorKind::PermissionDenied
    } else {
        CoordinationErrorKind::Unavailable
    }
}

/// The error that a failed request stands for.
pub fn classify_read_error(status: Option<u16>, detail: String) -> (error: CoordinationError)
    ensures
        error.spec_kind() == read_error_kind(status),
        error.spec_source() == Some(detail@),
{
    let denied = match status {
        Some(status) => status == 401 || status == 403,
        None => false,
    };
    if denied {
        CoordinationError::new(CoordinationErrorKind::PermissionDenied, detail)
    } else {
        CoordinationError::new(CoordinationErrorKind::Unavailable, detail)
    }
}

/// What a failed write means.
pub open spec fn is_write_error<T>(
    status: Option<u16>,
    service: bool,
    detail: Seq<char>,
    outcome: Result<MutationOutcome<T>, CoordinationError>,
) -> bool {
    if status == Some(412u16) {
        outcome == Ok::<MutationOutcome<T>, CoordinationError>(MutationOutcome::Conflict)
    } else if service {
        outcome matches Err(error) && error.spec_kind() == read_error_kind(status)
            && error.spec_source() == Some(detail)
    } else {
        outcome matches Ok(MutationOutcome::Indeterminate(error)) && error.spec_kind()
            == read_error_kind(status) && error.spec_source() == Some(detail)
    }
}

/// What a failed write means: a failed precondition is a conflict, an error that
/// the service reported is an error, and after anything else nobody knows.
pub fn classify_write_error<T>(status: Option<u16>, service: bool, detail: String) -> (outcome:
    Result<MutationOutcome<T>, CoordinationError>)
    ensures
        is_write_error(status, service, detail@, outcome),
{
    let conflict = match status {
        Some(status) => status == 412,
        None => false,
    };
    if conflict {
        return Ok(MutationOutcome::Conflict);
    }
    let error = classify_read_error(status, detail);
    if service {
        Err(error)
    } else {
        Ok(MutationOutcome::Indeterminate(error))
    }
}

/// What a conditional write came to.
pub open spec fn is_write_outcome(
    write: ObjectWrite,
    outcome: Result<MutationOutcome<Revision>, CoordinationError>,
) -> bool {
    match write {
        ObjectWrite::Written { etag: Some(etag) } => outcome matches Ok(
            MutationOutcome::Applied(revision),
        ) && revision@ == etag@,
        ObjectWrite::Written { etag: None } => outcome matches Err(error) && error.spec_kind()
            == CoordinationErrorKind::InvalidData && error.spec_source() is None,
        ObjectWrite::Failed { status, service, detail } => is_write_error(
            status,
            service,
            detail@,
            outcome,
        ),
    }
}

/// What a conditional write came to. A write without a tag cannot be built on.
pub fn write_outcome(write: ObjectWrite) -> (outcome: Result<
    MutationOutcome<Revision>,
    CoordinationError,
>)
    ensures
        is_write_outcome(write, outcome),
{
    match write {
        ObjectWrite::Written { etag } => match etag {
            Some(etag) => Ok(MutationOutcome::Applied(Revision::new(etag))),
            None => Err(CoordinationError::from_kind(CoordinationErrorKind::InvalidData)),
        },
        ObjectWrite::Failed { status, service, detail } => classify_write_error(
            status,
            service,
            detail,
        ),
    }
}

/// What the removal of a lease came to.
pub fn delete_outcome(failure: Option<(Option<u16>, bool, String)>) -> (outcome: Result<
    MutationOutcome<()>,
    CoordinationError,
>)
    ensures
        match failure {
            None => outcome == Ok::<MutationOutcome<()>, CoordinationError>(
                MutationOutcome::Applied(()),
            ),
            Some((status, service, detail)) => is_write_error(status, service, detail@, outcome),
        },
{
    match failure {
        None => Ok(MutationOutcome::Applied(())),
        Some((status, service, detail)) => classify_write_error(status, service, detail),
    }
}

/// The error that a read of an object ends in, if it ends in one: its kind, and
/// the text of what caused it.
pub open spec fn read_error<T>(read: ObjectRead<T>) -> Option<
    (CoordinationErrorKind, Option<Seq<char>>),
> {
    match read {
        ObjectRead::NotFound => None,
        ObjectRead::Failed { status, detail } => Some((read_error_kind(status), Some(detail@))),
        ObjectRead::Found { etag: None, .. } => Some((CoordinationErrorKind::InvalidData, None)),
        ObjectRead::Found { etag: Some(_), body } => match body {
            ObjectBody::Broken { detail } => Some(
                (CoordinationErrorKind::Unavailable, Some(detail@)),
            ),
            ObjectBody::Malformed { detail } => Some(
                (CoordinationErrorKind::InvalidData, Some(detail@)),
            ),
            ObjectBody::Parsed(_) => None,
        },
    }
}

/// What a read of an object gives: nothing, or what was parsed with its
/// revision.
fn parsed_object<T>(read: ObjectRead<T>) -> (parsed: Result<Option<(T, Revision)>, CoordinationError>)
    ensures
        match parsed {
            Err(error) => read_error(read) == Some((error.spec_kind(), error.spec_source())),
            Ok(None) => read is NotFound,
            Ok(Some((value, revision))) => read matches ObjectRead::Found {
                etag: Some(etag),
                body: ObjectBody::Parsed(v),
            } && v == value && revision@ == etag@,
        },
{
    match read {
        ObjectRead::NotFound => Ok(None),
        ObjectRead::Failed { status, detail } => Err(classify_read_error(status, detail)),
        ObjectRead::Found { etag, body } => match etag {
            None => Err(CoordinationError::from_kind(CoordinationErrorKind::InvalidData)),
            Some(etag) => match body {
                ObjectBody::Broken { detail } => Err(
                    CoordinationError::new(CoordinationErrorKind::Unavailable, detail),
                ),
                ObjectBody::Malformed { detail } => Err(
                    CoordinationError::new(CoordinationErrorKind::InvalidData, detail),
                ),
                ObjectBody::Parsed(value) => Ok(Some((value, Revision::new(etag)))),
            },
        },
    }
}

/// A lease as it is stored: the record of the node, and when it expires.
pub struct StoredNodeLease {
    pub node: NodeRecord,
    pub expires_at_unix_ms: u64,
}

/// What a read of a lease gives. A lease that has expired counts as none, unless
/// expired ones are asked for. The node ID is that of the key.
pub fn read_node_key(
    node_id: &str,
    read: ObjectRead<StoredNodeLease>,
    include_expired: bool,
    wall_time_millis: u64,
) -> (lease: Result<Option<(NodeRecord, Revision, u64)>, CoordinationError>)
    ensures
        match read_error(read) {
            Some(failure) => lease matches Err(error) && (error.spec_kind(), error.spec_source())
                == failure,
            None => match read {
                ObjectRead::Found { etag: Some(etag), body: ObjectBody::Parsed(stored) } => if include_expired
                    || stored.expires_at_unix_ms > wall_time_millis {
                    lease matches Ok(Some((node, revision, expires))) && node@ == (NodeView {
                        node_id: node_id@,
                        ..stored.node@
                    }) && revision@ == etag@ && expires == stored.expires_at_unix_ms
                } else {
                    lease matches Ok(None)
                },
                _ => lease matches Ok(None),
            },
        },
{
    match parsed_object(read) {
        Err(error) => Err(error),
        Ok(None) => Ok(None),
        Ok(Some((stored, revision))) => {
            if !include_expired && stored.expires_at_unix_ms <= wall_time_millis {
                return Ok(None);
            }
            let expires: u64 = stored.expires_at_unix_ms;
            let mut node = stored.node;
            node.node_id = node_id.to_owned();
            Ok(Some((node, revision, expires)))
        },
    }
}

/// What a read of an ownership record gives.
pub fn read_actor_key(read: ObjectRead<ActorOwnerRecord>) -> (record: Result<
    Option<VersionedActorOwnerRecord>,
    CoordinationError,
>)
    ensures
        match read_error(read) {
            Some(failure) => record matches Err(error) && (error.spec_kind(), error.spec_source())
                == failure,
            None => match read {
                ObjectRead::Found { etag: Some(etag), body: ObjectBody::Parsed(stored) } => record matches Ok(
                    Some(versioned),
                ) && versioned.record == stored && versioned.revision@ == etag@,
                _ => record matches Ok(None),
            },
        },
{
    match parsed_object(read) {
        Err(error) => Err(error),
        Ok(None) => Ok(None),
        Ok(Some((record, revision))) => Ok(Some(VersionedActorOwnerRecord { record, revision })),
    }
}

/// The moment at which a lease expires that is written now.
pub fn expires_at(wall_time_millis: u64, ttl: Duration) -> (expires: u64)
    ensures
        expires == if wall_time_millis + millis_of(ttl) > u64::MAX {
            u64::MAX
        } else {
            (wall_time_millis + millis_of(ttl)) as u64
        },
{
    wall_time_millis.saturating_add(bounded_millis(&ttl))
}

/// What has to be written to acquire a lease.
pub enum AcquirePlan {
    /// Write it if there is none.
    Create,
    /// Write it over the expired one with this revision.
    Replace(Revision),
    /// Somebody else holds it.
    Conflict,
}

/// What has to be written to acquire a lease, given what stands in its place.
/// A lease is taken over only once it has expired.
pub fn plan_acquire(
    current: Option<(NodeRecord, Revision, u64)>,
    wall_time_millis: u64,
) -> (plan: AcquirePlan)
    ensures
        match current {
            None => plan is Create,
            Some((_, revision, expires)) => if expires <= wall_time_millis {
                plan == AcquirePlan::Replace(revision)
            } else {
                plan is Conflict
            },
        },
{
    match current {
        None => AcquirePlan::Create,
        Some((_, revision, expires)) => if expires <= wall_time_millis {
            AcquirePlan::Replace(revision)
        } else {
            AcquirePlan::Conflict
        },
    }
}

/// The page of a listing that follows, if there is one. A listing that says it
/// goes on has to say where.
pub fn next_page(truncated: Option<bool>, token: Option<String>) -> (next: Result<
    Option<String>,
    CoordinationError,
>)
    ensures
        if truncated != Some(true) {
            next == Ok::<Option<String>, CoordinationError>(None)
        } else {
            match token {
                Some(token) => next == Ok::<Option<String>, CoordinationError>(Some(token)),
                None => next matches Err(error) && error.spec_kind()
                    == CoordinationErrorKind::InvalidData && error.spec_source() is None,
            }
        },
{
    let more = match truncated {
        Some(more) => more,
        None => false,
    };
    if !more {
        return Ok(None);
    }
    match token {
        Some(token) => Ok(Some(token)),
        None => Err(CoordinationError::from_kind(CoordinationErrorKind::InvalidData)),
    }
}

/// The nodes in the order of their IDs.
pub open spec fn sorted_by_id(nodes: Seq<NodeView>) -> bool {
    forall|i: int, j: int|
        0 <= i < j < nodes.len() ==> text_le(
            (#[trigger] nodes[i]).node_id,
            (#[trigger] nodes[j]).node_id,
        )
}

/// The mathematical values of nodes.
pub open spec fn views(nodes: Seq<NodeRecord>) -> Seq<NodeView> {
    nodes.map_values(|n: NodeRecord| n@)
}

/// Puts a node into its place in a sorted directory, after those with the same
/// ID.
pub fn insert_node(nodes: &mut Vec<NodeRecord>, node: NodeRecord)
    requires
        sorted_by_id(views(old(nodes)@)),
    ensures
        sorted_by_id(views(final(nodes)@)),
        views(final(nodes)@).to_multiset() == views(old(nodes)@).to_multiset().insert(node@),
{
    let ghost before = views(nodes@);
    let mut at: usize = nodes.len();
    let mut found = false;
    while at > 0 && !found
        invariant
            at <= nodes@.len(),
            before == views(nodes@),
            *nodes == *old(nodes),
            sorted_by_id(before),
            found ==> at > 0 && text_le(before[at - 1].node_id, node@.node_id),
            forall|j: int|
                at <= j < before.len() ==> text_le(node@.node_id, (#[trigger] before[j]).node_id),
        decreases at + if found { 0int } else { 1 },
    {
        assert(before[at - 1] == nodes@[at - 1]@);
        if is_text_le(nodes[at - 1].node_id.as_str(), node.node_id.as_str()) {
            found = true;
        } else {
            proof {
                lemma_text_le_total(before[at - 1].node_id, node@.node_id);
            }
            at -= 1;
        }
    }
    nodes.insert(at, node);
    proof {
        let after = views(nodes@);
        assert(after =~= before.insert(at as int, node@));
        vstd::seq_lib::to_multiset_insert(before, at as int, node@);
        assert forall|j: int| 0 <= j < at implies text_le(
            (#[trigger] before[j]).node_id,
            node@.node_id,
        ) by {
            if j < at - 1 {
                lemma_text_le_trans(before[j].node_id, before[at - 1].node_id, node@.node_id);
            }
        }
        assert forall|i: int, j: int| 0 <= i < j < after.len() implies text_le(
            (#[trigger] after[i]).node_id,
            (#[trigger] after[j]).node_id,
        ) by {
            let bi = if i < at { i } else { i - 1 };
            let bj = if j < at { j } else { j - 1 };
            if i == at {
                assert(after[j] == before[bj]);
            } else if j == at {
                assert(after[i] == before[bi]);
            } else {
                assert(after[i] == before[bi]);
                assert(after[j] == before[bj]);
            }
        }
    }
}

/// A listing of the directory in progress: the nodes that were read, those that
/// still have to be read, and what the last page said of a further one.
pub struct NodeListing {
    nodes: Vec<NodeRecord>,
    pending: Vec<String>,
    truncated: Option<bool>,
    token: Option<String>,
}

/// The next operation of a listing.
pub enum ListAction {
    /// List the objects under the prefix, from the token on if there is one.
    ListPage { token: Option<String> },
    /// Read the lease of this node.
    ReadNode { node_id: String },
    /// The directory.
    Finish(Result<Vec<NodeRecord>, CoordinationError>),
}

/// A listing as a mathematical value.
pub struct ListingView {
    pub nodes: Seq<NodeView>,
    pub pending: Seq<Seq<char>>,
    pub truncated: bool,
    pub token: Option<Seq<char>>,
}

impl View for NodeListing {
    type V = ListingView;

    closed spec fn view(&self) -> ListingView {
        ListingView {
            nodes: views(self.nodes@),
            pending: self.pending@.map_values(|s: String| s@),
            truncated: self.truncated == Some(true),
            token: match self.token {
                Some(token) => Some(token@),
                None => None,
            },
        }
    }
}

/// The nodes whose leases stand under some keys, in the order of the keys.
pub open spec fn nodes_of_keys(prefix: Seq<char>, keys: Seq<Option<String>>) -> Seq<Seq<char>>
    decreases keys.len(),
{
    if keys.len() == 0 {
        Seq::empty()
    } else {
        let earlier = nodes_of_keys(prefix, keys.drop_last());
        match keys.last() {
            Some(key) => match node_of_key(prefix, key@) {
                Some(node_id) => earlier.push(node_id),
                None => earlier,
            },
            None => earlier,
        }
    }
}

/// `next` and `action` are how a listing goes on: with the next node of the
/// page, with the next page, or with its end. An end is the sorted directory.
pub open spec fn listing_goes_on(
    state: ListingView,
    next: ListingView,
    action: ListAction,
) -> bool {
    if state.pending.len() > 0 {
        &&& action matches ListAction::ReadNode { node_id } && node_id@ == state.pending[0]
        &&& next == (ListingView { pending: state.pending.drop_first(), ..state })
    } else if state.truncated {
        match state.token {
            Some(token) => {
                &&& action matches ListAction::ListPage { token: Some(t) } && t@ == token
                &&& next.nodes == state.nodes
            },
            None => action matches ListAction::Finish(Err(error)) && error.spec_kind()
                == CoordinationErrorKind::InvalidData && error.spec_source() is None,
        }
    } else {
        action matches ListAction::Finish(Ok(nodes)) && views(nodes@) == state.nodes
    }
}

impl NodeListing {
    /// The nodes that were read are in order.
    pub closed spec fn wf(&self) -> bool {
        sorted_by_id(self@.nodes)
    }

    /// Starts to list the directory.
    pub fn begin() -> (start: (Self, ListAction))
        ensures
            start.0.wf(),
            start.0@ == (ListingView {
                nodes: Seq::empty(),
                pending: Seq::empty(),
                truncated: false,
                token: None,
            }),
            start.1 == (ListAction::ListPage { token: None }),
    {
        let listing = NodeListing {
            nodes: Vec::new(),
            pending: Vec::new(),
            truncated: None,
            token: None,
        };
        assert(listing@.nodes =~= Seq::<NodeView>::empty());
        assert(listing@.pending =~= Seq::<Seq<char>>::empty());
        (listing, ListAction::ListPage { token: None })
    }

    fn go_on(&mut self) -> (action: ListAction)
        requires
            old(self).wf(),
        ensures
            action !is Finish ==> final(self).wf(),
            listing_goes_on(old(self)@, final(self)@, action),
            action matches ListAction::Finish(Ok(nodes)) ==> sorted_by_id(views(nodes@)),
    {
        let ghost before = self@;
        if self.pending.len() > 0 {
            let node_id = self.pending.remove(0);
            assert(self@.pending =~= before.pending.drop_first());
            return ListAction::ReadNode { node_id };
        }
        match next_page(self.truncated, self.token.take()) {
            Ok(Some(token)) => ListAction::ListPage { token: Some(token) },
            Ok(None) => {
                let mut nodes: Vec<NodeRecord> = Vec::new();
                std::mem::swap(&mut nodes, &mut self.nodes);
                ListAction::Finish(Ok(nodes))
            },
            Err(error) => ListAction::Finish(Err(error)),
        }
    }

    /// A page of keys has come, with what it says of a further page. Keys that are
    /// not those of leases are passed over.
    pub fn page(
        &mut self,
        store: &S3CoordinationStore,
        keys: &Vec<Option<String>>,
        truncated: Option<bool>,
        token: Option<String>,
    ) -> (action: ListAction)
        requires
            old(self).wf(),
        ensures
            action !is Finish ==> final(self).wf(),
            action matches ListAction::Finish(Ok(nodes)) ==> sorted_by_id(views(nodes@)),
            listing_goes_on(
                ListingView {
                    nodes: old(self)@.nodes,
                    pending: nodes_of_keys(store.spec_prefix(), keys@),
                    truncated: truncated == Some(true),
                    token: match token {
                        Some(token) => Some(token@),
                        None => None,
                    },
                },
                final(self)@,
                action,
            ),
    {
        let mut pending: Vec<String> = Vec::new();
        let mut i: usize = 0;
        assert(pending@.map_values(|s: String| s@) =~= Seq::<Seq<char>>::empty());
        while i < keys.len()
            invariant
                i <= keys@.len(),
                pending@.map_values(|s: String| s@) == nodes_of_keys(
                    store.spec_prefix(),
                    keys@.take(i as int),
                ),
            decreases keys@.len() - i,
        {
            let ghost held = pending@;
            assert(keys@.take(i + 1).drop_last() =~= keys@.take(i as int));
            if let Some(key) = &keys[i] {
                if let Some(node_id) = store.node_id_of_key(key.as_str()) {
                    pending.push(node_id);
                    assert(pending@.map_values(|s: String| s@) =~= held.map_values(
                        |s: String| s@,
                    ).push(node_id@));
                }
            }
            i += 1;
        }
        assert(keys@.take(i as int) =~= keys@);
        self.pending = pending;
        self.truncated = truncated;
        self.token = token;
        self.go_on()
    }

    /// The lease of a node was read. An error ends the listing; a node without a
    /// lease that stands is left out.
    pub fn node(&mut self, read: Result<Option<(NodeRecord, Revision, u64)>, CoordinationError>) -> (
        action: ListAction)
        requires
            old(self).wf(),
        ensures
            action !is Finish ==> final(self).wf(),
            action matches ListAction::Finish(Ok(nodes)) ==> sorted_by_id(views(nodes@)),
            match read {
                Err(error) => action == ListAction::Finish(Err(error)),
                Ok(None) => listing_goes_on(old(self)@, final(self)@, action),
                Ok(Some((node, _, _))) => exists|nodes: Seq<NodeView>| #[trigger]
                    nodes.to_multiset() == old(self)@.nodes.to_multiset().insert(node@)
                        && sorted_by_id(nodes) && listing_goes_on(
                        ListingView { nodes, ..old(self)@ },
                        final(self)@,
                        action,
                    ),
            },
    {
        match read {
            Err(error) => ListAction::Finish(Err(error)),
            Ok(None) => self.go_on(),
            Ok(Some((node, _, _))) => {
                insert_node(&mut self.nodes, node);
                let ghost nodes = self@.nodes;
                assert(nodes.to_multiset() == old(self)@.nodes.to_multiset().insert(node@));
                self.go_on()
            },
        }
    }
}

proof fn lemma_key_parts(prefix: Seq<char>, suffix: Seq<char>)
    ensures
        key_under(prefix, suffix) == key_under(prefix, Seq::empty()) + suffix,
{
    assert(key_under(prefix, suffix) =~= key_under(prefix, Seq::empty()) + suffix);
}

/// The node of a lease is read back from the key of the lease.
pub proof fn law_lease_keys_name_their_node(prefix: Seq<char>, node_id: Seq<char>)
    requires
        node_id.len() > 0,
        !node_id.contains('/'),
    ensures
        node_of_key(prefix, node_key_of(prefix, node_id)) == Some(node_id),
{
    let head = key_under(prefix, "nodes/"@);
    let tail = "/lease.json"@;
    let key = node_key_of(prefix, node_id);
    assert(key =~= head + node_id + tail);
    assert(key.subrange(0, head.len() as int) =~= head);
    assert(key.subrange(key.len() - tail.len(), key.len() as int) =~= tail);
    assert(key.subrange(head.len() as int, key.len() - tail.len()) =~= node_id);
}

/// Two Actors never share an ownership record, and neither shares a key with a
/// lease.
pub proof fn law_keys_are_distinct(
    prefix: Seq<char>,
    left: AddressView,
    right: AddressView,
    node_id: Seq<char>,
)
    requires
        valid_address(left),
        valid_address(right),
    ensures
        actor_key_of(prefix, left) == actor_key_of(prefix, right) ==> left == right,
        actor_key_of(prefix, left) != node_key_of(prefix, node_id),
{
    reveal_strlit("actors/");
    reveal_strlit("nodes/");
    reveal_strlit("/");
    reveal_strlit("/ownership.json");
    let base = key_under(prefix, Seq::empty());
    let tail = "/ownership.json"@;
    let l = "actors/"@ + left.actor_type + "/"@ + left.actor_id + tail;
    let r = "actors/"@ + right.actor_type + "/"@ + right.actor_id + tail;
    let n = "nodes/"@ + node_id + "/lease.json"@;
    lemma_key_parts(prefix, l);
    lemma_key_parts(prefix, r);
    lemma_key_parts(prefix, n);
    if base + l == base + n {
        assert((base + l)[base.len() as int] == l[0]);
        assert((base + n)[base.len() as int] == n[0]);
        assert(l[0] == 'a');
        assert(n[0] == 'n');
    }
    if base + l == base + r {
        assert(l =~= (base + l).subrange(base.len() as int, (base + l).len() as int));
        assert(r =~= (base + r).subrange(base.len() as int, (base + r).len() as int));
        let lt = crate::actor::address_text(left);
        let rt = crate::actor::address_text(right);
        assert("/"@ =~= seq!['/']);
        assert(lt =~= l.subrange(7, l.len() - tail.len()));
        assert(rt =~= r.subrange(7, r.len() - tail.len()));
        crate::actor::law_address_text_is_injective(left, right);
    }
}

/// A prefix of one segment is canonical exactly if the segment is neither empty nor a dot or
/// two; the empty prefix is canonical too.
pub proof fn law_single_segments(segment: Seq<char>)
    requires
        !segment.contains('/'),
    ensures
        canonical_prefix(segment) <==> segment != seq!['.'] && segment != seq!['.', '.'],
{
    assert(segment.subrange(0, segment.len() as int) =~= segment);
    assert forall|k: int| 0 <= k < segment.len() implies segment[k] != '/' by {
        assert(segment.contains(segment[k]));
    }
    assert(is_segment_at(segment, 0, segment.len() as int));
    if segment != seq!['.'] && segment != seq!['.', '.'] && segment.len() > 0 {
        assert forall|from: int, to: int| #[trigger]
            is_segment_at(segment, from, to) implies proper_segment(segment.subrange(from, to)) by {
            assert(from == 0);
            assert(to == segment.len());
        }
    }
}

/// A canonical prefix neither starts nor ends with a slash, and no two slashes meet in it.
pub proof fn law_canonical_prefixes_have_no_empty_segments(prefix: Seq<char>, i: int)
    requires
        canonical_prefix(prefix),
        0 <= i < prefix.len(),
        prefix[i] == '/',
    ensures
        0 < i < prefix.len() - 1,
        prefix[i - 1] != '/',
        prefix[i + 1] != '/',
{
    if i == 0 {
        assert(is_segment_at(prefix, 0, 0));
        assert(prefix.subrange(0, 0).len() == 0);
    }
    if i == prefix.len() - 1 {
        assert(is_segment_at(prefix, i + 1, i + 1));
        assert(prefix.subrange(i + 1, i + 1).len() == 0);
    }
    if 0 < i && prefix[i - 1] == '/' {
        assert(is_segment_at(prefix, i, i));
        assert(prefix.subrange(i, i).len() == 0);
    }
    if i < prefix.len() - 1 && prefix[i + 1] == '/' {
        assert(is_segment_at(prefix, i + 1, i + 1));
        assert(prefix.subrange(i + 1, i + 1).len() == 0);
    }
}

/// Two canonical prefixes joined by a slash are one: whatever may stand in a segment may
/// stand in it at any place.
pub proof fn law_canonical_prefixes_join(left: Seq<char>, right: Seq<char>)
    requires
        canonical_prefix(left),
        canonical_prefix(right),
        left.len() > 0,
        right.len() > 0,
    ensures
        canonical_prefix(left + seq!['/'] + right),
{
    let joined = left + seq!['/'] + right;
    let n = left.len() as int;
    assert forall|from: int, to: int| #[trigger]
        is_segment_at(joined, from, to) implies proper_segment(joined.subrange(from, to)) by {
        assert(joined[n] == '/');
        if from <= n {
            assert(to <= n) by {
                if to > n {
                    assert(from <= n < to);
                }
            }
            assert(forall|k: int| 0 <= k < n ==> joined[k] == left[k]);
            assert(is_segment_at(left, from, to));
            assert(joined.subrange(from, to) =~= left.subrange(from, to));
        } else {
            assert(forall|k: int| n < k < joined.len() ==> joined[k] == right[k - n - 1]);
            assert forall|k: int| from - n - 1 <= k < to - n - 1 implies right[k] != '/' by {
                assert(joined[k + n + 1] == right[k]);
            }
            assert(is_segment_at(right, from - n - 1, to - n - 1));
            assert(joined.subrange(from, to) =~= right.subrange(from - n - 1, to - n - 1));
        }
    }
}

/// Keys stand under the prefix: with one, they start with it and a slash; without one, they
/// stand alone.
pub proof fn law_keys_stand_under_the_prefix(prefix: Seq<char>, suffix: Seq<char>)
    ensures
        prefix.len() == 0 ==> key_under(prefix, suffix) == suffix,
        prefix.len() > 0 ==> {
            let key = key_under(prefix, suffix);
            &&& key.len() == prefix.len() + 1 + suffix.len()
            &&& key.take(prefix.len() as int) == prefix
            &&& key[prefix.len() as int] == '/'
            &&& key.skip(prefix.len() as int + 1) == suffix
        },
{
    reveal_strlit("/");
    if prefix.len() > 0 {
        let key = key_under(prefix, suffix);
        assert(key.take(prefix.len() as int) =~= prefix);
        assert(key.skip(prefix.len() as int + 1) =~= suffix);
    }
}

/// Records of nodes and of Actors stand in their own directories, one directory for each
/// record.
pub proof fn law_records_have_their_places(node_id: Seq<char>, address: AddressView)
    ensures
        node_key_of(Seq::empty(), node_id) == "nodes/"@ + node_id + "/lease.json"@,
        actor_key_of(Seq::empty(), address) == "actors/"@ + address.actor_type + "/"@
            + address.actor_id + "/ownership.json"@,
{
}

/// A key names a node only if it is the key of that node's lease.
pub proof fn law_other_keys_name_no_node(prefix: Seq<char>, key: Seq<char>)
    ensures
        node_of_key(prefix, key) matches Some(node_id) ==> key == node_key_of(prefix, node_id)
            && node_id.len() > 0 && !node_id.contains('/'),
{
    if let Some(node_id) = node_of_key(prefix, key) {
        let head = key_under(prefix, "nodes/"@);
        let tail = "/lease.json"@;
        lemma_key_parts(prefix, "nodes/"@);
        lemma_key_parts(prefix, "nodes/"@ + node_id + "/lease.json"@);
        assert(key.subrange(0, head.len() as int) =~= head);
        assert(key.subrange(key.len() - tail.len(), key.len() as int) =~= tail);
        assert(key =~= head + node_id + tail);
        assert(node_key_of(prefix, node_id) =~= head + node_id + tail);
    }
}

/// A request that was refused for want of rights says so; any other failure of a request
/// means that the store is unavailable.
pub proof fn law_refused_requests_lack_permission(status: Option<u16>)
    ensures
        read_error_kind(status) == CoordinationErrorKind::PermissionDenied <==> status == Some(
            401u16,
        ) || status == Some(403u16),
        read_error_kind(status) != CoordinationErrorKind::PermissionDenied ==> read_error_kind(
            status,
        ) == CoordinationErrorKind::Unavailable,
{
}

/// A write is known to have lost the race only by a failed precondition, and known to have
/// failed only by a reply of the service. After anything else nobody knows, and the cause is
/// kept.
pub proof fn law_failed_writes<T>(
    status: Option<u16>,
    service: bool,
    detail: Seq<char>,
    outcome: Result<MutationOutcome<T>, CoordinationError>,
)
    requires
        is_write_error(status, service, detail, outcome),
    ensures
        (outcome is Ok && outcome->Ok_0 is Conflict) <==> status == Some(412u16),
        outcome is Err <==> service && status != Some(412u16),
        (outcome is Ok && outcome->Ok_0 is Indeterminate) <==> !service && status != Some(412u16),
        !(outcome is Ok && outcome->Ok_0 is Applied),
        outcome matches Err(error) ==> error.spec_source() == Some(detail) && (error.spec_kind()
            == CoordinationErrorKind::PermissionDenied <==> status == Some(401u16) || status
            == Some(403u16)),
        outcome matches Ok(MutationOutcome::Indeterminate(error)) ==> error.spec_source() == Some(
            detail,
        ),
{
}

/// A write was applied exactly if it was written with a tag, which is its revision. One
/// without a tag is invalid.
pub proof fn law_tagged_writes_are_applied(
    write: ObjectWrite,
    outcome: Result<MutationOutcome<Revision>, CoordinationError>,
)
    requires
        is_write_outcome(write, outcome),
    ensures
        (outcome is Ok && outcome->Ok_0 is Applied) <==> write is Written && write->etag is Some,
        outcome matches Ok(MutationOutcome::Applied(revision)) ==> revision@ == write->etag->0@,
        write is Written && write->etag is None ==> outcome is Err
            && outcome->Err_0.spec_kind() == CoordinationErrorKind::InvalidData,
{
}

/// A read ends without an error exactly if there is no object, or the object was received,
/// parsed and tagged. What could not be parsed, or has no tag, is invalid; what could not be
/// received is unavailable.
pub proof fn law_reads_fail_for_a_reason<T>(read: ObjectRead<T>)
    ensures
        read_error(read) is None <==> read is NotFound || (read is Found && read->etag is Some
            && read->body is Parsed),
        read is Failed ==> read_error(read) is Some && (read_error(read)->0).1 == Some(
            read->Failed_detail@,
        ) && (read_error(read)->0).0 != CoordinationErrorKind::InvalidData,
        read is Found && read->etag is None ==> read_error(read) == Some(
            (CoordinationErrorKind::InvalidData, None::<Seq<char>>),
        ),
        read is Found && read->etag is Some && read->body is Broken ==> read_error(read) is Some
            && (read_error(read)->0).0 == CoordinationErrorKind::Unavailable,
        read is Found && read->etag is Some && read->body is Malformed ==> read_error(read) is Some
            && (read_error(read)->0).0 == CoordinationErrorKind::InvalidData,
{
}

/// A directory is in order if each ID comes no later than those after it.
pub proof fn law_directories_are_in_order(nodes: Seq<NodeView>, i: int, j: int)
    requires
        sorted_by_id(nodes),
        0 <= i <= j < nodes.len(),
    ensures
        text_le(nodes[i].node_id, nodes[j].node_id),
{
    lemma_text_le_total(nodes[i].node_id, nodes[j].node_id);
}

/// The nodes of two pages of keys are those of the one and then those of the other; a key
/// that is no lease's adds nothing, and the key of a lease adds its node.
pub proof fn law_pages_add_up(
    prefix: Seq<char>,
    left: Seq<Option<String>>,
    right: Seq<Option<String>>,
    key: String,
)
    ensures
        nodes_of_keys(prefix, left + right) == nodes_of_keys(prefix, left) + nodes_of_keys(
            prefix,
            right,
        ),
        nodes_of_keys(prefix, seq![None::<String>]) == Seq::<Seq<char>>::empty(),
        node_of_key(prefix, key@) is None ==> nodes_of_keys(prefix, seq![Some(key)]) == Seq::<
            Seq<char>,
        >::empty(),
        node_of_key(prefix, key@) matches Some(node_id) ==> nodes_of_keys(prefix, seq![Some(key)])
            == seq![node_id],
    decreases right.len(),
{
    reveal_with_fuel(nodes_of_keys, 2);
    assert(seq![None::<String>].drop_last() =~= Seq::<Option<String>>::empty());
    assert(seq![Some(key)].drop_last() =~= Seq::<Option<String>>::empty());
    if right.len() == 0 {
        assert(left + right =~= left);
    } else {
        law_pages_add_up(prefix, left, right.drop_last(), key);
        assert((left + right).drop_last() =~= left + right.drop_last());
        assert((left + right).last() == right.last());
    }
}

/// A listing reads the nodes of a page in their order, one after the other, before it asks
/// for the next page, and ends only when no page follows: with all nodes that it read, or
/// with an error if a page that follows cannot be named.
pub proof fn law_listings_read_everything(
    state: ListingView,
    next: ListingView,
    action: ListAction,
)
    requires
        listing_goes_on(state, next, action),
    ensures
        state.pending.len() > 0 ==> action is ReadNode && action->node_id@ == state.pending[0]
            && next.pending == state.pending.drop_first() && next.nodes == state.nodes
            && next.truncated == state.truncated && next.token == state.token,
        state.pending.len() == 0 && state.truncated && state.token is Some ==> action is ListPage
            && action->token is Some && action->token->0@ == state.token->0 && next.nodes
            == state.nodes,
        action is Finish <==> state.pending.len() == 0 && !(state.truncated && state.token is Some),
        action matches ListAction::Finish(result) ==> (result is Ok <==> !state.truncated),
        action matches ListAction::Finish(Ok(nodes)) ==> views(nodes@) == state.nodes,
        action matches ListAction::Finish(Err(error)) ==> error.spec_kind()
            == CoordinationErrorKind::InvalidData,
{
}

} // verus!
