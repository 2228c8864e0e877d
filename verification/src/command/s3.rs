//! Leases of command runtimes in an S3 bucket.

use std::time::Duration;

use vstd::prelude::*;
use vstd::string::*;

use crate::cluster::authority::NodeSessionId;
use crate::command::lease::{
    AmbiguousMutation, LeaseMutation, NodeLease, OwnershipStorageError, VersionedNodeLease,
};
use crate::text::{characters, text_of};
use crate::time::duration_nanos;

verus! {

/// Where the leases stand. Credentials and the client stay with the host.
pub struct S3NodeLeaseConfig {
    pub bucket: String,
    pub prefix: String,
    pub region: String,
    pub endpoint_url: Option<String>,
    pub request_timeout: Duration,
}

impl S3NodeLeaseConfig {
    /// A bucket at an endpoint of one's own.
    pub fn local(bucket: String, prefix: String, endpoint_url: String) -> (config: Self)
        ensures
            config.bucket == bucket,
            config.prefix == prefix,
            config.region@ == "us-east-1"@,
            config.endpoint_url == Some(endpoint_url),
            duration_nanos(config.request_timeout) == 2_000_000_000,
    {
        S3NodeLeaseConfig {
            bucket,
            prefix,
            region: "us-east-1".to_owned(),
            endpoint_url: Some(endpoint_url),
            request_timeout: Duration::from_secs(2),
        }
    }
}

/// The leases in a bucket, under a prefix.
pub struct S3NodeLeaseStorage {
    bucket: String,
    prefix: String,
}

/// The first place from which on no slash leads.
pub open spec fn trim_start(text: Seq<char>) -> Seq<char>
    decreases text.len(),
{
    if text.len() > 0 && text[0] == '/' {
        trim_start(text.drop_first())
    } else {
        text
    }
}

/// A text without the slashes at its end.
pub open spec fn trim_end(text: Seq<char>) -> Seq<char>
    decreases text.len(),
{
    if text.len() > 0 && text.last() == '/' {
        trim_end(text.drop_last())
    } else {
        text
    }
}

/// A text without the slashes at either end.
pub open spec fn trim_slashes(text: Seq<char>) -> Seq<char> {
    trim_end(trim_start(text))
}

/// The text without the slashes at either end.
pub fn trimmed(text: &str) -> (trimmed: String)
    ensures
        trimmed@ == trim_slashes(text@),
{
    let chars = characters(text);
    let mut start: usize = 0;
    assert(chars@.subrange(0, chars@.len() as int) =~= chars@);
    while start < chars.len() && chars[start] == '/'
        invariant
            start <= chars@.len(),
            trim_start(chars@) == trim_start(chars@.subrange(start as int, chars@.len() as int)),
        decreases chars@.len() - start,
    {
        assert(chars@.subrange(start as int, chars@.len() as int).drop_first() =~= chars@.subrange(
            start + 1,
            chars@.len() as int,
        ));
        start += 1;
    }
    let ghost middle = chars@.subrange(start as int, chars@.len() as int);
    let mut end: usize = chars.len();
    while end > start && chars[end - 1] == '/'
        invariant
            start <= end <= chars@.len(),
            middle == chars@.subrange(start as int, chars@.len() as int),
            trim_end(middle) == trim_end(chars@.subrange(start as int, end as int)),
        decreases end,
    {
        let ghost part = chars@.subrange(start as int, end as int);
        assert(part.last() == chars@[end - 1]);
        assert(part.drop_last() =~= chars@.subrange(start as int, end - 1));
        end -= 1;
    }
    proof {
        let part = chars@.subrange(start as int, end as int);
        if part.len() > 0 {
            assert(part.last() == chars@[end - 1]);
        }
        if middle.len() > 0 {
            assert(middle[0] == chars@[start as int]);
        }
    }
    text_of(&chars, start, end)
}

impl S3NodeLeaseStorage {
    /// The prefix of all keys.
    pub closed spec fn spec_prefix(&self) -> Seq<char> {
        self.prefix@
    }

    /// The bucket.
    pub closed spec fn spec_bucket(&self) -> Seq<char> {
        self.bucket@
    }

    /// The leases that a configuration describes.
    pub fn new(config: &S3NodeLeaseConfig) -> (storage: Self)
        ensures
            storage.spec_bucket() == config.bucket@,
            storage.spec_prefix() == trim_slashes(config.prefix@),
    {
        S3NodeLeaseStorage { bucket: config.bucket.clone(), prefix: trimmed(config.prefix.as_str()) }
    }

    /// The bucket.
    pub fn bucket(&self) -> (bucket: &str)
        ensures
            bucket@ == self.spec_bucket(),
    {
        self.bucket.as_str()
    }

    /// The key of the lease of one life of a runtime.
    pub fn key(&self, session_id: &NodeSessionId) -> (key: String)
        ensures
            key@ == self.spec_prefix() + "/nodes/"@ + session_id@ + ".json"@,
    {
        self.prefix.clone().concat("/nodes/").concat(session_id.as_str()).concat(".json")
    }

    /// The prefix of the keys of all leases.
    pub fn nodes_prefix(&self) -> (prefix: String)
        ensures
            prefix@ == self.spec_prefix() + "/nodes/"@,
    {
        self.prefix.clone().concat("/nodes/")
    }
}

/// What the bucket answered to the read of a lease.
pub enum LeaseRead {
    /// There is no such object.
    NotFound,
    /// The request failed.
    Failed,
    /// The object was found, with its tag if it has one.
    Found { etag: Option<String>, body: LeaseBody },
}

/// What became of the body of an object.
pub enum LeaseBody {
    Broken,
    Malformed,
    Parsed(NodeLease),
}

/// What the read of a lease gives.
pub open spec fn lease_read(read: LeaseRead) -> Result<
    Option<VersionedNodeLease>,
    OwnershipStorageError,
> {
    match read {
        LeaseRead::NotFound => Ok(None),
        LeaseRead::Failed => Err(OwnershipStorageError::Unavailable),
        LeaseRead::Found { etag: None, .. } => Err(OwnershipStorageError::Failed),
        LeaseRead::Found { etag: Some(etag), body } => match body {
            LeaseBody::Broken => Err(OwnershipStorageError::Unavailable),
            LeaseBody::Malformed => Err(OwnershipStorageError::Failed),
            LeaseBody::Parsed(lease) => Ok(Some(VersionedNodeLease { lease, etag })),
        },
    }
}

/// What the read of a lease gives.
pub fn read_key(read: LeaseRead) -> (lease: Result<Option<VersionedNodeLease>, OwnershipStorageError>)
    ensures
        lease == lease_read(read),
{
    match read {
        LeaseRead::NotFound => Ok(None),
        LeaseRead::Failed => Err(OwnershipStorageError::Unavailable),
        LeaseRead::Found { etag, body } => match etag {
            None => Err(OwnershipStorageError::Failed),
            Some(etag) => match body {
                LeaseBody::Broken => Err(OwnershipStorageError::Unavailable),
                LeaseBody::Malformed => Err(OwnershipStorageError::Failed),
                LeaseBody::Parsed(lease) => Ok(Some(VersionedNodeLease { lease, etag })),
            },
        },
    }
}

/// How a request failed.
#[derive(Clone, Copy, Debug, PartialEq, Eq, Structural)]
pub enum RequestFailure {
    /// It was never sent.
    Construction,
    /// It did not end in time.
    Timeout,
    /// It may or may not have been sent.
    Dispatch,
    /// The response could not be read.
    Response,
    /// The service reported an error.
    Service,
    /// Anything else.
    Other,
}

/// What a failed write means.
pub open spec fn write_error(status: Option<u16>, failure: RequestFailure) -> Result<
    LeaseMutation,
    OwnershipStorageError,
> {
    if status == Some(412u16) {
        Ok::<LeaseMutation, OwnershipStorageError>(LeaseMutation::ConditionalRejected)
    } else {
        match failure {
            RequestFailure::Service | RequestFailure::Construction => Err(
                OwnershipStorageError::Failed,
            ),
            RequestFailure::Timeout => Ok(LeaseMutation::Ambiguous(AmbiguousMutation::Timeout)),
            RequestFailure::Response | RequestFailure::Dispatch => Ok(
                LeaseMutation::Ambiguous(AmbiguousMutation::ResponseLost),
            ),
            RequestFailure::Other => Ok(
                LeaseMutation::Ambiguous(AmbiguousMutation::DispatchUnknown),
            ),
        }
    }
}

/// What a failed write means. Only a request that was never sent, and one that
/// the service refused, is known not to have been applied.
pub fn classify_write_error(status: Option<u16>, failure: RequestFailure) -> (outcome: Result<
    LeaseMutation,
    OwnershipStorageError,
>)
    ensures
        outcome == write_error(status, failure),
{
    let rejected = match status {
        Some(status) => status == 412,
        None => false,
    };
    if rejected {
        return Ok(LeaseMutation::ConditionalRejected);
    }
    match failure {
        RequestFailure::Service | RequestFailure::Construction => Err(OwnershipStorageError::Failed),
        RequestFailure::Timeout => Ok(LeaseMutation::Ambiguous(AmbiguousMutation::Timeout)),
        RequestFailure::Response | RequestFailure::Dispatch => Ok(
            LeaseMutation::Ambiguous(AmbiguousMutation::ResponseLost),
        ),
        RequestFailure::Other => Ok(LeaseMutation::Ambiguous(AmbiguousMutation::DispatchUnknown)),
    }
}

/// What a write that succeeded came to. A write without a tag cannot be built on.
pub fn written(etag: Option<String>) -> (outcome: Result<LeaseMutation, OwnershipStorageError>)
    ensures
        outcome == match etag {
            Some(etag) => Ok(LeaseMutation::Applied { etag }),
            None => Err(OwnershipStorageError::Failed),
        },
{
    match etag {
        Some(etag) => Ok(LeaseMutation::Applied { etag }),
        None => Err(OwnershipStorageError::Failed),
    }
}

/// What the deletion of a lease came to: one that was deleted keeps the tag that
/// it was deleted under.
pub fn released(etag: &str, failure: Option<(Option<u16>, RequestFailure)>) -> (outcome: Result<
    LeaseMutation,
    OwnershipStorageError,
>)
    ensures
        match failure {
            None => outcome matches Ok(LeaseMutation::Applied { etag: kept }) && kept@ == etag@,
            Some((status, failure)) => outcome == write_error(status, failure),
        },
{
    match failure {
        None => Ok(LeaseMutation::Applied { etag: etag.to_owned() }),
        Some((status, failure)) => classify_write_error(status, failure),
    }
}

/// The page of a listing that follows, if there is one.
pub fn next_page(truncated: Option<bool>, token: Option<String>) -> (next: Result<
    Option<String>,
    OwnershipStorageError,
>)
    ensures
        next == if truncated != Some(true) {
            Ok::<Option<String>, OwnershipStorageError>(None)
        } else {
            match token {
                Some(token) => Ok(Some(token)),
                None => Err(OwnershipStorageError::Failed),
            }
        },
{
    let more = match truncated {
        Some(more) => more,
        None => false,
    };
    if !more {
        return Ok(None);
    }
    match token {
        Some(token) => Ok(Some(token)),
        None => Err(OwnershipStorageError::Failed),
    }
}

/// A listing of the leases in progress: those that were read, the keys that still
/// have to be read, and what the last page said of a further one.
pub struct LeaseListing {
    leases: Vec<VersionedNodeLease>,
    pending: Vec<String>,
    truncated: Option<bool>,
    token: Option<String>,
}

/// The next operation of a listing.
pub enum LeaseListAction {
    /// List the objects under the prefix, from the token on if there is one.
    ListPage { token: Option<String> },
    /// Read the lease under this key.
    ReadKey { key: String },
    /// The leases.
    Finish(Result<Vec<VersionedNodeLease>, OwnershipStorageError>),
}

/// A listing as a mathematical value.
pub struct LeaseListingView {
    pub leases: Seq<VersionedNodeLease>,
    pub pending: Seq<String>,
    pub truncated: Option<bool>,
    pub token: Option<String>,
}

impl View for LeaseListing {
    type V = LeaseListingView;

    closed spec fn view(&self) -> LeaseListingView {
        LeaseListingView {
            leases: self.leases@,
            pending: self.pending@,
            truncated: self.truncated,
            token: self.token,
        }
    }
}

/// The keys of a page, without the objects that have none.
pub open spec fn keys_of(keys: Seq<Option<String>>) -> Seq<String>
    decreases keys.len(),
{
    if keys.len() == 0 {
        Seq::empty()
    } else {
        match keys.last() {
            Some(key) => keys_of(keys.drop_last()).push(key),
            None => keys_of(keys.drop_last()),
        }
    }
}

/// `next` and `action` are how a listing goes on: with the next key of the page,
/// with the next page, or with its end.
pub open spec fn lists_on(
    state: LeaseListingView,
    next: LeaseListingView,
    action: LeaseListAction,
) -> bool {
    if state.pending.len() > 0 {
        &&& action == (LeaseListAction::ReadKey { key: state.pending[0] })
        &&& next == (LeaseListingView { pending: state.pending.drop_first(), ..state })
    } else if state.truncated == Some(true) {
        match state.token {
            Some(token) => action == (LeaseListAction::ListPage { token: Some(token) })
                && next.leases == state.leases,
            None => action matches LeaseListAction::Finish(Err(OwnershipStorageError::Failed)),
        }
    } else {
        action matches LeaseListAction::Finish(Ok(leases)) && leases@ == state.leases
    }
}

impl LeaseListing {
    /// Starts to list the leases.
    pub fn begin() -> (start: (Self, LeaseListAction))
        ensures
            start.0@ == (LeaseListingView {
                leases: Seq::empty(),
                pending: Seq::empty(),
                truncated: None,
                token: None,
            }),
            start.1 == (LeaseListAction::ListPage { token: None }),
    {
        let listing = LeaseListing {
            leases: Vec::new(),
            pending: Vec::new(),
            truncated: None,
            token: None,
        };
        (listing, LeaseListAction::ListPage { token: None })
    }

    fn go_on(&mut self) -> (action: LeaseListAction)
        ensures
            lists_on(old(self)@, final(self)@, action),
    {
        if self.pending.len() > 0 {
            let ghost before = self.pending@;
            let key = self.pending.remove(0);
            assert(self.pending@ =~= before.drop_first());
            return LeaseListAction::ReadKey { key };
        }
        match next_page(self.truncated, self.token.take()) {
            Ok(Some(token)) => LeaseListAction::ListPage { token: Some(token) },
            Ok(None) => {
                let mut leases: Vec<VersionedNodeLease> = Vec::new();
                std::mem::swap(&mut leases, &mut self.leases);
                LeaseListAction::Finish(Ok(leases))
            },
            Err(error) => LeaseListAction::Finish(Err(error)),
        }
    }

    /// A page of keys has come, with what it says of a further page.
    pub fn page(
        &mut self,
        keys: Vec<Option<String>>,
        truncated: Option<bool>,
        token: Option<String>,
    ) -> (action: LeaseListAction)
        ensures
            lists_on(
                LeaseListingView {
                    leases: old(self)@.leases,
                    pending: keys_of(keys@),
                    truncated,
                    token,
                },
                final(self)@,
                action,
            ),
    {
        let ghost all = keys@;
        let mut rest = keys;
        let mut pending: Vec<String> = Vec::new();
        assert(all.take(0) =~= Seq::<Option<String>>::empty());
        assert(all.skip(0) =~= all);
        let ghost mut done: int = 0;
        while rest.len() > 0
            invariant
                0 <= done <= all.len(),
                rest@ == all.skip(done),
                pending@ == keys_of(all.take(done)),
            decreases rest@.len(),
        {
            let key = rest.remove(0);
            proof {
                assert(all.take(done + 1).drop_last() =~= all.take(done));
                assert(all.take(done + 1).last() == all[done]);
                assert(rest@ =~= all.skip(done + 1));
                done = done + 1;
            }
            if let Some(key) = key {
                pending.push(key);
            }
        }
        assert(all.take(done) =~= all);
        self.pending = pending;
        self.truncated = truncated;
        self.token = token;
        self.go_on()
    }

    /// The listing of a page has failed.
    pub fn page_failed(self) -> (action: LeaseListAction)
        ensures
            action == LeaseListAction::Finish(Err(OwnershipStorageError::Unavailable)),
    {
        LeaseListAction::Finish(Err(OwnershipStorageError::Unavailable))
    }

    /// A key was read. A lease that is gone by now is passed over.
    pub fn read(&mut self, read: LeaseRead) -> (action: LeaseListAction)
        ensures
            match lease_read(read) {
                Ok(Some(lease)) => lists_on(
                    LeaseListingView { leases: old(self)@.leases.push(lease), ..old(self)@ },
                    final(self)@,
                    action,
                ),
                Ok(None) => lists_on(old(self)@, final(self)@, action),
                Err(error) => action == LeaseListAction::Finish(Err(error)),
            },
    {
        match read_key(read) {
            Ok(Some(lease)) => {
                self.leases.push(lease);
                self.go_on()
            },
            Ok(None) => self.go_on(),
            Err(error) => LeaseListAction::Finish(Err(error)),
        }
    }
}

/// A trimmed text neither starts nor ends with a slash, and only slashes were taken off: the
/// text is some slashes, the trimmed text, and some slashes.
pub proof fn law_only_slashes_are_trimmed(text: Seq<char>)
    ensures
        ({
            let trimmed = trim_slashes(text);
            &&& trimmed.len() > 0 ==> trimmed[0] != '/' && trimmed.last() != '/'
            &&& exists|from: int, to: int|
                0 <= from <= to <= text.len() && #[trigger] text.subrange(from, to) == trimmed && (
                forall|k: int| 0 <= k < from ==> text[k] == '/') && (forall|k: int|
                    to <= k < text.len() ==> text[k] == '/')
        }),
{
    let cut = lemma_trim_start(text);
    let start = trim_start(text);
    let end = lemma_trim_end(start);
    let trimmed = trim_slashes(text);
    assert(start == text.skip(cut));
    assert(trimmed == start.take(end));
    assert(text.subrange(cut, cut + end) =~= trimmed);
    assert forall|k: int| cut + end <= k < text.len() implies text[k] == '/' by {
        assert(start[k - cut] == text[k]);
    }
    if trimmed.len() > 0 {
        assert(trimmed[0] == start[0]);
    }
}

proof fn lemma_trim_start(text: Seq<char>) -> (cut: int)
    ensures
        0 <= cut <= text.len(),
        trim_start(text) == text.skip(cut),
        forall|k: int| 0 <= k < cut ==> text[k] == '/',
        trim_start(text).len() > 0 ==> trim_start(text)[0] != '/',
    decreases text.len(),
{
    if text.len() > 0 && text[0] == '/' {
        let cut = lemma_trim_start(text.drop_first());
        assert(text.skip(cut + 1) =~= text.drop_first().skip(cut));
        assert forall|k: int| 0 <= k < cut + 1 implies text[k] == '/' by {
            if k > 0 {
                assert(text.drop_first()[k - 1] == text[k]);
            }
        }
        cut + 1
    } else {
        assert(text.skip(0) =~= text);
        0
    }
}

proof fn lemma_trim_end(text: Seq<char>) -> (end: int)
    ensures
        0 <= end <= text.len(),
        trim_end(text) == text.take(end),
        forall|k: int| end <= k < text.len() ==> text[k] == '/',
        trim_end(text).len() > 0 ==> trim_end(text).last() != '/',
    decreases text.len(),
{
    if text.len() > 0 && text.last() == '/' {
        let end = lemma_trim_end(text.drop_last());
        assert(text.take(end) =~= text.drop_last().take(end));
        assert forall|k: int| end <= k < text.len() implies text[k] == '/' by {
            if k < text.len() - 1 {
                assert(text.drop_last()[k] == text[k]);
            }
        }
        end
    } else {
        assert(text.take(text.len() as int) =~= text);
        text.len() as int
    }
}

/// A read gives a lease exactly if the object was found with its tag and parsed: that lease,
/// under that tag. What could not be received is unavailable; what has no tag or could not
/// be parsed has failed.
pub proof fn law_lease_reads(read: LeaseRead)
    ensures
        (lease_read(read) is Ok && lease_read(read)->Ok_0 is Some) <==> read is Found && read->etag
            is Some && read->body is Parsed,
        lease_read(read) matches Ok(Some(versioned)) ==> versioned.etag == read->etag->0
            && versioned.lease == read->body->Parsed_0,
        (lease_read(read) is Ok && lease_read(read)->Ok_0 is None) <==> read is NotFound,
        lease_read(read) is Err && lease_read(read)->Err_0 == OwnershipStorageError::Unavailable
            <==> read is Failed || (read is Found && read->etag is Some && read->body is Broken),
{
}

/// A write is known to have been rejected only by a failed precondition, and known to have
/// failed only if it was never sent or the service said so; after anything else nobody
/// knows.
pub proof fn law_failed_lease_writes(status: Option<u16>, failure: RequestFailure)
    ensures
        ({
            let outcome = write_error(status, failure);
            &&& outcome == Ok::<LeaseMutation, OwnershipStorageError>(
                LeaseMutation::ConditionalRejected,
            ) <==> status == Some(412u16)
            &&& outcome is Err <==> status != Some(412u16) && (failure == RequestFailure::Service
                || failure == RequestFailure::Construction)
            &&& outcome matches Err(error) ==> error == OwnershipStorageError::Failed
            &&& !(outcome is Ok && outcome->Ok_0 is Applied)
            &&& status != Some(412u16) && failure == RequestFailure::Timeout ==> outcome == Ok::<
                LeaseMutation,
                OwnershipStorageError,
            >(LeaseMutation::Ambiguous(AmbiguousMutation::Timeout))
            &&& status != Some(412u16) && (failure == RequestFailure::Response || failure
                == RequestFailure::Dispatch) ==> outcome == Ok::<
                LeaseMutation,
                OwnershipStorageError,
            >(LeaseMutation::Ambiguous(AmbiguousMutation::ResponseLost))
            &&& status != Some(412u16) && failure == RequestFailure::Other ==> outcome == Ok::<
                LeaseMutation,
                OwnershipStorageError,
            >(LeaseMutation::Ambiguous(AmbiguousMutation::DispatchUnknown))
        }),
{
}

/// The keys of two pages are those of the one and then those of the other; every key is
/// kept, and an object without one adds nothing.
pub proof fn law_pages_add_up(left: Seq<Option<String>>, right: Seq<Option<String>>, key: String)
    ensures
        keys_of(left + right) == keys_of(left) + keys_of(right),
        keys_of(seq![None::<String>]) == Seq::<String>::empty(),
        keys_of(seq![Some(key)]) == seq![key],
    decreases right.len(),
{
    reveal_with_fuel(keys_of, 2);
    assert(seq![None::<String>].drop_last() =~= Seq::<Option<String>>::empty());
    assert(seq![Some(key)].drop_last() =~= Seq::<Option<String>>::empty());
    if right.len() == 0 {
        assert(left + right =~= left);
    } else {
        law_pages_add_up(left, right.drop_last(), key);
        assert((left + right).drop_last() =~= left + right.drop_last());
        assert((left + right).last() == right.last());
    }
}

/// A listing reads the keys of a page in their order, one after the other, before it asks for
/// the next page, and ends only when no page follows: with all leases that it read, or with
/// an error if a page that follows cannot be named.
pub proof fn law_listings_read_everything(
    state: LeaseListingView,
    next: LeaseListingView,
    action: LeaseListAction,
)
    requires
        lists_on(state, next, action),
    ensures
        state.pending.len() > 0 ==> action is ReadKey && action->key == state.pending[0]
            && next.pending == state.pending.drop_first() && next.leases == state.leases
            && next.truncated == state.truncated && next.token == state.token,
        state.pending.len() == 0 && state.truncated == Some(true) && state.token is Some
            ==> action is ListPage && action->token == state.token && next.leases == state.leases,
        action is Finish <==> state.pending.len() == 0 && !(state.truncated == Some(true)
            && state.token is Some),
        action matches LeaseListAction::Finish(result) ==> (result is Ok <==> state.truncated
            != Some(true)),
        action matches LeaseListAction::Finish(Ok(leases)) ==> leases@ == state.leases,
        action matches LeaseListAction::Finish(Err(error)) ==> error
            == OwnershipStorageError::Failed,
{
}

} // verus!
