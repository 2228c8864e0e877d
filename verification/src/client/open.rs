//! Opening a Session: find the Owner or a Server to become it, connect, ask.
//!
//! An opening alternates with the outside: it names the next operation, the host
//! performs it and hands back what came of it.

use vstd::prelude::*;
use vstd::string::*;

use crate::actor::{ActorAddress, AddressView};
use crate::client::connection::unbound;
use crate::client::inner::{admitting, is_close, ClientInner};
use crate::client::placing::listed;
use crate::cluster::authority::{
    ActorOwner, NodeRecord, OwnerView, StoreReply, VersionedActorOwnerRecord,
};
use crate::error::{open_error_of, OpenError, SendError};
use crate::keyed::Key;
use crate::runtime::session::{Outgoing, SessionId};
use crate::text::{blank, is_blank};
use crate::time::duration_nanos;
use crate::transport::Endpoint;
use crate::transport_protocol::TRANSPORT_PROTOCOL_VERSION;

verus! {

/// Who owns an Actor, as a Client sees it.
pub enum OwnerResolution {
    /// The life of a Server that holds its lease.
    Live { endpoint: Endpoint, owner: ActorOwner },
    /// Nobody.
    Unowned,
}

/// The look-up of an Owner after the ownership record was read.
pub enum OwnerLookup {
    /// It is settled.
    Settled(Result<OwnerResolution, SendError>),
    /// Read the node record of this owner.
    ReadNode { owner: ActorOwner },
}

/// An Owner as a mathematical value.
pub enum ResolutionView {
    Live { endpoint: Seq<char>, owner: OwnerView },
    Unowned,
}

impl View for OwnerResolution {
    type V = ResolutionView;

    open spec fn view(&self) -> ResolutionView {
        match self {
            OwnerResolution::Live { endpoint, owner } => ResolutionView::Live {
                endpoint: endpoint@,
                owner: owner@,
            },
            OwnerResolution::Unowned => ResolutionView::Unowned,
        }
    }
}

/// A result of a resolution as a mathematical value.
pub open spec fn resolution_view(result: Result<OwnerResolution, SendError>) -> Result<
    ResolutionView,
    SendError,
> {
    match result {
        Ok(resolution) => Ok(resolution@),
        Err(error) => Err(error),
    }
}

/// Goes on with what the store gave for the ownership record. A record without
/// an owner is as good as none.
pub fn owner_read(reply: StoreReply<Option<VersionedActorOwnerRecord>>) -> (lookup: OwnerLookup)
    ensures
        match reply {
            StoreReply::Ready(Some(read)) if read.record.owner is Some => lookup
                == (OwnerLookup::ReadNode { owner: read.record.owner->0 }),
            StoreReply::Ready(_) => lookup == OwnerLookup::Settled(Ok(OwnerResolution::Unowned)),
            _ => lookup == OwnerLookup::Settled(Err(SendError::OwnershipUnavailable)),
        },
{
    match reply {
        StoreReply::Ready(Some(read)) => match read.record.owner {
            Some(owner) => OwnerLookup::ReadNode { owner },
            None => OwnerLookup::Settled(Ok(OwnerResolution::Unowned)),
        },
        StoreReply::Ready(None) => OwnerLookup::Settled(Ok(OwnerResolution::Unowned)),
        _ => OwnerLookup::Settled(Err(SendError::OwnershipUnavailable)),
    }
}

/// What the node record of an owner means: a lease of another life, or none,
/// means that nobody owns the Actor; a Server that cannot be talked to is
/// unavailable.
pub open spec fn owner_of_node(owner: OwnerView, reply: StoreReply<Option<NodeRecord>>) -> Result<
    ResolutionView,
    SendError,
> {
    match reply {
        StoreReply::Ready(Some(node)) => if node@.session_id != owner.session_id {
            Ok(ResolutionView::Unowned)
        } else if node@.protocol_version != TRANSPORT_PROTOCOL_VERSION || blank(
            node@.advertised_endpoint,
        ) {
            Err(SendError::RemoteUnavailable)
        } else {
            Ok(ResolutionView::Live { endpoint: node@.advertised_endpoint, owner })
        },
        StoreReply::Ready(None) => Ok(ResolutionView::Unowned),
        _ => Err(SendError::DirectoryUnavailable),
    }
}

/// Goes on with what the directory gave for the node of an owner.
pub fn node_read(owner: ActorOwner, reply: StoreReply<Option<NodeRecord>>) -> (result: Result<
    OwnerResolution,
    SendError,
>)
    ensures
        resolution_view(result) == owner_of_node(owner@, reply),
{
    match reply {
        StoreReply::Ready(Some(node)) => {
            if !node.session_id.same(&owner.session_id) {
                return Ok(OwnerResolution::Unowned);
            }
            if node.protocol_version != TRANSPORT_PROTOCOL_VERSION || is_blank(
                node.advertised_endpoint.as_str(),
            ) {
                return Err(SendError::RemoteUnavailable);
            }
            Ok(OwnerResolution::Live { endpoint: Endpoint::new(node.advertised_endpoint), owner })
        },
        StoreReply::Ready(None) => Ok(OwnerResolution::Unowned),
        _ => Err(SendError::DirectoryUnavailable),
    }
}

/// The Server that an opening turns to.
pub struct OpenTarget {
    endpoint: Endpoint,
    owner: Option<ActorOwner>,
}

/// An opening in progress.
pub struct Opening {
    address: ActorAddress,
    session_id: SessionId,
    deadline: u128,
    attempts: usize,
    excluded: Vec<String>,
    failed_owner: Option<ActorOwner>,
    target: Option<OpenTarget>,
}

/// A target as a mathematical value. A target without an owner is a placement.
pub struct TargetView {
    pub endpoint: Seq<char>,
    pub owner: Option<OwnerView>,
}

/// An opening as a mathematical value. The deadline is a moment in nanoseconds.
pub struct OpeningView {
    pub address: AddressView,
    pub session_id: Seq<u8>,
    pub deadline: nat,
    pub attempts: nat,
    pub excluded: Set<Seq<char>>,
    pub failed_owner: Option<OwnerView>,
    pub target: Option<TargetView>,
}

spec fn owner_view(owner: Option<ActorOwner>) -> Option<OwnerView> {
    match owner {
        Some(owner) => Some(owner@),
        None => None,
    }
}

impl View for Opening {
    type V = OpeningView;

    closed spec fn view(&self) -> OpeningView {
        OpeningView {
            address: self.address@,
            session_id: self.session_id@,
            deadline: self.deadline as nat,
            attempts: self.attempts as nat,
            excluded: Set::new(|name: Seq<char>| listed(self.excluded@, name)),
            failed_owner: owner_view(self.failed_owner),
            target: match self.target {
                Some(target) => Some(
                    TargetView { endpoint: target.endpoint@, owner: owner_view(target.owner) },
                ),
                None => None,
            },
        }
    }
}

/// The next operation of an opening, and the moment in nanoseconds until which
/// the host waits for it.
pub enum OpenAction {
    /// Look the Owner up.
    Resolve { until: u128 },
    /// Choose a Server that is not excluded.
    Place { until: u128 },
    /// Get a connection to this endpoint.
    Connect { endpoint: Endpoint, until: u128 },
    /// Ask the Server to open the Session.
    Ask { until: u128 },
    /// The opening has ended.
    Finish(Result<(), OpenError>),
}

/// A step of an opening: the next operation, and an endpoint of which the
/// placement strategy has to learn that a placement failed there.
pub struct OpenStep {
    pub action: OpenAction,
    pub placement_failed: Option<String>,
    pub close: Option<Outgoing>,
}

/// An operation as a mathematical value.
pub enum ActionView {
    Resolve { until: nat },
    Place { until: nat },
    Connect { endpoint: Seq<char>, until: nat },
    Ask { until: nat },
    Finish(Result<(), OpenError>),
}

impl ActionView {
    /// The moment until which the host waits for an operation; an opening that has
    /// ended waits for nothing.
    pub open spec fn until(self) -> Option<nat> {
        match self {
            ActionView::Resolve { until } => Some(until),
            ActionView::Place { until } => Some(until),
            ActionView::Connect { until, .. } => Some(until),
            ActionView::Ask { until } => Some(until),
            ActionView::Finish(_) => None,
        }
    }
}

impl View for OpenAction {
    type V = ActionView;

    open spec fn view(&self) -> ActionView {
        match self {
            OpenAction::Resolve { until } => ActionView::Resolve { until: *until as nat },
            OpenAction::Place { until } => ActionView::Place { until: *until as nat },
            OpenAction::Connect { endpoint, until } => ActionView::Connect {
                endpoint: endpoint@,
                until: *until as nat,
            },
            OpenAction::Ask { until } => ActionView::Ask { until: *until as nat },
            OpenAction::Finish(result) => ActionView::Finish(*result),
        }
    }
}

impl OpenStep {
    /// The endpoint on which a placement failed.
    pub open spec fn failed_endpoint(&self) -> Option<Seq<char>> {
        match self.placement_failed {
            Some(endpoint) => Some(endpoint@),
            None => None,
        }
    }

    /// A step of which nobody has to learn.
    pub open spec fn quiet(&self, action: ActionView) -> bool {
        self.action@ == action && self.placement_failed is None && self.close is None
    }
}

/// What follows on a resolution of the Owner. An Owner that has failed before is
/// not tried again.
pub open spec fn after_resolution(
    state: OpeningView,
    result: Result<ResolutionView, SendError>,
) -> (OpeningView, ActionView) {
    match result {
        Err(error) => (state, ActionView::Finish(Err(open_error_of(error)))),
        Ok(ResolutionView::Unowned) => (state, ActionView::Place { until: state.deadline }),
        Ok(ResolutionView::Live { endpoint, owner }) => if state.failed_owner == Some(owner) {
            (state, ActionView::Finish(Err(OpenError::RemoteUnavailable)))
        } else {
            (
                OpeningView { target: Some(TargetView { endpoint, owner: Some(owner) }), ..state },
                ActionView::Connect { endpoint, until: state.deadline },
            )
        },
    }
}

/// The opening gives its target up, so that it is not chosen again: a placement
/// is excluded, an Owner is remembered.
pub open spec fn give_up(state: OpeningView) -> OpeningView {
    match state.target {
        Some(target) => match target.owner {
            None => OpeningView { excluded: state.excluded.insert(target.endpoint), ..state },
            Some(owner) => OpeningView { failed_owner: Some(owner), ..state },
        },
        None => state,
    }
}

/// The endpoint of a target that is a placement.
pub open spec fn placed_endpoint(state: OpeningView) -> Option<Seq<char>> {
    match state.target {
        Some(target) => if target.owner is None {
            Some(target.endpoint)
        } else {
            None
        },
        None => None,
    }
}

/// What follows on the answer of a Server: it opened the Session, or gave an
/// error. Errors that another Server may not give lead to another try, as long as
/// attempts are left.
pub open spec fn after_answer(
    state: OpeningView,
    sent: bool,
    result: Result<(), SendError>,
    limit: nat,
) -> (OpeningView, ActionView) {
    let counted = OpeningView {
        attempts: if sent {
            state.attempts + 1
        } else {
            state.attempts
        },
        ..state
    };
    let placed = placed_endpoint(state) is Some;
    match result {
        Ok(()) => (counted, ActionView::Finish(Ok(()))),
        Err(error) => {
            let retried = error == SendError::NotOwner || error == SendError::RemoteUnavailable || (
            error == SendError::RuntimeAtCapacity && placed);
            if !retried {
                (counted, ActionView::Finish(Err(open_error_of(error))))
            } else if counted.attempts >= limit {
                (counted, ActionView::Finish(Err(OpenError::AttemptsExhausted)))
            } else if error == SendError::NotOwner {
                (counted, ActionView::Resolve { until: state.deadline })
            } else {
                (give_up(counted), ActionView::Resolve { until: state.deadline })
            }
        },
    }
}

impl Opening {
    /// The number of attempts is in range.
    pub closed spec fn wf(&self, limit: usize) -> bool {
        self.attempts <= limit
    }

    /// Starts to open a Session, if the Client runs: the Session gets its
    /// identity. The timeout of the Client counts from now on, for all that the
    /// opening does.
    pub fn begin<R>(
        client: &ClientInner<R>,
        address: &ActorAddress,
        now: u64,
    ) -> (start: Result<(Self, OpenAction), OpenError>)
        ensures
            start is Ok == client.running,
            start matches Ok(begun) ==> {
                &&& begun.0.wf(client.max_open_attempts)
                &&& begun.1@ == (ActionView::Resolve { until: begun.0@.deadline })
                &&& begun.0@.session_id.len() == 16
                &&& begun.0@ == (OpeningView {
                    address: address@,
                    session_id: begun.0@.session_id,
                    deadline: now as nat + duration_nanos(client.open_timeout),
                    attempts: 0,
                    excluded: Set::empty(),
                    failed_owner: None,
                    target: None,
                })
            },
            start matches Err(error) ==> error == OpenError::RuntimeStopped,
    {
        if !client.running {
            return Err(OpenError::RuntimeStopped);
        }
        let timeout: u128 = client.open_timeout.as_nanos();
        let deadline: u128 = now as u128 + timeout;
        let opening = Opening {
            address: address.duplicate(),
            session_id: SessionId::new(),
            deadline,
            attempts: 0,
            excluded: Vec::new(),
            failed_owner: None,
            target: None,
        };
        assert(opening@.excluded =~= Set::<Seq<char>>::empty());
        Ok((opening, OpenAction::Resolve { until: deadline }))
    }

    /// The identity of the Session.
    pub fn session_id(&self) -> (session_id: SessionId)
        ensures
            session_id@ == self@.session_id,
    {
        self.session_id
    }

    /// The endpoints that are excluded from placement.
    pub fn excluded(&self) -> (excluded: &Vec<String>)
        ensures
            forall|name: Seq<char>| self@.excluded.contains(name) == listed(excluded@, name),
    {
        &self.excluded
    }

    fn quiet(action: OpenAction) -> (step: OpenStep)
        ensures
            step.quiet(action@),
    {
        OpenStep { action, placement_failed: None, close: None }
    }

    /// Goes on with who owns the Actor.
    pub fn resolved(
        &mut self,
        result: Result<OwnerResolution, SendError>,
        limit: usize,
    ) -> (step: OpenStep)
        requires
            old(self).wf(limit),
        ensures
            final(self).wf(limit),
            (final(self)@, step.action@) == after_resolution(old(self)@, resolution_view(result)),
            step.quiet(step.action@),
    {
        match result {
            Err(error) => Self::quiet(OpenAction::Finish(Err(OpenError::from(error)))),
            Ok(OwnerResolution::Unowned) => Self::quiet(OpenAction::Place { until: self.deadline }),
            Ok(OwnerResolution::Live { endpoint, owner }) => {
                let failed = match &self.failed_owner {
                    Some(failed) => failed.same(&owner),
                    None => false,
                };
                if failed {
                    return Self::quiet(OpenAction::Finish(Err(OpenError::RemoteUnavailable)));
                }
                let copy = endpoint.duplicate();
                self.target = Some(OpenTarget { endpoint, owner: Some(owner) });
                Self::quiet(OpenAction::Connect { endpoint: copy, until: self.deadline })
            },
        }
    }

    /// Goes on with the Server that was chosen for an Actor that nobody owns.
    pub fn placed(&mut self, choice: Result<Endpoint, SendError>, limit: usize) -> (step: OpenStep)
        requires
            old(self).wf(limit),
        ensures
            final(self).wf(limit),
            step.quiet(step.action@),
            match choice {
                Ok(endpoint) => {
                    &&& step.action@ == (ActionView::Connect {
                        endpoint: endpoint@,
                        until: old(self)@.deadline,
                    })
                    &&& final(self)@ == (OpeningView {
                        target: Some(TargetView { endpoint: endpoint@, owner: None }),
                        ..old(self)@
                    })
                },
                Err(error) => {
                    &&& step.action@ == ActionView::Finish(Err(open_error_of(error)))
                    &&& final(self)@ == old(self)@
                },
            },
    {
        match choice {
            Ok(endpoint) => {
                let copy = endpoint.duplicate();
                self.target = Some(OpenTarget { endpoint, owner: None });
                Self::quiet(OpenAction::Connect { endpoint: copy, until: self.deadline })
            },
            Err(error) => Self::quiet(OpenAction::Finish(Err(OpenError::from(error)))),
        }
    }

    fn placed_endpoint(&self) -> (endpoint: Option<String>)
        ensures
            match endpoint {
                Some(endpoint) => placed_endpoint(self@) == Some(endpoint@),
                None => placed_endpoint(self@) is None,
            },
    {
        match &self.target {
            Some(target) => match &target.owner {
                Some(_) => None,
                None => Some(target.endpoint.as_str().to_owned()),
            },
            None => None,
        }
    }

    fn give_up(&mut self)
        ensures
            final(self)@ == give_up(old(self)@),
    {
        let ghost before = self.excluded@;
        match &self.target {
            Some(target) => match &target.owner {
                Some(owner) => {
                    self.failed_owner = Some(owner.duplicate());
                },
                None => {
                    let name = target.endpoint.as_str().to_owned();
                    self.excluded.push(name);
                    proof {
                        assert forall|other: Seq<char>|
                            #![trigger self@.excluded.contains(other)]
                            self@.excluded.contains(other) <==> old(self)@.excluded.insert(
                                name@,
                            ).contains(other) by {
                            if listed(before, other) {
                                let i = choose|i: int|
                                    0 <= i < before.len() && (#[trigger] before[i])@ == other;
                                assert(self.excluded@[i]@ == other);
                            }
                            if other == name@ {
                                assert(self.excluded@[before.len() as int]@ == other);
                            }
                            if listed(self.excluded@, other) {
                                let i = choose|i: int|
                                    0 <= i < self.excluded@.len() && (
                                    #[trigger] self.excluded@[i])@ == other;
                                if i < before.len() {
                                    assert(before[i]@ == other);
                                }
                            }
                        }
                        assert(self@.excluded =~= old(self)@.excluded.insert(name@));
                    }
                },
            },
            None => {},
        }
    }

    /// Goes on with whether there is a connection. A target that cannot be
    /// reached is given up, which costs no attempt; without attempts left, the
    /// Session is unbound from its connection and the opening ends.
    pub fn connected<R>(
        &mut self,
        client: &mut ClientInner<R>,
        connection: Option<u64>,
    ) -> (step: OpenStep)
        requires
            old(client).wf(),
            old(self).wf(old(client).max_open_attempts),
        ensures
            final(client).wf(),
            final(self).wf(final(client).max_open_attempts),
            *final(client) == (ClientInner { pools: final(client).pools, ..*old(client) }),
            final(client).pools.next_id() == old(client).pools.next_id(),
            step.close is None,
            match connection {
                None => {
                    &&& step.action@ == (ActionView::Resolve { until: old(self)@.deadline })
                    &&& final(self)@ == give_up(old(self)@)
                    &&& step.failed_endpoint() == placed_endpoint(old(self)@)
                    &&& *final(client) == *old(client)
                },
                Some(id) => if old(self)@.attempts >= old(client).max_open_attempts {
                    &&& step.action@ == ActionView::Finish(Err(OpenError::AttemptsExhausted))
                    &&& final(self)@ == old(self)@
                    &&& step.failed_endpoint() == placed_endpoint(old(self)@)
                    &&& final(client).pools@ == unbound(
                        old(client).pools@,
                        id,
                        old(self)@.session_id,
                    )
                } else {
                    &&& step.action@ == (ActionView::Ask { until: old(self)@.deadline })
                    &&& final(self)@ == old(self)@
                    &&& step.placement_failed is None
                    &&& *final(client) == *old(client)
                },
            },
    {
        match connection {
            None => {
                let placement_failed = self.placed_endpoint();
                self.give_up();
                OpenStep {
                    action: OpenAction::Resolve { until: self.deadline },
                    placement_failed,
                    close: None,
                }
            },
            Some(id) => {
                if self.attempts >= client.max_open_attempts {
                    client.pools.unbind(id, &self.session_id);
                    OpenStep {
                        action: OpenAction::Finish(Err(OpenError::AttemptsExhausted)),
                        placement_failed: self.placed_endpoint(),
                        close: None,
                    }
                } else {
                    Self::quiet(OpenAction::Ask { until: self.deadline })
                }
            },
        }
    }

    /// Goes on with the answer of a Server. `sent` tells whether the request went
    /// out at all; only then it counts as an attempt. A Server that gave an error
    /// is told that the caller is done, the Session is unbound from the
    /// connection, and nobody waits for an answer any more.
    pub fn answered<R>(
        &mut self,
        client: &mut ClientInner<R>,
        connection: u64,
        sent: bool,
        result: Result<(), SendError>,
    ) -> (step: OpenStep)
        requires
            old(client).wf(),
            old(self).wf(old(client).max_open_attempts),
            old(self)@.attempts < old(client).max_open_attempts,
        ensures
            final(client).wf(),
            final(self).wf(final(client).max_open_attempts),
            *final(client) == (ClientInner {
                pools: final(client).pools,
                pending_opens: final(client).pending_opens,
                ..*old(client)
            }),
            final(client).pools.next_id() == old(client).pools.next_id(),
            (final(self)@, step.action@) == after_answer(
                old(self)@,
                sent,
                result,
                old(client).max_open_attempts as nat,
            ),
            result is Ok ==> step.placement_failed is None && step.close is None && *final(client)
                == *old(client),
            result is Err ==> {
                &&& step.failed_endpoint() == placed_endpoint(old(self)@)
                &&& step.close is Some == admitting(old(client).pools@, connection)
                &&& step.close matches Some(out) ==> is_close(
                    out,
                    connection,
                    old(self)@.address,
                    old(self)@.session_id,
                )
                &&& final(client).pools@ == unbound(
                    old(client).pools@,
                    connection,
                    old(self)@.session_id,
                )
                &&& final(client).pending_opens@ == old(client).pending_opens@.remove(
                    old(self)@.session_id,
                )
            },
    {
        if sent {
            self.attempts = self.attempts + 1;
        }
        let error = match result {
            Ok(()) => return Self::quiet(OpenAction::Finish(Ok(()))),
            Err(error) => error,
        };
        let close = client.close_message(&self.address, self.session_id, connection);
        client.pools.unbind(connection, &self.session_id);
        client.pending_opens.remove(&self.session_id);
        let placement_failed = self.placed_endpoint();
        let placed = placement_failed.is_some();
        let exhausted = self.attempts >= client.max_open_attempts;
        let action = match error {
            SendError::NotOwner => if exhausted {
                OpenAction::Finish(Err(OpenError::AttemptsExhausted))
            } else {
                OpenAction::Resolve { until: self.deadline }
            },
            SendError::RuntimeAtCapacity if placed => if exhausted {
                OpenAction::Finish(Err(OpenError::AttemptsExhausted))
            } else {
                self.give_up();
                OpenAction::Resolve { until: self.deadline }
            },
            SendError::RemoteUnavailable => if exhausted {
                OpenAction::Finish(Err(OpenError::AttemptsExhausted))
            } else {
                self.give_up();
                OpenAction::Resolve { until: self.deadline }
            },
            terminal => OpenAction::Finish(Err(OpenError::from(terminal))),
        };
        OpenStep { action, placement_failed, close }
    }

    /// Ends an opening that failed: nobody waits for it any more, and its Session
    /// is taken off the list.
    pub fn abandon<R>(&self, client: &mut ClientInner<R>)
        requires
            old(client).wf(),
        ensures
            final(client).wf(),
            *final(client) == (ClientInner {
                sessions: final(client).sessions,
                pending_opens: final(client).pending_opens,
                ..*old(client)
            }),
            final(client).sessions@ == old(client).sessions@.remove(self@.session_id),
            final(client).pending_opens@ == old(client).pending_opens@.remove(self@.session_id),
    {
        client.pending_opens.remove(&self.session_id);
        client.sessions.unregister_local(&self.session_id);
    }
}

/// What came of asking a Server to open a Session: whether the request went out,
/// and the result. Without an answer in time the Server counts as unavailable.
pub fn ask_outcome(
    request: Result<(), SendError>,
    answer: Option<Result<(), SendError>>,
) -> (outcome: (bool, Result<(), SendError>))
    ensures
        outcome.0 == request is Ok,
        outcome.1 == match request {
            Err(error) => Err(error),
            Ok(()) => match answer {
                Some(result) => result,
                None => Err(SendError::RemoteUnavailable),
            },
        },
{
    match request {
        Err(error) => (false, Err(error)),
        Ok(()) => match answer {
            Some(result) => (true, result),
            None => (true, Err(SendError::RemoteUnavailable)),
        },
    }
}

/// An opening asks no more Servers than the limit allows, and a request that did
/// not go out does not count.
pub proof fn law_attempts_are_limited(
    state: OpeningView,
    sent: bool,
    result: Result<(), SendError>,
    limit: nat,
)
    requires
        state.attempts < limit,
    ensures
        ({
            let (next, action) = after_answer(state, sent, result, limit);
            &&& next.attempts <= limit
            &&& !sent ==> next.attempts == state.attempts
            &&& action is Resolve ==> next.attempts < limit
        }),
{
}

/// An opening has one deadline for all that it does: a step neither moves it nor
/// waits for an operation any longer or shorter.
pub proof fn law_an_opening_has_one_deadline(
    state: OpeningView,
    resolution: Result<ResolutionView, SendError>,
    sent: bool,
    answer: Result<(), SendError>,
    limit: nat,
)
    ensures
        ({
            let (next, action) = after_resolution(state, resolution);
            &&& next.deadline == state.deadline
            &&& action is Finish || action.until() == Some(state.deadline)
        }),
        ({
            let (next, action) = after_answer(state, sent, answer, limit);
            &&& next.deadline == state.deadline
            &&& action is Finish || action.until() == Some(state.deadline)
        }),
        give_up(state).deadline == state.deadline,
{
}

/// A target that was given up is not turned to again: a placement is excluded for
/// the rest of the opening, and an Owner that failed ends it.
pub proof fn law_given_up_targets_are_not_retried(
    state: OpeningView,
    endpoint: Seq<char>,
    owner: OwnerView,
)
    requires
        state.target is Some,
    ensures
        placed_endpoint(state) matches Some(given_up) ==> give_up(state).excluded.contains(
            given_up,
        ),
        state.target->0.owner == Some(owner) ==> after_resolution(
            give_up(state),
            Ok(ResolutionView::Live { endpoint, owner }),
        ).1 == ActionView::Finish(Err(OpenError::RemoteUnavailable)),
        state.excluded.subset_of(give_up(state).excluded),
{
}

/// With attempts left, a Server that is unavailable does not end an opening: it
/// goes on to find out who owns the Actor, and never comes back to the Server. A
/// placement is excluded from now on; an Owner is remembered as failed. The rest of
/// the opening stays as it is, but for the attempt.
pub proof fn law_an_unavailable_server_is_moved_on_from(
    state: OpeningView,
    sent: bool,
    limit: nat,
    target: TargetView,
)
    requires
        state.target == Some(target),
        sent ==> state.attempts + 1 < limit,
        !sent ==> state.attempts < limit,
    ensures
        ({
            let (next, action) = after_answer(
                state,
                sent,
                Err(SendError::RemoteUnavailable),
                limit,
            );
            &&& action == (ActionView::Resolve { until: state.deadline })
            &&& target.owner is None ==> next.excluded == state.excluded.insert(target.endpoint)
                && next.failed_owner == state.failed_owner
            &&& target.owner is Some ==> next.failed_owner == target.owner && next.excluded
                == state.excluded
            &&& next.attempts == if sent {
                state.attempts + 1
            } else {
                state.attempts
            }
            &&& next.address == state.address && next.session_id == state.session_id
            &&& next.deadline == state.deadline && next.target == state.target
        }),
{
}

/// With attempts left, a Server without room does not end an opening if it was
/// chosen for the Actor: it is excluded, and the opening goes on. An Owner without
/// room ends it.
pub proof fn law_a_full_server_is_moved_on_from(
    state: OpeningView,
    limit: nat,
    target: TargetView,
)
    requires
        state.target == Some(target),
        state.attempts + 1 < limit,
    ensures
        ({
            let (next, action) = after_answer(
                state,
                true,
                Err(SendError::RuntimeAtCapacity),
                limit,
            );
            &&& target.owner is None ==> action == (ActionView::Resolve { until: state.deadline })
                && next.excluded == state.excluded.insert(target.endpoint)
            &&& target.owner is Some ==> action == ActionView::Finish(
                Err(OpenError::RuntimeAtCapacity),
            ) && next.excluded == state.excluded
            &&& next.failed_owner == state.failed_owner
            &&& next.attempts == state.attempts + 1
        }),
{
}

/// With attempts left, a Server that does not own the Actor sends the opening back
/// to find out who does. It may turn out to be the same Server: nothing is excluded
/// and nobody is remembered as failed.
pub proof fn law_not_the_owner_is_asked_again(state: OpeningView, sent: bool, limit: nat)
    requires
        state.attempts + 1 < limit,
    ensures
        ({
            let (next, action) = after_answer(state, sent, Err(SendError::NotOwner), limit);
            &&& action == (ActionView::Resolve { until: state.deadline })
            &&& next.excluded == state.excluded && next.failed_owner == state.failed_owner
            &&& next.target == state.target
        }),
{
}

/// An opening ends with an answer exactly if the Session was opened, the attempts
/// are used up, or the error is one that no other Server would spare it. It is a
/// success exactly if the Session was opened.
pub proof fn law_openings_end_for_a_reason(
    state: OpeningView,
    sent: bool,
    result: Result<(), SendError>,
    limit: nat,
)
    requires
        state.target is Some,
    ensures
        ({
            let (next, action) = after_answer(state, sent, result, limit);
            let made = if sent {
                state.attempts + 1
            } else {
                state.attempts
            };
            let worth_another_try = result matches Err(error) && (error == SendError::NotOwner
                || error == SendError::RemoteUnavailable || (error == SendError::RuntimeAtCapacity
                && state.target->0.owner is None));
            &&& next.attempts == made
            &&& action is Resolve <==> worth_another_try && made < limit
            &&& action is Finish <==> !(worth_another_try && made < limit)
            &&& action == ActionView::Finish(Ok(())) <==> result is Ok
            &&& worth_another_try && made >= limit <==> action == ActionView::Finish(
                Err(OpenError::AttemptsExhausted),
            )
            &&& action is Finish ==> next.excluded == state.excluded && next.failed_owner
                == state.failed_owner
            &&& result matches Err(SendError::ActorTypeNotRegistered(_)) ==> action
                == ActionView::Finish(Err(OpenError::ActorTypeNotRegistered))
            &&& result matches Err(SendError::RemoteProtocol(_)) ==> action == ActionView::Finish(
                Err(OpenError::RemoteProtocol),
            )
            &&& result == Err::<(), SendError>(SendError::OwnershipUnavailable) ==> action
                == ActionView::Finish(Err(OpenError::OwnershipUnavailable))
            &&& result == Err::<(), SendError>(SendError::MailboxFull) ==> action
                == ActionView::Finish(Err(OpenError::RemoteUnavailable))
        }),
{
}

/// A resolution decides where an opening turns: to the live Owner, at its endpoint,
/// unless that very life has failed before; to a placement if nobody owns the
/// Actor. Attempts, exclusions and failures are left alone.
pub proof fn law_a_resolution_names_the_target(
    state: OpeningView,
    endpoint: Seq<char>,
    owner: OwnerView,
    error: SendError,
)
    ensures
        ({
            let (next, action) = after_resolution(
                state,
                Ok(ResolutionView::Live { endpoint, owner }),
            );
            &&& state.failed_owner != Some(owner) ==> {
                &&& action == (ActionView::Connect { endpoint, until: state.deadline })
                &&& next.target == Some(TargetView { endpoint, owner: Some(owner) })
            }
            &&& state.failed_owner == Some(owner) ==> action == ActionView::Finish(
                Err(OpenError::RemoteUnavailable),
            ) && next.target == state.target
            &&& next.attempts == state.attempts && next.excluded == state.excluded
            &&& next.failed_owner == state.failed_owner && next.session_id == state.session_id
            &&& next.address == state.address && next.deadline == state.deadline
        }),
        ({
            let (next, action) = after_resolution(state, Ok(ResolutionView::Unowned));
            action == (ActionView::Place { until: state.deadline }) && next == state
        }),
        ({
            let (next, action) = after_resolution(state, Err(error));
            &&& action is Finish && action != ActionView::Finish(Ok(())) && next == state
            &&& error == SendError::DirectoryUnavailable ==> action == ActionView::Finish(
                Err(OpenError::DirectoryUnavailable),
            )
            &&& error == SendError::OwnershipUnavailable ==> action == ActionView::Finish(
                Err(OpenError::OwnershipUnavailable),
            )
            &&& error == SendError::RemoteUnavailable ==> action == ActionView::Finish(
                Err(OpenError::RemoteUnavailable),
            )
        }),
{
}

/// To give a target up changes exactly one thing: a placement is added to what is
/// excluded, an Owner replaces the one that is remembered as failed.
pub proof fn law_giving_up_is_remembered(state: OpeningView, target: TargetView)
    requires
        state.target == Some(target),
    ensures
        target.owner is None ==> give_up(state) == (OpeningView {
            excluded: state.excluded.insert(target.endpoint),
            ..state
        }) && placed_endpoint(state) == Some(target.endpoint),
        target.owner is Some ==> give_up(state) == (OpeningView {
            failed_owner: target.owner,
            ..state
        }) && placed_endpoint(state) is None,
{
}

/// An Owner is live exactly if the directory holds a record of the same life that
/// speaks our version and names an endpoint, and it is reached at that endpoint. A
/// record of another life, or none, means that nobody owns the Actor.
pub proof fn law_an_owner_is_live_by_its_record(
    owner: OwnerView,
    node: NodeRecord,
    failure: StoreReply<Option<NodeRecord>>,
)
    requires
        !(failure is Ready),
    ensures
        ({
            let found = owner_of_node(owner, StoreReply::Ready(Some(node)));
            let same_life = node.session_id@ == owner.session_id;
            let reachable = node.protocol_version == TRANSPORT_PROTOCOL_VERSION && exists|i: int|
                0 <= i < node.advertised_endpoint@.len() && !crate::text::white_space(
                    #[trigger] node.advertised_endpoint@[i],
                );
            &&& same_life && reachable ==> found == Ok::<ResolutionView, SendError>(
                ResolutionView::Live { endpoint: node.advertised_endpoint@, owner },
            )
            &&& same_life && !reachable ==> found == Err::<ResolutionView, SendError>(
                SendError::RemoteUnavailable,
            )
            &&& !same_life ==> found == Ok::<ResolutionView, SendError>(ResolutionView::Unowned)
        }),
        owner_of_node(owner, StoreReply::Ready(None)) == Ok::<ResolutionView, SendError>(
            ResolutionView::Unowned,
        ),
        owner_of_node(owner, failure) == Err::<ResolutionView, SendError>(
            SendError::DirectoryUnavailable,
        ),
{
}

/// A step reports a failed placement exactly by the endpoint that was placed.
pub proof fn law_failed_placements_are_reported(step: OpenStep)
    ensures
        step.failed_endpoint() is Some <==> step.placement_failed is Some,
        step.placement_failed matches Some(endpoint) ==> step.failed_endpoint() == Some(endpoint@),
{
}

/// A quiet step tells nobody anything.
pub proof fn law_quiet_steps_tell_nobody(step: OpenStep, action: ActionView)
    requires
        step.quiet(action),
    ensures
        step.action@ == action,
        step.placement_failed is None,
        step.close is None,
{
}

} // verus!
