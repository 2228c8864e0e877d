//! The state of a Client, and what it does with the messages of its connections.

use std::time::Duration;

use vstd::prelude::*;
use vstd::string::*;

use crate::actor::{ActorAddress, AddressView};
use crate::client::connection::{
    bound_on, first, has, unbound, ConnectionPools, ConnectionView,
};
use crate::client::placing::{
    candidate_views, candidates_among, hard_filter, node_views, PLACEMENT_CACHE_TTL,
};
use crate::client::session::{
    all_ended, envelope_action, envelope_session_close, envelope_session_open, is_request,
    CallerRegistry, CallersView, Ended, SessionItem,
};
use crate::cluster::authority::NodeRecord;
use crate::cluster::placement::PlacementCandidate;
use crate::error::{failure_of, reads_as, same_error, RemoteProtocolError, SendError};
use crate::keyed::KeyedMap;
use crate::mailbox::Offer;
use crate::runtime::session::{session_id_of, Outgoing, SessionId};
use crate::transport_protocol::{
    failure_from_code, AckOutcome, CloseReason, Envelope, Kind,
};

verus! {

/// A request to open a Session that waits for the answer of the Server. `R` is
/// the host's handle on the one who waits.
pub struct PendingAck<R> {
    pub connection_id: u64,
    pub complete: R,
}

/// The state of a Client.
pub struct ClientInner<R> {
    pub open_timeout: Duration,
    pub max_open_attempts: usize,
    pub max_connections_per_endpoint: usize,
    pub sessions: CallerRegistry,
    pub pools: ConnectionPools,
    pub pending_opens: KeyedMap<SessionId, PendingAck<R>>,
    pub placement_cache: Option<(Vec<PlacementCandidate>, u64)>,
    pub running: bool,
}

/// What an inbound message came to.
pub enum Received<R> {
    /// Nothing.
    Ignored,
    /// An item was handed to the caller of a Session.
    Delivered(Offer<SessionItem>),
    /// A Session was opened or refused: tell the one who waits.
    Answered { complete: R, result: Result<(), SendError> },
}

/// What the loss of a connection came to: those who wait for a Session to open
/// are told that the remote is unavailable, and so were the callers of Sessions.
pub struct Lost<R> {
    pub replies: Vec<R>,
    pub notices: Vec<Ended>,
}

/// The result that an answer to a request to open a Session stands for.
pub open spec fn ack_result(outcome: Option<AckOutcome>, result: Result<(), SendError>) -> bool {
    match outcome {
        Some(AckOutcome::Opened(_)) => result is Ok,
        Some(AckOutcome::Failure(failure)) => result matches Err(error) && reads_as(
            failure_from_code(failure),
            error,
        ),
        None => result == Err::<(), SendError>(
            SendError::RemoteProtocol(RemoteProtocolError::MalformedMessage),
        ),
    }
}

/// Reads the answer to a request to open a Session.
pub fn read_ack(outcome: Option<AckOutcome>) -> (result: Result<(), SendError>)
    ensures
        ack_result(outcome, result),
{
    match outcome {
        Some(AckOutcome::Opened(_)) => Ok(()),
        Some(AckOutcome::Failure(failure)) => Err(SendError::from_wire(failure)),
        None => Err(SendError::RemoteProtocol(RemoteProtocolError::MalformedMessage)),
    }
}

impl<R> ClientInner<R> {
    /// The tables are sound, and the limits are positive.
    pub open spec fn wf(&self) -> bool {
        &&& self.sessions.wf()
        &&& self.pools.wf()
        &&& self.pending_opens.wf()
        &&& self.max_open_attempts > 0
        &&& self.max_connections_per_endpoint > 0
    }

    /// A request to open the Session waits for an answer on the connection.
    pub open spec fn awaits(&self, session_id: Seq<u8>, connection_id: u64) -> bool {
        self.pending_opens@.dom().contains(session_id)
            && self.pending_opens@[session_id].connection_id == connection_id
    }

    /// Nothing but the pending requests changed.
    pub open spec fn same_but_pending(&self, before: &Self) -> bool {
        *self == (ClientInner { pending_opens: self.pending_opens, ..*before })
    }

    fn take_pending(&mut self, session_id: &SessionId, connection_id: u64) -> (pending: Option<R>)
        requires
            old(self).wf(),
        ensures
            final(self).wf(),
            final(self).same_but_pending(old(self)),
            pending is Some == old(self).awaits(session_id@, connection_id),
            pending matches Some(complete) ==> complete
                == old(self).pending_opens@[session_id@].complete && final(self).pending_opens@
                == old(self).pending_opens@.remove(session_id@),
            pending is None ==> *final(self) == *old(self),
    {
        let matches = match self.pending_opens.get(session_id) {
            Some(pending) => pending.connection_id == connection_id,
            None => false,
        };
        if !matches {
            return None;
        }
        match self.pending_opens.remove(session_id) {
            Some(pending) => Some(pending.complete),
            None => None,
        }
    }

    /// Handles one message of a Server. Events and errors reach a Session only
    /// over the connection it is bound to; an answer to a request to open a
    /// Session counts only on the connection the request went over.
    pub fn handle_envelope(&mut self, envelope: Envelope, connection_id: u64) -> (received:
        Received<R>)
        requires
            old(self).wf(),
        ensures
            final(self).wf(),
            *final(self) == (ClientInner {
                pending_opens: final(self).pending_opens,
                sessions: final(self).sessions,
                ..*old(self)
            }),
            envelope_handled(*old(self), *final(self), envelope, connection_id, received),
    {
        let kind = match envelope.kind {
            Some(kind) => kind,
            None => return Received::Ignored,
        };
        let session_id = match SessionId::from_bytes(envelope.session_id.as_slice()) {
            Some(session_id) => session_id,
            None => return Received::Ignored,
        };
        match kind {
            Kind::Event { payload } => {
                if !self.pools.is_bound(connection_id, &session_id) {
                    return Received::Ignored;
                }
                match self.sessions.deliver(&session_id, Ok(payload)) {
                    Some(offer) => Received::Delivered(offer),
                    None => Received::Ignored,
                }
            },
            Kind::SessionError { failure } => {
                if !self.pools.is_bound(connection_id, &session_id) {
                    return Received::Ignored;
                }
                let error = SendError::from_wire(failure);
                match self.sessions.deliver(&session_id, Err(error)) {
                    Some(offer) => {
                        assert(handed_on(
                            old(self).sessions@,
                            self.sessions@,
                            session_id@,
                            Err(error),
                            offer,
                        ));
                        Received::Delivered(offer)
                    },
                    None => Received::Ignored,
                }
            },
            Kind::SessionOpenedAck { outcome } => {
                let result = read_ack(outcome);
                match self.take_pending(&session_id, connection_id) {
                    Some(complete) => Received::Answered { complete, result },
                    None => Received::Ignored,
                }
            },
            _ => Received::Ignored,
        }
    }

    /// A connection is gone: it leaves the pool. Of the Sessions that were bound
    /// to it, those that still waited to open are refused, and the others end.
    pub fn connection_lost(&mut self, connection_id: u64) -> (lost: Lost<R>)
        requires
            old(self).wf(),
        ensures
            final(self).wf(),
            *final(self) == (ClientInner {
                pools: final(self).pools,
                pending_opens: final(self).pending_opens,
                sessions: final(self).sessions,
                ..*old(self)
            }),
            final(self).pools.next_id() == old(self).pools.next_id(),
            final(self).pools@ == if has(old(self).pools@, connection_id) {
                old(self).pools@.remove(first(old(self).pools@, connection_id))
            } else {
                old(self).pools@
            },
            forall|s: Seq<u8>| #[trigger]
                final(self).pending_opens@.dom().contains(s) <==> old(
                    self,
                ).pending_opens@.dom().contains(s) && !(bound_on(
                    old(self).pools@,
                    connection_id,
                    s,
                ) && old(self).awaits(s, connection_id)),
            forall|s: Seq<u8>| #[trigger]
                final(self).sessions@.dom().contains(s) <==> old(self).sessions@.dom().contains(s)
                    && !(bound_on(old(self).pools@, connection_id, s) && !old(self).awaits(
                    s,
                    connection_id,
                )),
            forall|s: Seq<u8>| #[trigger]
                final(self).pending_opens@.dom().contains(s) ==> final(self).pending_opens@[s]
                    == old(self).pending_opens@[s],
            forall|s: Seq<u8>| #[trigger]
                final(self).sessions@.dom().contains(s) ==> final(self).sessions@[s] == old(
                    self,
                ).sessions@[s],
            final(self).pending_opens@.dom().len() + lost.replies@.len() == old(
                self,
            ).pending_opens@.dom().len(),
            forall|i: int|
                0 <= i < lost.replies@.len() ==> answers_pending(
                    *old(self),
                    connection_id,
                    #[trigger] lost.replies@[i],
                ),
            final(self).sessions@.dom().len() + lost.notices@.len() == old(
                self,
            ).sessions@.dom().len(),
            forall|i: int|
                0 <= i < lost.notices@.len() ==> ends_session(
                    *old(self),
                    connection_id,
                    #[trigger] lost.notices@[i],
                ),
    {
        let ids = self.pools.remove(connection_id);
        let ghost views = ids@.map_values(|s: SessionId| s@);
        let ghost before = *old(self);
        assert forall|s: Seq<u8>| bound_on(before.pools@, connection_id, s) == #[trigger] views.contains(s) by {
            assert(views.to_set().contains(s) == views.contains(s));
        }
        let mut replies: Vec<R> = Vec::new();
        let mut notices: Vec<Ended> = Vec::new();
        let mut i: usize = 0;
        while i < ids.len()
            invariant
                self.wf(),
                i <= ids@.len(),
                views == ids@.map_values(|s: SessionId| s@),
                views.no_duplicates(),
                *self == (ClientInner {
                    pools: self.pools,
                    pending_opens: self.pending_opens,
                    sessions: self.sessions,
                    ..before
                }),
                self.pools.next_id() == before.pools.next_id(),
                self.pools@ == if has(before.pools@, connection_id) {
                    before.pools@.remove(first(before.pools@, connection_id))
                } else {
                    before.pools@
                },
                forall|s: Seq<u8>| #[trigger]
                    self.pending_opens@.dom().contains(s) <==> before.pending_opens@.dom().contains(
                        s,
                    ) && !(views.take(i as int).contains(s) && before.awaits(s, connection_id)),
                forall|s: Seq<u8>| #[trigger]
                    self.pending_opens@.dom().contains(s) ==> self.pending_opens@[s]
                        == before.pending_opens@[s],
                forall|s: Seq<u8>| #[trigger]
                    self.sessions@.dom().contains(s) <==> before.sessions@.dom().contains(s) && !(
                    views.take(i as int).contains(s) && !before.awaits(s, connection_id)),
                forall|s: Seq<u8>| #[trigger]
                    self.sessions@.dom().contains(s) ==> self.sessions@[s] == before.sessions@[s],
                self.pending_opens@.dom().len() + replies@.len()
                    == before.pending_opens@.dom().len(),
                forall|s: Seq<u8>|
                    bound_on(before.pools@, connection_id, s) == #[trigger] views.contains(s),
                forall|k: int|
                    0 <= k < replies@.len() ==> answers_pending(
                        before,
                        connection_id,
                        #[trigger] replies@[k],
                    ),
                self.sessions@.dom().len() + notices@.len() == before.sessions@.dom().len(),
                forall|k: int|
                    0 <= k < notices@.len() ==> ends_session(
                        before,
                        connection_id,
                        #[trigger] notices@[k],
                    ),
            decreases ids@.len() - i,
        {
            let ghost id = views[i as int];
            assert(ids@[i as int]@ == id);
            let ghost done = views.take(i as int);
            assert forall|s: Seq<u8>| #[trigger] views.take(i + 1).contains(s) <==> done.contains(s)
                || s == id by {
                if views.take(i + 1).contains(s) {
                    let next = views.take(i + 1);
                    let j = choose|j: int| 0 <= j < next.len() && next[j] == s;
                    if j < i {
                        assert(done[j] == s);
                    }
                }
                if done.contains(s) {
                    let j = choose|j: int| 0 <= j < done.len() && done[j] == s;
                    assert(views.take(i + 1)[j] == s);
                }
                if s == id {
                    assert(views.take(i + 1)[i as int] == s);
                }
            }
            assert(!done.contains(id)) by {
                if done.contains(id) {
                    let j = choose|j: int| 0 <= j < done.len() && done[j] == id;
                    assert(views[j] == views[i as int]);
                }
            }
            assert(self.awaits(id, connection_id) == before.awaits(id, connection_id)) by {
                assert(self.pending_opens@.dom().contains(id)
                    == before.pending_opens@.dom().contains(id));
            }
            let ghost sessions = self.sessions@;
            proof {
                self.pending_opens.lemma_order();
                self.sessions.lemma_finite();
            }
            match self.take_pending(&ids[i], connection_id) {
                Some(complete) => {
                    replies.push(complete);
                    assert(views.contains(id));
                    assert(answers_pending(before, connection_id, complete));
                },
                None => {
                    match self.sessions.terminate(&ids[i], SendError::RemoteUnavailable) {
                        Some(ended) => {
                            assert(views.contains(id));
                            assert(bound_on(before.pools@, connection_id, id));
                            assert(crate::error::same_error(
                                SendError::RemoteUnavailable,
                                SendError::RemoteUnavailable,
                            ));
                            assert(ends_session(before, connection_id, ended));
                            notices.push(ended);
                        },
                        None => {},
                    }
                },
            }
            assert forall|s: Seq<u8>| #[trigger] self.sessions@.dom().contains(s) <==> (
            before.sessions@.dom().contains(s) && !(views.take(i + 1).contains(s)
                && !before.awaits(s, connection_id))) by {
                assert(sessions.dom().contains(s) == (before.sessions@.dom().contains(s) && !(
                done.contains(s) && !before.awaits(s, connection_id))));
                assert(views.take(i + 1).contains(s) == (done.contains(s) || s == id));
            }
            i += 1;
        }
        assert(views.take(i as int) =~= views);
        Lost { replies, notices }
    }

    /// Lists a request to open a Session as waiting, and gives the message that
    /// makes it. A connection that is closed takes no message.
    pub fn begin_session_open(
        &mut self,
        address: &ActorAddress,
        session_id: SessionId,
        connection_id: u64,
        complete: R,
    ) -> (request: Result<Outgoing, SendError>)
        requires
            old(self).wf(),
        ensures
            final(self).wf(),
            final(self).same_but_pending(old(self)),
            final(self).pending_opens@ == old(self).pending_opens@.insert(
                session_id@,
                PendingAck { connection_id, complete },
            ),
            request is Ok == admitting(old(self).pools@, connection_id),
            request matches Ok(out) ==> out.connection == connection_id && is_request(
                out.envelope,
                address@,
                session_id@,
                Kind::SessionOpen,
            ),
            request matches Err(error) ==> error == SendError::RemoteUnavailable,
    {
        self.pending_opens.insert(session_id, PendingAck { connection_id, complete });
        match self.pools.admits(connection_id) {
            Ok(()) => Ok(
                Outgoing {
                    connection: connection_id,
                    envelope: envelope_session_open(address, session_id),
                },
            ),
            Err(error) => Err(error),
        }
    }

    /// The Action that a caller sends on a Session. A Client that was shut down
    /// sends nothing, and neither does a closed connection.
    pub fn session_send(
        &self,
        address: &ActorAddress,
        session_id: SessionId,
        connection_id: u64,
        payload: Vec<u8>,
    ) -> (action: Result<Outgoing, SendError>)
        requires
            self.wf(),
        ensures
            action is Ok == (self.running && admitting(self.pools@, connection_id)),
            action matches Ok(out) ==> out.connection == connection_id && is_request(
                out.envelope,
                address@,
                session_id@,
                Kind::Action { payload },
            ),
            action matches Err(error) ==> error == if self.running {
                SendError::RemoteUnavailable
            } else {
                SendError::RuntimeStopped
            },
    {
        if !self.running {
            return Err(SendError::RuntimeStopped);
        }
        match self.pools.admits(connection_id) {
            Ok(()) => Ok(
                Outgoing {
                    connection: connection_id,
                    envelope: envelope_action(address, session_id, payload),
                },
            ),
            Err(error) => Err(error),
        }
    }

    /// A caller is done with a Session: it is taken off the list and unbound, and
    /// the Owner is told if the connection still takes messages.
    pub fn session_dropped(
        &mut self,
        address: &ActorAddress,
        session_id: SessionId,
        connection_id: u64,
    ) -> (close: Option<Outgoing>)
        requires
            old(self).wf(),
        ensures
            final(self).wf(),
            *final(self) == (ClientInner {
                sessions: final(self).sessions,
                pools: final(self).pools,
                ..*old(self)
            }),
            final(self).sessions@ == old(self).sessions@.remove(session_id@),
            final(self).pools.next_id() == old(self).pools.next_id(),
            final(self).pools@ == unbound(old(self).pools@, connection_id, session_id@),
            close is Some == admitting(final(self).pools@, connection_id),
            close matches Some(out) ==> is_close(out, connection_id, address@, session_id@),
    {
        self.sessions.unregister_local(&session_id);
        self.pools.unbind(connection_id, &session_id);
        self.close_message(address, session_id, connection_id)
    }

    /// The notice that the caller is done with a Session, if the connection takes
    /// messages.
    pub fn close_message(
        &self,
        address: &ActorAddress,
        session_id: SessionId,
        connection_id: u64,
    ) -> (close: Option<Outgoing>)
        requires
            self.wf(),
        ensures
            close is Some == admitting(self.pools@, connection_id),
            close matches Some(out) ==> is_close(out, connection_id, address@, session_id@),
    {
        match self.pools.admits(connection_id) {
            Ok(()) => Some(
                Outgoing {
                    connection: connection_id,
                    envelope: envelope_session_close(address, session_id),
                },
            ),
            Err(_) => None,
        }
    }

    /// Stops the Client: all connections are closed, nobody waits any more, and
    /// every Session ends. The answer lists the connections to close; a Client
    /// that was stopped before has nothing left to do.
    pub fn shutdown(&mut self) -> (stopped: Option<(Vec<u64>, Vec<Ended>)>)
        requires
            old(self).wf(),
        ensures
            final(self).wf(),
            !final(self).running,
            final(self).pools.next_id() == old(self).pools.next_id(),
            stopped is Some == old(self).running,
            stopped is None ==> *final(self) == *old(self),
            *final(self) == (ClientInner {
                pools: final(self).pools,
                pending_opens: final(self).pending_opens,
                sessions: final(self).sessions,
                running: false,
                ..*old(self)
            }),
            stopped matches Some((close, notices)) ==> {
                &&& final(self).pools@ == Seq::<ConnectionView>::empty()
                &&& final(self).pending_opens@ == Map::<Seq<u8>, PendingAck<R>>::empty()
                &&& final(self).sessions@.dom() == Set::<Seq<u8>>::empty()
                &&& close@ == old(self).pools@.filter(
                    |c: ConnectionView| !c.closed,
                ).map_values(|c: ConnectionView| c.id)
                &&& all_ended(old(self).sessions@, notices@, SendError::RuntimeStopped)
            },
    {
        if !self.running {
            return None;
        }
        self.running = false;
        let close = self.pools.clear();
        self.pending_opens.clear();
        let notices = self.sessions.terminate_all(&SendError::RuntimeStopped);
        proof {
            assert(self.sessions@.dom() =~= Set::<Seq<u8>>::empty());
        }
        Some((close, notices))
    }

    /// The candidates of an earlier look at the directory, if it is recent
    /// enough.
    pub fn cached_candidates(&self, now: u64) -> (cached: Option<&Vec<PlacementCandidate>>)
        ensures
            cached is Some == (self.placement_cache matches Some((_, fetched)) && now - fetched
                < 3_000_000_000),
            cached matches Some(candidates) ==> self.placement_cache matches Some((held, _))
                && *candidates == held,
    {
        match &self.placement_cache {
            Some((candidates, fetched)) => if now.saturating_sub(*fetched) < PLACEMENT_CACHE_TTL {
                Some(candidates)
            } else {
                None
            },
            None => None,
        }
    }

    /// Keeps the candidates among the Servers of the directory for later.
    pub fn cache_candidates(&mut self, nodes: &Vec<NodeRecord>, now: u64)
        ensures
            *final(self) == (ClientInner {
                placement_cache: final(self).placement_cache,
                ..*old(self)
            }),
            final(self).placement_cache matches Some((candidates, fetched)) && fetched == now
                && candidate_views(candidates@) == candidates_among(node_views(nodes@)),
    {
        self.placement_cache = Some((hard_filter(nodes), now));
    }
}

/// The handle belongs to a request that waited on the connection.
pub open spec fn answers_pending<R>(client: ClientInner<R>, connection_id: u64, complete: R) -> bool {
    exists|s: Seq<u8>| #[trigger]
        client.awaits(s, connection_id) && bound_on(client.pools@, connection_id, s)
            && client.pending_opens@[s].complete == complete
}

/// The end of a Session that was bound to the connection and did not wait to open:
/// its caller was told that the remote is unavailable.
pub open spec fn ends_session<R>(client: ClientInner<R>, connection_id: u64, ended: Ended) -> bool {
    exists|s: Seq<u8>| #[trigger]
        bound_on(client.pools@, connection_id, s) && !client.awaits(s, connection_id)
            && client.sessions@.dom().contains(s) && ended.told(
            client.sessions@[s],
            SendError::RemoteUnavailable,
        )
}

/// An item was offered to the caller of a Session, whose channel answered.
pub open spec fn handed_on(
    before: CallersView,
    after: CallersView,
    session_id: Seq<u8>,
    item: SessionItem,
    answer: Offer<SessionItem>,
) -> bool {
    &&& answer.gives_back(item)
    &&& after == before.insert(session_id, before[session_id].offered(item, answer))
}

/// A message may be put on the connection.
pub open spec fn admitting(connections: Seq<ConnectionView>, id: u64) -> bool {
    has(connections, id) && !connections[first(connections, id)].closed
}

/// The notice that a caller is done with a Session.
pub open spec fn is_close(
    out: Outgoing,
    connection_id: u64,
    address: AddressView,
    session_id: Seq<u8>,
) -> bool {
    &&& out.connection == connection_id
    &&& is_request(
        out.envelope,
        address,
        session_id,
        Kind::SessionClose { reason: CloseReason::CallerDropped.code() },
    )
}

/// `received` and the state after it are what a message of a Server comes to.
pub open spec fn envelope_handled<R>(
    before: ClientInner<R>,
    after: ClientInner<R>,
    envelope: Envelope,
    connection_id: u64,
    received: Received<R>,
) -> bool {
    match (envelope.kind, session_id_of(envelope.session_id@)) {
        (Some(kind), Some(session_id)) => {
            let reaches = bound_on(before.pools@, connection_id, session_id)
                && before.sessions@.dom().contains(session_id);
            match kind {
                Kind::Event { payload } => if reaches {
                    &&& received matches Received::Delivered(answer)
                    &&& handed_on(before.sessions@, after.sessions@, session_id, Ok(payload), answer)
                    &&& after.pending_opens == before.pending_opens
                } else {
                    received is Ignored && after == before
                },
                Kind::SessionError { failure } => if reaches {
                    &&& received matches Received::Delivered(answer)
                    &&& exists|error: SendError|
                        reads_as(failure_from_code(failure), error) && #[trigger] handed_on(
                            before.sessions@,
                            after.sessions@,
                            session_id,
                            Err(error),
                            answer,
                        )
                    &&& after.pending_opens == before.pending_opens
                } else {
                    received is Ignored && after == before
                },
                Kind::SessionOpenedAck { outcome } => if before.awaits(session_id, connection_id) {
                    &&& received matches Received::Answered { complete, result }
                    &&& complete == before.pending_opens@[session_id].complete
                    &&& ack_result(outcome, result)
                    &&& after.pending_opens@ == before.pending_opens@.remove(session_id)
                    &&& after.sessions == before.sessions
                } else {
                    received is Ignored && after == before
                },
                _ => received is Ignored && after == before,
            }
        },
        _ => received is Ignored && after == before,
    }
}

/// What arrives over one connection never reaches a Session that is bound to
/// another, nor the answer to a request that went over another.
pub proof fn law_connections_do_not_mix<R>(
    before: ClientInner<R>,
    after: ClientInner<R>,
    envelope: Envelope,
    connection_id: u64,
    received: Received<R>,
)
    requires
        envelope_handled(before, after, envelope, connection_id, received),
        !(received is Ignored),
    ensures
        received is Delivered ==> bound_on(before.pools@, connection_id, envelope.session_id@),
        received is Answered ==> before.awaits(envelope.session_id@, connection_id),
{
}

/// What the Owner sends over the connection of a live Session reaches its caller:
/// an Event as it was sent, an error as what it means.
pub proof fn law_the_caller_reads_what_the_owner_sent<R>(
    before: ClientInner<R>,
    after: ClientInner<R>,
    envelope: Envelope,
    connection_id: u64,
    received: Received<R>,
    kind: Kind,
)
    requires
        envelope_handled(before, after, envelope, connection_id, received),
        envelope.kind == Some(kind),
        envelope.session_id@.len() == 16,
        bound_on(before.pools@, connection_id, envelope.session_id@),
        before.sessions@.dom().contains(envelope.session_id@),
    ensures
        kind matches Kind::Event { payload } ==> (received matches Received::Delivered(answer)
            && handed_on(
            before.sessions@,
            after.sessions@,
            envelope.session_id@,
            Ok(payload),
            answer,
        )),
        forall|error: SendError|
            kind == (Kind::SessionError { failure: #[trigger] failure_of(error).code() }) ==> (
            received matches Received::Delivered(answer) && exists|read: SendError|
                reads_as(failure_of(error), read) && #[trigger] handed_on(
                    before.sessions@,
                    after.sessions@,
                    envelope.session_id@,
                    Err(read),
                    answer,
                )),
{
    assert forall|error: SendError|
        kind == (Kind::SessionError { failure: #[trigger] failure_of(error).code() }) implies (
    received matches Received::Delivered(offer) && exists|read: SendError|
        reads_as(failure_of(error), read) && #[trigger] offer.gives_back(Err(read))) by {
        crate::transport_protocol::law_failure_code_round_trip(failure_of(error));
    }
}

/// The answer to a request to open a Session reaches the one who waits, once: with success
/// exactly if the Server opened the Session. Nobody waits for it afterwards, and every other
/// request still waits.
pub proof fn law_answers_reach_the_one_who_waits<R>(
    before: ClientInner<R>,
    after: ClientInner<R>,
    envelope: Envelope,
    connection_id: u64,
    received: Received<R>,
    outcome: Option<AckOutcome>,
    other: Seq<u8>,
)
    requires
        envelope_handled(before, after, envelope, connection_id, received),
        envelope.kind == Some(Kind::SessionOpenedAck { outcome }),
        envelope.session_id@.len() == 16,
        before.pending_opens@.dom().contains(envelope.session_id@),
        before.pending_opens@[envelope.session_id@].connection_id == connection_id,
    ensures
        received matches Received::Answered { complete, result } && {
            &&& complete == before.pending_opens@[envelope.session_id@].complete
            &&& result is Ok <==> outcome is Some && outcome->0 is Opened
            &&& outcome is None ==> result == Err::<(), SendError>(
                SendError::RemoteProtocol(RemoteProtocolError::MalformedMessage),
            )
        },
        !after.pending_opens@.dom().contains(envelope.session_id@),
        other != envelope.session_id@ ==> (after.pending_opens@.dom().contains(other)
            <==> before.pending_opens@.dom().contains(other)),
        after.sessions == before.sessions,
{
}

/// What a Server has no business to send is ignored: requests, messages without a kind, and
/// messages without a Session.
pub proof fn law_requests_of_servers_are_ignored<R>(
    before: ClientInner<R>,
    after: ClientInner<R>,
    envelope: Envelope,
    connection_id: u64,
    received: Received<R>,
)
    requires
        envelope_handled(before, after, envelope, connection_id, received),
        envelope.kind is None || envelope.session_id@.len() != 16 || (envelope.kind matches Some(
            kind,
        ) && (kind is SessionOpen || kind is Action || kind is SessionClose)),
    ensures
        received is Ignored,
        after == before,
{
}

/// An item that is handed on goes to the one Session: no other caller sees anything.
pub proof fn law_items_go_to_one_caller(
    before: CallersView,
    after: CallersView,
    session_id: Seq<u8>,
    item: SessionItem,
    answer: Offer<SessionItem>,
    other: Seq<u8>,
)
    requires
        handed_on(before, after, session_id, item, answer),
        before.dom().contains(session_id),
    ensures
        after.dom() == before.dom(),
        other != session_id ==> after[other] == before[other],
        after[session_id].answers.len() == before[session_id].answers.len() + 1,
        answer.gives_back(item),
{
    assert(after.dom() =~= before.dom());
}

/// A message may be put on a connection exactly if the connection is there and open.
pub proof fn law_open_connections_take_messages(connections: Seq<ConnectionView>, at: int)
    requires
        0 <= at < connections.len(),
        forall|k: int| 0 <= k < at ==> (#[trigger] connections[k]).id != connections[at].id,
    ensures
        admitting(connections, connections[at].id) <==> !connections[at].closed,
{
    crate::client::connection::lemma_first(connections, connections[at].id, at);
}

/// The notice that a caller is done names the Session and the Actor, and goes over the
/// connection of the Session.
pub proof fn law_close_notices_name_the_session(
    out: Outgoing,
    connection_id: u64,
    address: AddressView,
    session_id: Seq<u8>,
)
    requires
        is_close(out, connection_id, address, session_id),
    ensures
        out.connection == connection_id,
        out.envelope.session_id@ == session_id,
        out.envelope.actor_type@ == address.actor_type,
        out.envelope.actor_id@ == vstd::utf8::encode_utf8(address.actor_id),
        out.envelope.kind == Some(Kind::SessionClose { reason: 1 }),
        out.envelope.protocol_version == 2,
{
}

/// Who is told of a lost connection lost something by it: a request that waited on it, or a
/// Session that was bound to it and open.
pub proof fn law_lost_connections_concern_their_sessions<R>(
    client: ClientInner<R>,
    connection_id: u64,
    complete: R,
    ended: Ended,
)
    ensures
        answers_pending(client, connection_id, complete) ==> exists|s: Seq<u8>|
            #![trigger client.pending_opens@[s]]
            client.pending_opens@.dom().contains(s) && client.pending_opens@[s].connection_id
                == connection_id && client.pending_opens@[s].complete == complete && bound_on(
                client.pools@,
                connection_id,
                s,
            ),
        ends_session(client, connection_id, ended) ==> exists|s: Seq<u8>|
            #![trigger client.sessions@[s]]
            client.sessions@.dom().contains(s) && bound_on(client.pools@, connection_id, s) && !(
            client.pending_opens@.dom().contains(s) && client.pending_opens@[s].connection_id
                == connection_id) && exists|copy: SendError|
                same_error(SendError::RemoteUnavailable, copy) && (#[trigger] ended.answer.gives_back(
                    Err(copy),
                )) && ended.channel@ == client.sessions@[s].offered(Err(copy), ended.answer),
{
    if answers_pending(client, connection_id, complete) {
        let s = choose|s: Seq<u8>| #[trigger]
            client.awaits(s, connection_id) && bound_on(client.pools@, connection_id, s)
                && client.pending_opens@[s].complete == complete;
        assert(client.pending_opens@[s].complete == complete);
    }
    if ends_session(client, connection_id, ended) {
        let s = choose|s: Seq<u8>| #[trigger]
            bound_on(client.pools@, connection_id, s) && !client.awaits(s, connection_id)
                && client.sessions@.dom().contains(s) && ended.told(
                client.sessions@[s],
                SendError::RemoteUnavailable,
            );
        assert(client.sessions@[s] == client.sessions@[s]);
        let copy = choose|copy: SendError| #[trigger]
            same_error(SendError::RemoteUnavailable, copy) && ended.answer.gives_back(Err(copy))
                && ended.channel@ == client.sessions@[s].offered(Err(copy), ended.answer);
        assert(ended.answer.gives_back(Err(copy)));
    }
}

/// Where nothing but the pending requests of a Client is said to change, its Sessions, its
/// connections and its limits stay.
pub proof fn law_clients_keep_what_they_are<R>(before: ClientInner<R>, after: ClientInner<R>)
    requires
        after.same_but_pending(&before),
    ensures
        after.sessions == before.sessions,
        after.pools == before.pools,
        after.running == before.running,
        after.open_timeout == before.open_timeout,
        after.max_open_attempts == before.max_open_attempts,
        after.max_connections_per_endpoint == before.max_connections_per_endpoint,
        after.placement_cache == before.placement_cache,
{
}

} // verus!
