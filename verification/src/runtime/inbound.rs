//! What a Server does with the messages of its Transport Connections.

use vstd::prelude::*;
use vstd::string::*;
use vstd::utf8::*;

use crate::actor::{valid_address, ActorAddress, AddressView};
use crate::error::{failure_of, RemoteProtocolError, SendError};
use crate::keyed::Key;
use crate::mailbox::Offer;
use crate::runtime::message::MailboxMessage;
use crate::runtime::route::put_in;
use crate::runtime::server::{delivers, Delivery, ServerInner};
use crate::runtime::session::{
    bound_to, law_unregister_undoes_register, session_id_of, sessions_of, with_sessions, Outgoing,
    SessionId,
};
use crate::text::text_from_utf8;
use crate::transport_protocol::{AckOutcome, Envelope, Kind};

verus! {

/// What closing a Session came to: whether it was live, and what the mailbox of
/// its Actor did with the notice, if the Actor was active.
#[verifier::reject_recursive_types(R)]
pub struct Closing<R> {
    pub removed: bool,
    pub notice: Option<Offer<MailboxMessage<R>>>,
}

/// What became of something that a caller sent on a Session.
#[verifier::reject_recursive_types(R)]
pub enum RemoteMessage<R> {
    /// The Session is not live.
    Gone,
    /// An Action was brought to the Actor, or refused.
    Delivered(Delivery<R>),
    /// The Session was closed.
    Closed(Closing<R>),
}

impl<R> RemoteMessage<R> {
    /// What the caller learns.
    pub open spec fn result_of(self) -> Result<(), SendError> {
        match self {
            RemoteMessage::Gone => Err(SendError::ActorStopped),
            RemoteMessage::Delivered(delivery) => delivery.result,
            RemoteMessage::Closed(_) => Ok(()),
        }
    }

    /// What the caller learns.
    pub fn result(self) -> (result: Result<(), SendError>)
        ensures
            result == self.result_of(),
    {
        match self {
            RemoteMessage::Gone => Err(SendError::ActorStopped),
            RemoteMessage::Delivered(delivery) => delivery.result,
            RemoteMessage::Closed(_) => Ok(()),
        }
    }
}

/// What the first half of opening a Session came to: a refusal, or a message on
/// its way to the Actor, whose answer the host awaits.
#[verifier::reject_recursive_types(R)]
pub struct OpenStart<R> {
    pub refused: Option<SendError>,
    pub delivery: Option<Delivery<R>>,
}

/// A Session that is being opened.
pub struct PendingOpen {
    pub address: ActorAddress,
    pub session_id: SessionId,
    pub connection: u64,
}

/// What the host has to do for one inbound message.
#[verifier::reject_recursive_types(R)]
pub enum Inbound<R> {
    /// Nothing.
    Ignored,
    /// An Action went to its Actor: finish the delivery, and send the error if
    /// there is one.
    Dispatched { delivery: Delivery<R>, error: Option<Outgoing> },
    /// Send this answer.
    Answered { answer: Outgoing },
    /// A Session was closed.
    Closed { closing: Closing<R> },
    /// Find out who owns the Actor, and go on with `resume_open`.
    Resolve { open: PendingOpen, complete: R },
    /// A Session is being opened: finish the delivery, and go on with
    /// `finish_inbound_open` once the Actor has answered. A refusal is answered
    /// at once.
    Opening { open: PendingOpen, start: OpenStart<R> },
}

/// The address that the names of an envelope stand for.
pub open spec fn address_from(actor_type: Seq<char>, actor_id: Seq<u8>) -> Option<AddressView> {
    let address = AddressView { actor_type, actor_id: decode_utf8(actor_id) };
    if valid_utf8(actor_id) && valid_address(address) {
        Some(address)
    } else {
        None
    }
}

/// The address that the names of an envelope stand for, if they are valid.
pub fn actor_address_from_envelope(actor_type: String, actor_id: Vec<u8>) -> (address: Option<
    ActorAddress,
>)
    ensures
        match address {
            Some(a) => address_from(actor_type@, actor_id@) == Some(a@),
            None => address_from(actor_type@, actor_id@) is None,
        },
{
    match text_from_utf8(actor_id) {
        Some(id) => match ActorAddress::new(actor_type.as_str(), id.as_str()) {
            Ok(address) => Some(address),
            Err(_) => None,
        },
        None => None,
    }
}

/// The bytes in which an envelope carries the ID of a valid address stand for
/// that address again.
pub proof fn law_envelope_names_the_address(address: AddressView)
    requires
        valid_address(address),
    ensures
        address_from(address.actor_type, encode_utf8(address.actor_id)) == Some(address),
{
    encode_utf8_valid_utf8(address.actor_id);
    encode_utf8_decode_utf8(address.actor_id);
}

/// The error that tells the caller of a Session why its Action was refused.
pub fn session_error(connection: u64, session_id: Vec<u8>, error: &SendError) -> (out: Outgoing)
    ensures
        out.connection == connection,
        out.envelope.is_reply(
            session_id@,
            Kind::SessionError { failure: failure_of(*error).code() },
        ),
{
    let kind = Kind::SessionError { failure: error.to_wire() };
    Outgoing { connection, envelope: Envelope::reply(session_id, kind) }
}

/// The answer that tells a caller how the request to open a Session ended.
pub open spec fn is_ack(
    out: Outgoing,
    connection: u64,
    session_id: Seq<u8>,
    result: Result<(), SendError>,
) -> bool {
    &&& out.connection == connection
    &&& exists|outcome: AckOutcome|
        #![trigger out.envelope.is_reply(session_id, Kind::SessionOpenedAck { outcome: Some(outcome) })]
        out.envelope.is_reply(session_id, Kind::SessionOpenedAck { outcome: Some(outcome) })
            && match result {
            Ok(()) => outcome matches AckOutcome::Opened(payload) && payload@ == Seq::<u8>::empty(),
            Err(error) => outcome == AckOutcome::Failure(failure_of(error).code()),
        }
}

/// The answer that tells a caller how the request to open a Session ended.
pub fn session_opened_ack(
    connection: u64,
    session_id: Vec<u8>,
    result: &Result<(), SendError>,
) -> (out: Outgoing)
    ensures
        is_ack(out, connection, session_id@, *result),
{
    let outcome = match result {
        Ok(()) => AckOutcome::Opened(Vec::new()),
        Err(error) => AckOutcome::Failure(error.to_wire()),
    };
    let kind = Kind::SessionOpenedAck { outcome: Some(outcome) };
    let out = Outgoing { connection, envelope: Envelope::reply(session_id, kind) };
    assert(out.envelope.is_reply(
        session_id@,
        Kind::SessionOpenedAck { outcome: Some(outcome) },
    ));
    out
}

/// `out` and the state after it are what the first half of opening a Session
/// comes to.
pub open spec fn open_started<R, T>(
    before: ServerInner<R, T>,
    after: ServerInner<R, T>,
    address: AddressView,
    session_id: SessionId,
    connection: u64,
    reserved: bool,
    complete: R,
    now: u64,
    out: OpenStart<R>,
) -> bool {
    let sessions = sessions_of(before.sessions@, address);
    let listed = before.sessions@.insert(address, sessions.insert(session_id@, connection));
    if !before.registered(address.actor_type) {
        &&& out.refused matches Some(SendError::ActorTypeNotRegistered(name)) && name@
            == address.actor_type
        &&& out.delivery is None
        &&& after.sessions@ == before.sessions@
        &&& after.routes@ == before.routes@.unreserve(reserved)
    } else if sessions.dom().contains(session_id@) {
        &&& out.refused == Some(SendError::ActorStopped)
        &&& out.delivery is None
        &&& after.sessions@ == listed
        &&& after.routes@ == before.routes@.unreserve(reserved)
    } else {
        &&& out.delivery matches Some(delivery)
        &&& delivers(
            before,
            after.routes@,
            address,
            MailboxMessage::SessionOpened { session_id, complete },
            reserved,
            now,
            delivery,
        )
        &&& match delivery.result {
            Ok(()) => out.refused is None && after.sessions@ == listed,
            Err(error) => out.refused == Some(error) && after.sessions@ == before.sessions@,
        }
    }
}

impl<R, T> ServerInner<R, T> {
    /// Closes a Session: it is taken off the list, and its Actor is told if it
    /// is active.
    pub fn close_local_session(
        &mut self,
        address: &ActorAddress,
        session_id: &SessionId,
    ) -> (closing: Closing<R>)
        requires
            old(self).wf(),
        ensures
            final(self).wf(),
            final(self).same_but_traffic(old(self)),
            session_closed(*old(self), *final(self), address@, *session_id, closing),
    {
        if self.sessions.unregister_actor(address, session_id) {
            let message = MailboxMessage::SessionClosed { session_id: *session_id };
            Closing { removed: true, notice: self.offer_if_active(address, message) }
        } else {
            Closing { removed: false, notice: None }
        }
    }

    /// The first half of opening a Session: it is listed, and its Actor is told.
    /// Whatever refuses it takes it off the list again.
    pub fn begin_open(
        &mut self,
        address: &ActorAddress,
        session_id: SessionId,
        connection: u64,
        reserved: bool,
        complete: R,
        now: u64,
    ) -> (out: OpenStart<R>)
        requires
            old(self).wf(),
            reserved ==> old(self).routes@.reserved > 0,
        ensures
            final(self).wf(),
            final(self).same_but_traffic(old(self)),
            open_started(
                *old(self),
                *final(self),
                address@,
                session_id,
                connection,
                reserved,
                complete,
                now,
                out,
            ),
    {
        let name = address.actor_type().to_owned();
        assert(name@ == address@.actor_type);
        if !self.registrations.contains(&name) {
            if reserved {
                self.routes.cancel_reservation();
            }
            return OpenStart {
                refused: Some(SendError::ActorTypeNotRegistered(name)),
                delivery: None,
            };
        }
        proof {
            self.sessions.lemma_no_empty_entry();
        }
        if !self.sessions.register_actor(address, session_id, connection) {
            if reserved {
                self.routes.cancel_reservation();
            }
            return OpenStart { refused: Some(SendError::ActorStopped), delivery: None };
        }
        let message = MailboxMessage::SessionOpened { session_id, complete };
        assert(self.capacity_of(address@.actor_type) == old(self).capacity_of(
            address@.actor_type,
        ));
        let delivery = self.dispatch_message(address, message, reserved, now);
        let refused = match &delivery.result {
            Ok(()) => None,
            Err(error) => Some(error.duplicate()),
        };
        if refused.is_some() {
            self.sessions.unregister_actor(address, &session_id);
            proof {
                law_unregister_undoes_register(
                    old(self).sessions@,
                    address@,
                    session_id@,
                    connection,
                );
            }
        }
        OpenStart { refused, delivery: Some(delivery) }
    }

    /// The second half of opening a Session: the Actor has answered, or is gone
    /// without an answer. Only an Actor that took the Session keeps it listed.
    pub fn finish_open(
        &mut self,
        address: &ActorAddress,
        session_id: &SessionId,
        answer: Option<Result<(), SendError>>,
    ) -> (result: Result<(), SendError>)
        requires
            old(self).wf(),
        ensures
            final(self).wf(),
            final(self).same_but_sessions(old(self)),
            result == match answer {
                Some(outcome) => outcome,
                None => Err(SendError::ActorStopped),
            },
            final(self).sessions@ == if result is Ok {
                old(self).sessions@
            } else {
                without_session(old(self).sessions@, address@, session_id@)
            },
    {
        let result = match answer {
            Some(outcome) => outcome,
            None => Err(SendError::ActorStopped),
        };
        if result.is_err() {
            self.sessions.unregister_actor(address, session_id);
        }
        result
    }
}

/// The registry without one Session.
pub open spec fn without_session(
    registry: Map<AddressView, crate::runtime::session::SessionsView>,
    address: AddressView,
    session_id: Seq<u8>,
) -> Map<AddressView, crate::runtime::session::SessionsView> {
    let sessions = sessions_of(registry, address);
    if sessions.dom().contains(session_id) {
        with_sessions(registry, address, sessions.remove(session_id))
    } else {
        registry
    }
}

/// `closing` and the state after it are what closing a Session comes to.
pub open spec fn session_closed<R, T>(
    before: ServerInner<R, T>,
    after: ServerInner<R, T>,
    address: AddressView,
    session_id: SessionId,
    closing: Closing<R>,
) -> bool {
    &&& closing.removed == sessions_of(before.sessions@, address).dom().contains(session_id@)
    &&& after.sessions@ == without_session(before.sessions@, address, session_id@)
    &&& closing.notice is Some == (closing.removed && before.active(address))
    &&& match closing.notice {
        Some(offer) => put_in(
            before.routes@,
            after.routes@,
            address,
            MailboxMessage::SessionClosed { session_id },
            offer,
        ),
        None => after.routes@ == before.routes@,
    }
}

/// What an envelope asks for, if it can be read at all: of which Session of
/// which Actor.
pub struct Request {
    pub kind: Kind,
    pub session_id: Seq<u8>,
    pub address: AddressView,
    pub speaks_our_version: bool,
}

/// What an envelope asks for; nothing if it has no kind, no proper Session or no
/// proper address.
pub open spec fn request_of(envelope: Envelope, version: u32) -> Option<Request> {
    match (
        envelope.kind,
        session_id_of(envelope.session_id@),
        address_from(envelope.actor_type@, envelope.actor_id@),
    ) {
        (Some(kind), Some(session_id), Some(address)) => Some(
            Request {
                kind,
                session_id,
                address,
                speaks_our_version: envelope.protocol_version == version,
            },
        ),
        _ => None,
    }
}

/// `out` and the state after it are what an Action comes to. It is delivered
/// only for a Session that receives on the connection it came from; any other
/// is answered with an error, and so is one that cannot be delivered.
pub open spec fn action_handled<R, T>(
    before: ServerInner<R, T>,
    after: ServerInner<R, T>,
    address: AddressView,
    session_id: Seq<u8>,
    payload: Vec<u8>,
    reply: Option<u64>,
    now: u64,
    out: Inbound<R>,
) -> bool {
    match reply {
        None => out == Inbound::<R>::Ignored && after == before,
        Some(connection) => if !bound_to(before.sessions@, address, session_id, connection) {
            &&& out matches Inbound::Answered { answer }
            &&& is_session_error(answer, connection, session_id, SendError::ActorStopped)
            &&& after == before
        } else {
            &&& out matches Inbound::Dispatched { delivery, error }
            &&& after.same_but_routes(&before)
            &&& exists|id: SessionId| #[trigger]
                id@ == session_id && delivers(
                    before,
                    after.routes@,
                    address,
                    MailboxMessage::Action { session_id: id, payload },
                    false,
                    now,
                    delivery,
                )
            &&& match delivery.result {
                Ok(()) => error is None,
                Err(e) => error matches Some(answer) && is_session_error(
                    answer,
                    connection,
                    session_id,
                    e,
                ),
            }
        },
    }
}

/// The message tells the caller of a Session why its Action was refused.
pub open spec fn is_session_error(
    out: Outgoing,
    connection: u64,
    session_id: Seq<u8>,
    error: SendError,
) -> bool {
    &&& out.connection == connection
    &&& out.envelope.is_reply(session_id, Kind::SessionError { failure: failure_of(error).code() })
}

/// `out` and the state after it are what a request to open a Session comes to.
pub open spec fn open_handled<R, T>(
    before: ServerInner<R, T>,
    after: ServerInner<R, T>,
    address: AddressView,
    session_id: Seq<u8>,
    speaks_our_version: bool,
    reply: Option<u64>,
    complete: R,
    now: u64,
    out: Inbound<R>,
) -> bool {
    match reply {
        None => out == Inbound::<R>::Ignored && after == before,
        Some(connection) => if !speaks_our_version {
            &&& out matches Inbound::Answered { answer }
            &&& is_ack(
                answer,
                connection,
                session_id,
                Err(SendError::RemoteProtocol(RemoteProtocolError::VersionMismatch)),
            )
            &&& after == before
        } else if before.clustered {
            &&& out matches Inbound::Resolve { open, complete: returned }
            &&& open.address@ == address && open.session_id@ == session_id && open.connection
                == connection
            &&& returned == complete
            &&& after == before
        } else {
            &&& out matches Inbound::Opening { open, start }
            &&& open.address@ == address && open.session_id@ == session_id && open.connection
                == connection
            &&& after.same_but_traffic(&before)
            &&& open_started(
                before,
                after,
                address,
                open.session_id,
                connection,
                false,
                complete,
                now,
                start,
            )
        },
    }
}

/// `out` and the state after it are what a request to close a Session comes to.
/// Only the connection on which the Session receives can close it.
pub open spec fn close_handled<R, T>(
    before: ServerInner<R, T>,
    after: ServerInner<R, T>,
    address: AddressView,
    session_id: Seq<u8>,
    reply: Option<u64>,
    out: Inbound<R>,
) -> bool {
    if reply matches Some(connection) && bound_to(
        before.sessions@,
        address,
        session_id,
        connection,
    ) {
        &&& out matches Inbound::Closed { closing }
        &&& after.same_but_traffic(&before)
        &&& exists|id: SessionId| #[trigger]
            id@ == session_id && session_closed(before, after, address, id, closing)
    } else {
        out == Inbound::<R>::Ignored && after == before
    }
}

/// `out` and the state after it are what an inbound message comes to.
pub open spec fn inbound_handled<R, T>(
    before: ServerInner<R, T>,
    after: ServerInner<R, T>,
    envelope: Envelope,
    reply: Option<u64>,
    complete: R,
    now: u64,
    out: Inbound<R>,
) -> bool {
    match request_of(envelope, before.transport_protocol_version) {
        None => out == Inbound::<R>::Ignored && after == before,
        Some(request) => match request.kind {
            Kind::Action { payload } => if request.speaks_our_version {
                action_handled(
                    before,
                    after,
                    request.address,
                    request.session_id,
                    payload,
                    reply,
                    now,
                    out,
                )
            } else {
                out == Inbound::<R>::Ignored && after == before
            },
            Kind::SessionOpen => open_handled(
                before,
                after,
                request.address,
                request.session_id,
                request.speaks_our_version,
                reply,
                complete,
                now,
                out,
            ),
            Kind::SessionClose { .. } => close_handled(
                before,
                after,
                request.address,
                request.session_id,
                reply,
                out,
            ),
            Kind::Event { .. } | Kind::SessionError { .. } | Kind::SessionOpenedAck { .. } => out
                == Inbound::<R>::Ignored && after == before,
        },
    }
}

impl<R, T> ServerInner<R, T> {
    /// Handles one message of a caller. Whatever it leads to goes to an Actor of
    /// this Server or back over the connection the message came from: Servers
    /// never forward to another Server.
    pub fn dispatch_inbound(
        &mut self,
        envelope: Envelope,
        reply: Option<u64>,
        complete: R,
        now: u64,
    ) -> (out: Inbound<R>)
        requires
            old(self).wf(),
        ensures
            final(self).wf(),
            inbound_handled(*old(self), *final(self), envelope, reply, complete, now, out),
    {
        let version_ok = envelope.protocol_version == self.transport_protocol_version;
        let kind = match envelope.kind {
            Some(kind) => kind,
            None => return Inbound::Ignored,
        };
        let session_id = match SessionId::from_bytes(envelope.session_id.as_slice()) {
            Some(session_id) => session_id,
            None => return Inbound::Ignored,
        };
        let address = match actor_address_from_envelope(envelope.actor_type, envelope.actor_id) {
            Some(address) => address,
            None => return Inbound::Ignored,
        };
        match kind {
            Kind::Action { payload } => {
                if !version_ok {
                    return Inbound::Ignored;
                }
                match reply {
                    Some(connection) => self.handle_action(
                        &address,
                        session_id,
                        envelope.session_id,
                        payload,
                        connection,
                        now,
                    ),
                    None => Inbound::Ignored,
                }
            },
            Kind::SessionOpen => match reply {
                Some(connection) => {
                    let open = PendingOpen { address, session_id, connection };
                    if !version_ok {
                        let refused = Err(
                            SendError::RemoteProtocol(RemoteProtocolError::VersionMismatch),
                        );
                        Inbound::Answered {
                            answer: session_opened_ack(connection, envelope.session_id, &refused),
                        }
                    } else if self.clustered {
                        Inbound::Resolve { open, complete }
                    } else {
                        let start = self.begin_open(
                            &open.address,
                            session_id,
                            connection,
                            false,
                            complete,
                            now,
                        );
                        Inbound::Opening { open, start }
                    }
                },
                None => Inbound::Ignored,
            },
            Kind::SessionClose { .. } => match reply {
                Some(connection) => {
                    if self.sessions.is_bound_to(&address, &session_id, connection) {
                        let closing = self.close_local_session(&address, &session_id);
                        assert(session_id@ == envelope.session_id@);
                        Inbound::Closed { closing }
                    } else {
                        Inbound::Ignored
                    }
                },
                None => Inbound::Ignored,
            },
            Kind::Event { .. } | Kind::SessionError { .. } | Kind::SessionOpenedAck { .. } => Inbound::Ignored,
        }
    }

    fn handle_action(
        &mut self,
        address: &ActorAddress,
        session_id: SessionId,
        session_bytes: Vec<u8>,
        payload: Vec<u8>,
        connection: u64,
        now: u64,
    ) -> (out: Inbound<R>)
        requires
            old(self).wf(),
            session_id@ == session_bytes@,
        ensures
            final(self).wf(),
            action_handled(
                *old(self),
                *final(self),
                address@,
                session_bytes@,
                payload,
                Some(connection),
                now,
                out,
            ),
    {
        if !self.sessions.is_bound_to(address, &session_id, connection) {
            return Inbound::Answered {
                answer: session_error(connection, session_bytes, &SendError::ActorStopped),
            };
        }
        match self.dispatch_remote_message(address, session_id, Some(payload), now) {
            RemoteMessage::Delivered(delivery) => {
                let error = match &delivery.result {
                    Ok(()) => None,
                    Err(error) => Some(session_error(connection, session_bytes, error)),
                };
                assert(session_id@ == session_bytes@);
                Inbound::Dispatched { delivery, error }
            },
            _ => Inbound::Answered {
                answer: session_error(connection, session_bytes, &SendError::ActorStopped),
            },
        }
    }

    /// Brings what a caller sent on a Session to its Actor: an Action, or that
    /// the Session is over. A Session that is not live reaches nobody.
    pub fn dispatch_remote_message(
        &mut self,
        address: &ActorAddress,
        session_id: SessionId,
        payload: Option<Vec<u8>>,
        now: u64,
    ) -> (out: RemoteMessage<R>)
        requires
            old(self).wf(),
        ensures
            final(self).wf(),
            match payload {
                Some(payload) => if sessions_of(old(self).sessions@, address@).dom().contains(
                    session_id@,
                ) {
                    &&& out matches RemoteMessage::Delivered(delivery)
                    &&& final(self).same_but_routes(old(self))
                    &&& delivers(
                        *old(self),
                        final(self).routes@,
                        address@,
                        MailboxMessage::Action { session_id, payload },
                        false,
                        now,
                        delivery,
                    )
                } else {
                    out is Gone && *final(self) == *old(self)
                },
                None => {
                    &&& out matches RemoteMessage::Closed(closing)
                    &&& final(self).same_but_traffic(old(self))
                    &&& session_closed(*old(self), *final(self), address@, session_id, closing)
                },
            },
    {
        match payload {
            Some(payload) => {
                if self.sessions.sink(address, &session_id).is_none() {
                    return RemoteMessage::Gone;
                }
                assert(self.sessions@.dom().contains(address@));
                let message = MailboxMessage::Action { session_id, payload };
                RemoteMessage::Delivered(self.dispatch_message(address, message, false, now))
            },
            None => RemoteMessage::Closed(self.close_local_session(address, &session_id)),
        }
    }

    /// Goes on with the opening of a Session once the Owner of its Actor is
    /// known. Only a Server that owns the Actor opens the Session.
    pub fn resume_open(
        &mut self,
        open: &PendingOpen,
        owner: Result<bool, SendError>,
        reserved: bool,
        complete: R,
        now: u64,
    ) -> (out: OpenStart<R>)
        requires
            old(self).wf(),
            reserved ==> owner == Ok::<bool, SendError>(true) && old(self).routes@.reserved > 0,
        ensures
            final(self).wf(),
            final(self).same_but_traffic(old(self)),
            match owner {
                Ok(true) => open_started(
                    *old(self),
                    *final(self),
                    open.address@,
                    open.session_id,
                    open.connection,
                    reserved,
                    complete,
                    now,
                    out,
                ),
                Ok(false) => out == (OpenStart::<R> {
                    refused: Some(SendError::NotOwner),
                    delivery: None,
                }) && *final(self) == *old(self),
                Err(error) => out == (OpenStart::<R> { refused: Some(error), delivery: None })
                    && *final(self) == *old(self),
            },
    {
        match owner {
            Ok(true) => self.begin_open(
                &open.address,
                open.session_id,
                open.connection,
                reserved,
                complete,
                now,
            ),
            Ok(false) => OpenStart { refused: Some(SendError::NotOwner), delivery: None },
            Err(error) => OpenStart { refused: Some(error), delivery: None },
        }
    }

    /// Ends the opening of a Session: with the refusal that it met, or with what
    /// the Actor answered. The caller learns the result.
    pub fn finish_inbound_open(
        &mut self,
        open: &PendingOpen,
        refused: Option<SendError>,
        answer: Option<Result<(), SendError>>,
    ) -> (ack: Outgoing)
        requires
            old(self).wf(),
        ensures
            final(self).wf(),
            final(self).same_but_sessions(old(self)),
            is_ack(ack, open.connection, open.session_id@, open_result(refused, answer)),
            final(self).sessions@ == if refused is Some || open_result(refused, answer) is Ok {
                old(self).sessions@
            } else {
                without_session(old(self).sessions@, open.address@, open.session_id@)
            },
    {
        let result = match refused {
            Some(error) => Err(error),
            None => self.finish_open(&open.address, &open.session_id, answer),
        };
        session_opened_ack(open.connection, open.session_id.as_bytes(), &result)
    }

    /// The Events of a broadcast: one for each live Session of the Actor.
    pub fn broadcast_event(&self, address: &ActorAddress, payload: &Vec<u8>) -> (events: Vec<
        Outgoing,
    >)
        requires
            self.wf(),
        ensures
            are_events(events@, sessions_of(self.sessions@, address@), payload@),
    {
        let ids = self.sessions.by_actor_snapshot(address);
        let ghost views = ids@.map_values(|s: SessionId| s@);
        let ghost sessions = sessions_of(self.sessions@, address@);
        let mut events: Vec<Outgoing> = Vec::new();
        let mut i: usize = 0;
        while i < ids.len()
            invariant
                self.wf(),
                i <= ids@.len(),
                views == ids@.map_values(|s: SessionId| s@),
                views.to_set() == sessions.dom(),
                sessions == sessions_of(self.sessions@, address@),
                events@.len() == i,
                forall|j: int|
                    0 <= j < i ==> is_event(
                        #[trigger] events@[j],
                        sessions[views[j]],
                        views[j],
                        payload@,
                    ),
            decreases ids@.len() - i,
        {
            assert(views[i as int] == ids@[i as int]@);
            assert(views.to_set().contains(views[i as int]));
            let bytes = copy_bytes(payload);
            match self.sessions.deliver_event(address, ids[i], bytes) {
                Ok(event) => {
                    events.push(event);
                },
                Err(_) => {},
            }
            i += 1;
        }
        events
    }
}

/// A second vector with the same bytes.
pub fn copy_bytes(bytes: &Vec<u8>) -> (copy: Vec<u8>)
    ensures
        copy@ == bytes@,
{
    let mut copy: Vec<u8> = Vec::new();
    copy.extend_from_slice(bytes.as_slice());
    assert(copy@ =~= bytes@);
    copy
}

/// How the opening of a Session ended.
pub open spec fn open_result(
    refused: Option<SendError>,
    answer: Option<Result<(), SendError>>,
) -> Result<(), SendError> {
    match refused {
        Some(error) => Err(error),
        None => match answer {
            Some(outcome) => outcome,
            None => Err(SendError::ActorStopped),
        },
    }
}

/// The message carries an Event to the caller of a Session.
pub open spec fn is_event(
    out: Outgoing,
    connection: u64,
    session_id: Seq<u8>,
    payload: Seq<u8>,
) -> bool {
    &&& out.connection == connection
    &&& exists|bytes: Vec<u8>|
        #![trigger out.envelope.is_reply(session_id, Kind::Event { payload: bytes })]
        bytes@ == payload && out.envelope.is_reply(session_id, Kind::Event { payload: bytes })
}

/// One Event for each of the Sessions, and no other.
pub open spec fn are_events(
    events: Seq<Outgoing>,
    sessions: crate::runtime::session::SessionsView,
    payload: Seq<u8>,
) -> bool {
    exists|ids: Seq<Seq<u8>>| #[trigger]
        ids.no_duplicates() && ids.to_set() == sessions.dom() && ids.len() == events.len()
            && forall|i: int|
            0 <= i < events.len() ==> is_event(
                #[trigger] events[i],
                sessions[ids[i]],
                ids[i],
                payload,
            )
}

/// Everything that an inbound message makes the Server send goes back over the
/// connection that the message came from: Servers never forward to another
/// Server.
pub proof fn law_servers_do_not_forward<R, T>(
    before: ServerInner<R, T>,
    after: ServerInner<R, T>,
    envelope: Envelope,
    reply: Option<u64>,
    complete: R,
    now: u64,
    out: Inbound<R>,
)
    requires
        inbound_handled(before, after, envelope, reply, complete, now, out),
    ensures
        out matches Inbound::Answered { answer } ==> reply == Some(answer.connection),
        out matches Inbound::Dispatched { error: Some(answer), .. } ==> reply == Some(
            answer.connection,
        ),
        out matches Inbound::Resolve { open, .. } ==> reply == Some(open.connection),
        out matches Inbound::Opening { open, .. } ==> reply == Some(open.connection),
{
}

/// An Action reaches an Actor only if it belongs to a live Session that
/// receives on the very connection the Action came from, and only if the caller
/// speaks the protocol version of the Server.
pub proof fn law_actions_need_a_bound_session<R, T>(
    before: ServerInner<R, T>,
    after: ServerInner<R, T>,
    envelope: Envelope,
    reply: Option<u64>,
    complete: R,
    now: u64,
    out: Inbound<R>,
)
    requires
        inbound_handled(before, after, envelope, reply, complete, now, out),
        out is Dispatched,
    ensures
        envelope.protocol_version == before.transport_protocol_version,
        reply matches Some(connection) && address_from(envelope.actor_type@, envelope.actor_id@)
            matches Some(address) && bound_to(
            before.sessions@,
            address,
            envelope.session_id@,
            connection,
        ),
{
}

/// A message that cannot be read, and one that only Servers send, changes
/// nothing.
pub proof fn law_unreadable_messages_are_harmless<R, T>(
    before: ServerInner<R, T>,
    after: ServerInner<R, T>,
    envelope: Envelope,
    reply: Option<u64>,
    complete: R,
    now: u64,
    out: Inbound<R>,
)
    requires
        inbound_handled(before, after, envelope, reply, complete, now, out),
        request_of(envelope, before.transport_protocol_version) is None || envelope.kind matches Some(
            Kind::Event { .. },
        ) || envelope.kind matches Some(Kind::SessionError { .. }) || envelope.kind matches Some(
            Kind::SessionOpenedAck { .. },
        ),
    ensures
        out is Ignored,
        after == before,
{
}

/// The names of an envelope stand for an address exactly if both are labels and the ID is
/// text; the address has those very names.
pub proof fn law_envelopes_name_addresses(actor_type: Seq<char>, actor_id: Seq<u8>)
    ensures
        address_from(actor_type, actor_id) is Some <==> valid_utf8(actor_id)
            && crate::text::dns_label(actor_type) && crate::text::dns_label(decode_utf8(actor_id)),
        address_from(actor_type, actor_id) matches Some(address) ==> address.actor_type
            == actor_type && address.actor_id == decode_utf8(actor_id),
{
}

/// An envelope asks for something exactly if it has a kind, a Session identity and an
/// address, and then for just that.
pub proof fn law_requests_are_read(envelope: Envelope, version: u32)
    ensures
        request_of(envelope, version) is Some <==> envelope.kind is Some
            && envelope.session_id@.len() == 16 && address_from(
            envelope.actor_type@,
            envelope.actor_id@,
        ) is Some,
        request_of(envelope, version) matches Some(request) ==> {
            &&& envelope.kind == Some(request.kind)
            &&& request.session_id == envelope.session_id@
            &&& address_from(envelope.actor_type@, envelope.actor_id@) == Some(request.address)
            &&& request.speaks_our_version <==> envelope.protocol_version == version
        },
{
}

/// An Action of a live Session that comes over its own connection, in our version, is
/// handed to the Actor with its payload; a refusal is answered over the same connection. An
/// Action of any other Session is answered that the Actor stopped, and reaches nobody.
pub proof fn law_actions_reach_their_actor<R, T>(
    before: ServerInner<R, T>,
    after: ServerInner<R, T>,
    envelope: Envelope,
    connection: u64,
    complete: R,
    now: u64,
    out: Inbound<R>,
    address: AddressView,
    payload: Vec<u8>,
)
    requires
        inbound_handled(before, after, envelope, Some(connection), complete, now, out),
        envelope.kind == Some(Kind::Action { payload }),
        envelope.protocol_version == before.transport_protocol_version,
        envelope.session_id@.len() == 16,
        address_from(envelope.actor_type@, envelope.actor_id@) == Some(address),
    ensures
        ({
            let sessions = sessions_of(before.sessions@, address);
            let bound = sessions.dom().contains(envelope.session_id@)
                && sessions[envelope.session_id@] == connection;
            &&& bound ==> {
                &&& out is Dispatched
                &&& exists|id: SessionId| #[trigger]
                    id@ == envelope.session_id@ && delivers(
                        before,
                        after.routes@,
                        address,
                        MailboxMessage::Action { session_id: id, payload },
                        false,
                        now,
                        out->delivery,
                    )
                &&& out->error is Some <==> out->delivery.result is Err
                &&& out->error matches Some(answer) ==> answer.connection == connection
                    && answer.envelope.session_id@ == envelope.session_id@ && answer.envelope.kind
                    == Some(
                    Kind::SessionError {
                        failure: failure_of(out->delivery.result->Err_0).code(),
                    },
                )
                &&& after.sessions == before.sessions
            }
            &&& !bound ==> {
                &&& out is Answered
                &&& out->answer.connection == connection
                &&& out->answer.envelope.session_id@ == envelope.session_id@
                &&& out->answer.envelope.kind == Some(Kind::SessionError { failure: 6 })
                &&& after == before
            }
        }),
{
}

/// A message in another version than ours opens nothing and reaches nobody. A request to
/// open a Session is answered with a mismatch of versions.
pub proof fn law_other_versions_are_refused<R, T>(
    before: ServerInner<R, T>,
    after: ServerInner<R, T>,
    envelope: Envelope,
    connection: u64,
    complete: R,
    now: u64,
    out: Inbound<R>,
)
    requires
        inbound_handled(before, after, envelope, Some(connection), complete, now, out),
        envelope.protocol_version != before.transport_protocol_version,
        !(envelope.kind matches Some(Kind::SessionClose { .. })),
    ensures
        after == before,
        out is Ignored || out is Answered,
        out is Answered <==> envelope.kind == Some(Kind::SessionOpen)
            && envelope.session_id@.len() == 16 && address_from(
            envelope.actor_type@,
            envelope.actor_id@,
        ) is Some,
        out matches Inbound::Answered { answer } ==> answer.connection == connection
            && answer.envelope.session_id@ == envelope.session_id@ && answer.envelope.kind == Some(
            Kind::SessionOpenedAck { outcome: Some(AckOutcome::Failure(8)) },
        ),
{
}

/// A request to open a Session, in our version, is never ignored: a Server of a cluster
/// first finds out who owns the Actor, and any other goes on at once. Either way it goes on
/// for this very Session, Actor and connection.
pub proof fn law_open_requests_are_taken_up<R, T>(
    before: ServerInner<R, T>,
    after: ServerInner<R, T>,
    envelope: Envelope,
    connection: u64,
    complete: R,
    now: u64,
    out: Inbound<R>,
    address: AddressView,
)
    requires
        inbound_handled(before, after, envelope, Some(connection), complete, now, out),
        envelope.kind == Some(Kind::SessionOpen),
        envelope.protocol_version == before.transport_protocol_version,
        envelope.session_id@.len() == 16,
        address_from(envelope.actor_type@, envelope.actor_id@) == Some(address),
    ensures
        before.clustered ==> {
            &&& out matches Inbound::Resolve { open, complete: kept }
            &&& open.address@ == address && open.session_id@ == envelope.session_id@
                && open.connection == connection && kept == complete
            &&& after == before
        },
        !before.clustered ==> {
            &&& out matches Inbound::Opening { open, .. }
            &&& open.address@ == address && open.session_id@ == envelope.session_id@
                && open.connection == connection
        },
{
}

/// The opening of a Session of a registered Actor Type is brought to the Actor, and the
/// Session is listed with its connection exactly if the message was delivered. An identity
/// that is in use is refused and moves to the new connection.
pub proof fn law_opened_sessions_are_listed<R, T>(
    before: ServerInner<R, T>,
    after: ServerInner<R, T>,
    address: AddressView,
    session_id: SessionId,
    connection: u64,
    reserved: bool,
    complete: R,
    now: u64,
    out: OpenStart<R>,
)
    requires
        open_started(before, after, address, session_id, connection, reserved, complete, now, out),
    ensures
        ({
            let known = before.registrations@.dom().contains(address.actor_type);
            let taken = before.sessions@.dom().contains(address)
                && before.sessions@[address].dom().contains(session_id@);
            &&& out.delivery is Some <==> known && !taken
            &&& !known ==> out.refused is Some && out.refused->0 is ActorTypeNotRegistered
                && after.sessions@ == before.sessions@
            &&& known && taken ==> out.refused == Some(SendError::ActorStopped) && bound_to(
                after.sessions@,
                address,
                session_id@,
                connection,
            )
            &&& known && !taken ==> {
                &&& delivers(
                    before,
                    after.routes@,
                    address,
                    MailboxMessage::SessionOpened { session_id, complete },
                    reserved,
                    now,
                    out.delivery->0,
                )
                &&& out.refused is None <==> out.delivery->0.result is Ok
                &&& out.refused is None ==> bound_to(
                    after.sessions@,
                    address,
                    session_id@,
                    connection,
                )
                &&& out.refused is Some ==> out.delivery->0.result == Err::<(), SendError>(
                    out.refused->0,
                ) && after.sessions@ == before.sessions@
            }
        }),
{
}

/// The connection that a Session receives on closes it, and no other does: the Session is
/// gone, every other Session stays, and the Actor is told if it is active.
pub proof fn law_callers_close_their_sessions<R, T>(
    before: ServerInner<R, T>,
    after: ServerInner<R, T>,
    envelope: Envelope,
    reply: Option<u64>,
    complete: R,
    now: u64,
    out: Inbound<R>,
    address: AddressView,
    reason: i32,
    other: AddressView,
    other_session: Seq<u8>,
)
    requires
        inbound_handled(before, after, envelope, reply, complete, now, out),
        envelope.kind == Some(Kind::SessionClose { reason }),
        envelope.session_id@.len() == 16,
        address_from(envelope.actor_type@, envelope.actor_id@) == Some(address),
        before.sessions@.dom().contains(address) ==> before.sessions@[address].dom().finite(),
    ensures
        ({
            let sessions = sessions_of(before.sessions@, address);
            let bound = reply is Some && sessions.dom().contains(envelope.session_id@)
                && sessions[envelope.session_id@] == reply->0;
            &&& !bound ==> out is Ignored && after == before
            &&& bound ==> {
                &&& out is Closed
                &&& !sessions_of(after.sessions@, address).dom().contains(envelope.session_id@)
                &&& (other != address || other_session != envelope.session_id@) ==> (sessions_of(
                    after.sessions@,
                    other,
                ).dom().contains(other_session) <==> sessions_of(
                    before.sessions@,
                    other,
                ).dom().contains(other_session))
                &&& after.status == before.status && after.authority == before.authority
                &&& after.registrations == before.registrations
                &&& before.active(address) ==> after.routes@.routes[address].sender@.answers.len()
                    == before.routes@.routes[address].sender@.answers.len() + 1
            }
        }),
{
    crate::runtime::shutdown::lemma_without_session(
        before.sessions@,
        address,
        envelope.session_id@,
        address,
    );
    crate::runtime::shutdown::lemma_without_session(
        before.sessions@,
        address,
        envelope.session_id@,
        other,
    );
}

/// An answer to a request to open a Session goes over its connection, names the Session,
/// and says that it is open exactly if it is; otherwise it carries the number of the error.
pub proof fn law_acks_say_how_it_ended(
    out: Outgoing,
    connection: u64,
    session_id: Seq<u8>,
    result: Result<(), SendError>,
)
    requires
        is_ack(out, connection, session_id, result),
    ensures
        out.connection == connection,
        out.envelope.session_id@ == session_id,
        out.envelope.kind is Some && out.envelope.kind->0 is SessionOpenedAck
            && out.envelope.kind->0->outcome is Some,
        out.envelope.kind->0->outcome->0 is Opened <==> result is Ok,
        result matches Err(error) ==> out.envelope.kind->0->outcome->0 == AckOutcome::Failure(
            failure_of(error).code(),
        ),
{
}

/// A caller reads from an answer what the Owner put into it: a Session that opened did, and
/// an error arrives as what it means.
pub proof fn law_callers_read_acks(
    out: Outgoing,
    connection: u64,
    session_id: Seq<u8>,
    result: Result<(), SendError>,
    read: Result<(), SendError>,
)
    requires
        is_ack(out, connection, session_id, result),
        crate::client::inner::ack_result(out.envelope.kind->0->outcome, read),
    ensures
        read is Ok <==> result is Ok,
        result == Err::<(), SendError>(SendError::NotOwner) ==> read == Err::<(), SendError>(
            SendError::NotOwner,
        ),
        result == Err::<(), SendError>(SendError::RuntimeAtCapacity) ==> read == Err::<
            (),
            SendError,
        >(SendError::RuntimeAtCapacity),
        result == Err::<(), SendError>(SendError::RemoteUnavailable) ==> read == Err::<
            (),
            SendError,
        >(SendError::RemoteUnavailable),
{
}

/// An opening succeeded exactly if it was not refused and the Actor answered that the
/// Session is open. An Actor that is gone before it answers has stopped.
pub proof fn law_openings_succeed_by_the_actor(
    refused: Option<SendError>,
    answer: Option<Result<(), SendError>>,
)
    ensures
        open_result(refused, answer) is Ok <==> refused is None && answer is Some && answer->0
            is Ok,
        refused matches Some(error) ==> open_result(refused, answer) == Err::<(), SendError>(error),
        refused is None && answer is None ==> open_result(refused, answer) == Err::<(), SendError>(
            SendError::ActorStopped,
        ),
        refused is None && answer is Some ==> open_result(refused, answer) == answer->0,
{
}

/// Every live Session gets one Event with the payload, over the connection that it receives
/// on, and there are no others.
pub proof fn law_every_session_gets_the_event(
    events: Seq<Outgoing>,
    sessions: crate::runtime::session::SessionsView,
    payload: Seq<u8>,
    session_id: Seq<u8>,
)
    requires
        are_events(events, sessions, payload),
        sessions.dom().contains(session_id),
    ensures
        exists|i: int|
            0 <= i < events.len() && (#[trigger] events[i]).connection == sessions[session_id]
                && events[i].envelope.session_id@ == session_id && (
            events[i].envelope.kind matches Some(Kind::Event { payload: bytes }) && bytes@
                == payload),
        events.len() == sessions.dom().len(),
{
    let ids = choose|ids: Seq<Seq<u8>>| #[trigger]
        ids.no_duplicates() && ids.to_set() == sessions.dom() && ids.len() == events.len()
            && forall|i: int|
            0 <= i < events.len() ==> is_event(
                #[trigger] events[i],
                sessions[ids[i]],
                ids[i],
                payload,
            );
    assert(ids.to_set().contains(session_id));
    let i = choose|i: int| 0 <= i < ids.len() && ids[i] == session_id;
    assert(is_event(events[i], sessions[ids[i]], ids[i], payload));
    ids.unique_seq_to_set();
}

/// A message for an Actor that is gone fails, one that was delivered ends as its delivery,
/// and a close always succeeds.
pub proof fn law_remote_messages_end<R>(message: RemoteMessage<R>)
    ensures
        message is Gone ==> message.result_of() == Err::<(), SendError>(SendError::ActorStopped),
        message matches RemoteMessage::Delivered(delivery) ==> message.result_of()
            == delivery.result,
        message is Closed ==> message.result_of() is Ok,
{
}

} // verus!
