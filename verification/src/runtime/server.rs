//! The state of a Server and the rules by which messages reach its Actors.

use std::time::Duration;

use vstd::prelude::*;
use vstd::string::*;

use crate::actor::{ActorAddress, AddressView};
use crate::cluster::node::{AuthorityView, NodeAuthority};
use crate::error::SendError;
use crate::keyed::KeyedMap;
use crate::mailbox::{Inbox, Offer, MAX_MAILBOX_CAPACITY};
use crate::runtime::message::{fail_message, failure_reply, MailboxMessage, Registration};
use crate::runtime::route::{dispatched, put_in, went_in, Dispatch, Refusal, RouteTable, TableView};
use crate::runtime::session::SessionRegistry;

verus! {

/// Where a runtime stands between its start and its end.
#[derive(Clone, Copy, Debug, PartialEq, Eq, Structural)]
pub enum Status {
    Running,
    ShuttingDown,
    Stopped,
    Fenced,
}

/// The state of a Server. `R` is the host's handle on a caller that waits for a
/// Session to open; `T` its handle on the task of an Active Actor.
#[verifier::reject_recursive_types(R)]
pub struct ServerInner<R, T> {
    pub registrations: KeyedMap<String, Registration>,
    pub routes: RouteTable<ActorAddress, MailboxMessage<R>, T>,
    pub sessions: SessionRegistry,
    pub status: Status,
    pub deactivation_timeout: Duration,
    pub shutdown_timeout: Duration,
    pub transport_protocol_version: u32,
    pub authority: Option<NodeAuthority>,
    pub clustered: bool,
}

/// The mailbox that a registration asks for can be made.
pub open spec fn usable(registration: Registration) -> bool {
    &&& registration.mailbox_capacity matches Some(capacity)
    &&& 0 < capacity <= MAX_MAILBOX_CAPACITY
    &&& registration.idle_timeout is Some
}

/// An Actor to start: on this mailbox, under this generation.
#[verifier::reject_recursive_types(R)]
pub struct Spawn<R> {
    pub generation: u64,
    pub receiver: Inbox<MailboxMessage<R>>,
}

/// What became of a message, and what the host has to do about it: tell a
/// waiting caller, start an Actor.
#[verifier::reject_recursive_types(R)]
pub struct Delivery<R> {
    pub result: Result<(), SendError>,
    pub reply: Option<(R, SendError)>,
    pub spawn: Option<Spawn<R>>,
}

/// Why a runtime admits no message at all, if it does not.
pub open spec fn closed_to_messages(
    status: Status,
    authority: Option<AuthorityView>,
    now: u64,
) -> Option<SendError> {
    if authority matches Some(a) && !a.valid_at(now) {
        Some(SendError::NodeFenced)
    } else {
        match status {
            Status::Running => None,
            Status::ShuttingDown => Some(SendError::RuntimeShuttingDown),
            Status::Fenced => Some(SendError::NodeFenced),
            Status::Stopped => Some(SendError::RuntimeStopped),
        }
    }
}

/// What the sender of a message learns from a dispatch. A caller that waits for
/// a Session to open is told of a full mailbox and of a full runtime.
pub open spec fn delivery_of<R>(outcome: Dispatch<MailboxMessage<R>>) -> Delivery<R> {
    match outcome {
        Dispatch::Accepted => Delivery { result: Ok(()), reply: None, spawn: None },
        Dispatch::Spawned { generation, receiver, offer } => Delivery {
            result: match offer {
                Offer::Taken => Ok(()),
                Offer::Full(_) => Err(SendError::MailboxFull),
                Offer::Closed(_) => Err(SendError::ActorStopped),
            },
            reply: None,
            spawn: Some(Spawn { generation, receiver }),
        },
        Dispatch::Refused { reason, message } => match reason {
            Refusal::MailboxFull => Delivery {
                result: Err(SendError::MailboxFull),
                reply: failure_reply(message, SendError::MailboxFull),
                spawn: None,
            },
            Refusal::ActorDeactivating => Delivery {
                result: Err(SendError::ActorDeactivating),
                reply: None,
                spawn: None,
            },
            Refusal::AtCapacity => Delivery {
                result: Err(SendError::RuntimeAtCapacity),
                reply: failure_reply(message, SendError::RuntimeAtCapacity),
                spawn: None,
            },
        },
    }
}

/// What the sender of a message learns from a dispatch.
pub fn delivery<R>(outcome: Dispatch<MailboxMessage<R>>) -> (delivery: Delivery<R>)
    ensures
        delivery == delivery_of(outcome),
{
    match outcome {
        Dispatch::Accepted => Delivery { result: Ok(()), reply: None, spawn: None },
        Dispatch::Spawned { generation, receiver, offer } => Delivery {
            result: match offer {
                Offer::Taken => Ok(()),
                Offer::Full(_) => Err(SendError::MailboxFull),
                Offer::Closed(_) => Err(SendError::ActorStopped),
            },
            reply: None,
            spawn: Some(Spawn { generation, receiver }),
        },
        Dispatch::Refused { reason, message } => match reason {
            Refusal::MailboxFull => Delivery {
                result: Err(SendError::MailboxFull),
                reply: fail_message(message, SendError::MailboxFull),
                spawn: None,
            },
            Refusal::ActorDeactivating => Delivery {
                result: Err(SendError::ActorDeactivating),
                reply: None,
                spawn: None,
            },
            Refusal::AtCapacity => Delivery {
                result: Err(SendError::RuntimeAtCapacity),
                reply: fail_message(message, SendError::RuntimeAtCapacity),
                spawn: None,
            },
        },
    }
}

impl<R> Delivery<R> {
    /// The message was refused with an error and nothing else came of it.
    pub open spec fn refused(self, error: SendError) -> bool {
        self.result == Err::<(), SendError>(error) && self.reply is None && self.spawn is None
    }
}

/// `after` and `out` are what the delivery of a message comes to on a Server
/// whose routes were `before`.
pub open spec fn delivers<R, T>(
    server: ServerInner<R, T>,
    after: TableView<AddressView, MailboxMessage<R>, T>,
    address: AddressView,
    message: MailboxMessage<R>,
    reserved: bool,
    now: u64,
    out: Delivery<R>,
) -> bool {
    match closed_to_messages(server.status, server.authority_view(), now) {
        Some(error) => out.refused(error) && after == server.routes@.unreserve(reserved),
        None => exists|answer: Offer<MailboxMessage<R>>, outcome: Dispatch<MailboxMessage<R>>|
            answer.gives_back(message) && out == delivery_of(outcome) && #[trigger] dispatched(
                server.routes@,
                after,
                address,
                message,
                reserved,
                server.capacity_of(address.actor_type),
                answer,
                outcome,
            ),
    }
}

impl<R, T> ServerInner<R, T> {
    /// The lease authority, where the Server has one.
    pub open spec fn authority_view(&self) -> Option<AuthorityView> {
        match self.authority {
            Some(authority) => Some(authority@),
            None => None,
        }
    }

    /// An Actor Type is registered.
    pub open spec fn registered(&self, actor_type: Seq<char>) -> bool {
        self.registrations@.dom().contains(actor_type)
    }

    /// The messages that the mailbox of an Actor Type holds.
    pub open spec fn capacity_of(&self, actor_type: Seq<char>) -> usize {
        self.registrations@[actor_type].mailbox_capacity->0
    }

    /// The tables are sound, every registration can be used, and every live
    /// Session belongs to an Actor of a registered type.
    pub open spec fn wf(&self) -> bool {
        &&& self.registrations.wf()
        &&& self.routes.wf()
        &&& self.sessions.wf()
        &&& forall|name: Seq<char>| #[trigger]
            self.registrations@.dom().contains(name) ==> usable(self.registrations@[name])
        &&& forall|address: AddressView| #[trigger]
            self.sessions@.dom().contains(address) ==> self.registered(address.actor_type)
    }

    /// Nothing but the routes changed.
    pub open spec fn same_but_routes(&self, before: &Self) -> bool {
        *self == (ServerInner { routes: self.routes, ..*before })
    }

    /// Nothing but the Sessions changed.
    pub open spec fn same_but_sessions(&self, before: &Self) -> bool {
        *self == (ServerInner { sessions: self.sessions, ..*before })
    }

    /// Nothing but the routes and the Sessions changed.
    pub open spec fn same_but_traffic(&self, before: &Self) -> bool {
        *self == (ServerInner { routes: self.routes, sessions: self.sessions, ..*before })
    }

    /// Why the Server admits no message at all at this moment, if it does not.
    pub fn closed_to_messages(&self, now: u64) -> (error: Option<SendError>)
        ensures
            error == closed_to_messages(self.status, self.authority_view(), now),
    {
        if let Some(authority) = &self.authority {
            if !authority.is_valid(now) {
                return Some(SendError::NodeFenced);
            }
        }
        match self.status {
            Status::Running => None,
            Status::ShuttingDown => Some(SendError::RuntimeShuttingDown),
            Status::Fenced => Some(SendError::NodeFenced),
            Status::Stopped => Some(SendError::RuntimeStopped),
        }
    }

    /// Whether the Server may still answer for its Actors.
    pub fn has_authority(&self, now: u64) -> (authority: bool)
        ensures
            authority == (self.status != Status::Fenced && (self.authority_view() matches Some(a)
                ==> a.valid_at(now))),
    {
        if self.status == Status::Fenced {
            return false;
        }
        match &self.authority {
            Some(authority) => authority.is_valid(now),
            None => true,
        }
    }

    /// The mailbox capacity of an Actor Type.
    fn mailbox_capacity(&self, address: &ActorAddress) -> (capacity: usize)
        requires
            self.wf(),
            self.registered(address@.actor_type),
        ensures
            0 < capacity <= MAX_MAILBOX_CAPACITY,
            self.registrations@[address@.actor_type].mailbox_capacity == Some(capacity),
    {
        let name = address.actor_type().to_owned();
        assert(name@ == address@.actor_type);
        let registration = self.registrations.get(&name).unwrap();
        registration.mailbox_capacity.unwrap()
    }

    /// Brings a message to the Actor at `address`, which is activated if it is
    /// not active. `reserved` tells whether the caller holds a reservation for
    /// the route; it is used up or given up.
    pub fn dispatch_message(
        &mut self,
        address: &ActorAddress,
        message: MailboxMessage<R>,
        reserved: bool,
        now: u64,
    ) -> (out: Delivery<R>)
        requires
            old(self).wf(),
            closed_to_messages(old(self).status, old(self).authority_view(), now) is None ==> old(
                self,
            ).registered(address@.actor_type),
            reserved ==> old(self).routes@.reserved > 0,
        ensures
            final(self).wf(),
            final(self).same_but_routes(old(self)),
            delivers(*old(self), final(self).routes@, address@, message, reserved, now, out),
    {
        if let Some(error) = self.closed_to_messages(now) {
            if reserved {
                self.routes.cancel_reservation();
            }
            return Delivery { result: Err(error), reply: None, spawn: None };
        }
        let capacity: usize = self.mailbox_capacity(address);
        assert(capacity == self.capacity_of(address@.actor_type));
        let outcome = self.routes.dispatch(address, message, reserved, capacity);
        delivery(outcome)
    }

    /// Offers a message to the Actor at `address` if it is active.
    pub fn offer_if_active(
        &mut self,
        address: &ActorAddress,
        message: MailboxMessage<R>,
    ) -> (answer: Option<Offer<MailboxMessage<R>>>)
        requires
            old(self).wf(),
        ensures
            final(self).wf(),
            final(self).same_but_routes(old(self)),
            answer is Some == old(self).active(address@),
            match answer {
                Some(offer) => put_in(
                    old(self).routes@,
                    final(self).routes@,
                    address@,
                    message,
                    offer,
                ),
                None => final(self).routes@ == old(self).routes@,
            },
    {
        self.routes.offer_if_active(address, message)
    }

    /// Brings a message to the Actor at `address` only if it is active; an
    /// inactive address is no error.
    pub fn dispatch_message_if_active(
        &mut self,
        address: &ActorAddress,
        message: MailboxMessage<R>,
    ) -> (result: Result<(), SendError>)
        requires
            old(self).wf(),
        ensures
            final(self).wf(),
            final(self).same_but_routes(old(self)),
            !old(self).active(address@) ==> result is Ok && final(self).routes@
                == old(self).routes@,
            old(self).active(address@) ==> exists|answer: Offer<MailboxMessage<R>>|
                #[trigger] put_in(
                    old(self).routes@,
                    final(self).routes@,
                    address@,
                    message,
                    answer,
                ) && result == offer_result_of(answer),
    {
        match self.offer_if_active(address, message) {
            Some(answer) => offer_result(answer),
            None => Ok(()),
        }
    }

    /// An Active Actor that takes messages has a route.
    pub open spec fn active(&self, address: AddressView) -> bool {
        self.routes@.active(address)
    }
}

/// A message that is reported as delivered went into the mailbox of its Actor
/// once.
pub proof fn law_delivered_messages_went_in<R, T>(
    server: ServerInner<R, T>,
    after: TableView<AddressView, MailboxMessage<R>, T>,
    address: AddressView,
    message: MailboxMessage<R>,
    reserved: bool,
    now: u64,
    out: Delivery<R>,
)
    requires
        delivers(server, after, address, message, reserved, now, out),
        out.result is Ok,
    ensures
        went_in(server.routes@, after, address, message),
{
}

/// What the sender of a message learns from the mailbox it was offered to.
pub open spec fn offer_result_of<M>(offer: Offer<M>) -> Result<(), SendError> {
    match offer {
        Offer::Taken => Ok(()),
        Offer::Full(_) => Err(SendError::MailboxFull),
        Offer::Closed(_) => Err(SendError::ActorStopped),
    }
}

/// What the sender of a message learns from the mailbox it was offered to.
pub fn offer_result<M>(offer: Offer<M>) -> (result: Result<(), SendError>)
    ensures
        result == offer_result_of(offer),
{
    match offer {
        Offer::Taken => Ok(()),
        Offer::Full(_) => Err(SendError::MailboxFull),
        Offer::Closed(_) => Err(SendError::ActorStopped),
    }
}

/// A Server is closed to messages for the reason that holds: its authority ran out or was
/// given up, it shuts down, it was fenced, or it has stopped. Without any of these it is
/// open.
pub proof fn law_closed_servers_say_why(
    status: Status,
    authority: Option<AuthorityView>,
    now: u64,
)
    ensures
        ({
            let lost = authority is Some && !(authority->0.unfenced && now < authority->0.deadline);
            let closed = closed_to_messages(status, authority, now);
            &&& lost ==> closed == Some(SendError::NodeFenced)
            &&& !lost ==> {
                &&& status == Status::Running ==> closed is None
                &&& status == Status::ShuttingDown ==> closed == Some(
                    SendError::RuntimeShuttingDown,
                )
                &&& status == Status::Fenced ==> closed == Some(SendError::NodeFenced)
                &&& status == Status::Stopped ==> closed == Some(SendError::RuntimeStopped)
            }
        }),
{
}

/// The sender of a message learns that it was delivered exactly if a mailbox took it, and
/// otherwise why not. Whoever waits for a Session to open is told of a full mailbox and of
/// a full Server. An Actor is started exactly if the dispatch made a route.
pub proof fn law_senders_learn_what_became_of_a_message<R>(
    outcome: Dispatch<MailboxMessage<R>>,
    complete: R,
    session_id: crate::runtime::session::SessionId,
)
    ensures
        delivery_of(outcome).result is Ok <==> outcome is Accepted || (outcome is Spawned
            && outcome->offer is Taken),
        delivery_of(outcome).spawn is Some <==> outcome is Spawned,
        outcome matches Dispatch::Spawned { generation, receiver, .. } ==> delivery_of(
            outcome,
        ).spawn->0.generation == generation && delivery_of(outcome).spawn->0.receiver == receiver,
        outcome matches Dispatch::Refused { reason, message } ==> {
            let told = delivery_of(outcome);
            &&& reason == Refusal::MailboxFull ==> told.result == Err::<(), SendError>(
                SendError::MailboxFull,
            )
            &&& reason == Refusal::ActorDeactivating ==> told.result == Err::<(), SendError>(
                SendError::ActorDeactivating,
            ) && told.reply is None
            &&& reason == Refusal::AtCapacity ==> told.result == Err::<(), SendError>(
                SendError::RuntimeAtCapacity,
            )
            &&& reason != Refusal::ActorDeactivating && message
                == (MailboxMessage::SessionOpened { session_id, complete }) ==> told.reply == Some(
                (complete, told.result->Err_0),
            )
            &&& !(message is SessionOpened) ==> told.reply is None
        },
        outcome matches Dispatch::Spawned { offer, .. } ==> (offer is Full ==> delivery_of(
            outcome,
        ).result == Err::<(), SendError>(SendError::MailboxFull)) && (offer is Closed
            ==> delivery_of(outcome).result == Err::<(), SendError>(SendError::ActorStopped)),
{
}

/// A closed Server delivers nothing: no mailbox is touched, no Actor is started, and the
/// sender learns why. A reservation is given up all the same.
pub proof fn law_closed_servers_deliver_nothing<R, T>(
    server: ServerInner<R, T>,
    after: TableView<AddressView, MailboxMessage<R>, T>,
    address: AddressView,
    message: MailboxMessage<R>,
    reserved: bool,
    now: u64,
    out: Delivery<R>,
)
    requires
        delivers(server, after, address, message, reserved, now, out),
        server.status != Status::Running || (server.authority_view() is Some
            && !server.authority_view()->0.valid_at(now)),
        reserved ==> server.routes@.reserved > 0,
    ensures
        out.result is Err,
        out.spawn is None && out.reply is None,
        after.routes == server.routes@.routes,
        after.reserved == server.routes@.reserved - if reserved {
            1int
        } else {
            0
        },
{
}

/// A Server that runs with authority hands every message to the routes: the first message
/// for an Actor that is not active starts it if a permit is free, on a mailbox of the
/// capacity it is registered with.
pub proof fn law_open_servers_start_actors<R, T>(
    server: ServerInner<R, T>,
    after: TableView<AddressView, MailboxMessage<R>, T>,
    address: AddressView,
    message: MailboxMessage<R>,
    now: u64,
    out: Delivery<R>,
)
    requires
        delivers(server, after, address, message, false, now, out),
        server.status == Status::Running,
        server.authority_view() is Some ==> server.authority_view()->0.valid_at(now),
        server.routes@.bounded(),
        !server.routes@.routes.dom().contains(address),
    ensures
        server.routes@.available() == 0 ==> out.result == Err::<(), SendError>(
            SendError::RuntimeAtCapacity,
        ) && out.spawn is None && after == server.routes@,
        server.routes@.available() > 0 ==> {
            &&& out.spawn is Some && out.spawn->0.generation == server.routes@.next_generation
            &&& after.routes.dom() == server.routes@.routes.dom().insert(address)
            &&& server.registered(address.actor_type) ==> after.routes[address].sender@.capacity
                == server.registrations@[address.actor_type].mailbox_capacity->0
        },
{
}

/// What a mailbox answered is what the sender learns.
pub proof fn law_answers_are_told<M>(offer: Offer<M>)
    ensures
        offer_result_of(offer) is Ok <==> offer is Taken,
        offer is Full ==> offer_result_of(offer) == Err::<(), SendError>(SendError::MailboxFull),
        offer is Closed ==> offer_result_of(offer) == Err::<(), SendError>(SendError::ActorStopped),
{
}

/// Where nothing but the routes, the Sessions or the traffic of a Server is said to change,
/// its configuration, its status and its authority stay, and so does the rest of these.
pub proof fn law_servers_keep_what_they_are<R, T>(
    before: ServerInner<R, T>,
    after: ServerInner<R, T>,
)
    ensures
        after.same_but_routes(&before) || after.same_but_sessions(&before)
            || after.same_but_traffic(&before) ==> {
            &&& after.registrations == before.registrations
            &&& after.status == before.status
            &&& after.authority == before.authority
            &&& after.clustered == before.clustered
            &&& after.deactivation_timeout == before.deactivation_timeout
            &&& after.shutdown_timeout == before.shutdown_timeout
            &&& after.transport_protocol_version == before.transport_protocol_version
        },
        after.same_but_routes(&before) ==> after.sessions == before.sessions,
        after.same_but_sessions(&before) ==> after.routes == before.routes,
{
}

/// A mailbox that can be made holds at least one message and no more than the bound, and its
/// Actor has an idle timeout.
pub proof fn law_usable_registrations(registration: Registration)
    ensures
        usable(registration) <==> registration.mailbox_capacity is Some
            && registration.mailbox_capacity->0 > 0 && registration.mailbox_capacity->0
            <= MAX_MAILBOX_CAPACITY && registration.idle_timeout is Some,
{
}

} // verus!
