//! Sessions as their callers see them.

use vstd::prelude::*;
use vstd::string::*;

use crate::actor::{ActorAddress, AddressView};
use crate::error::{same_error, SendError};
use crate::keyed::{Key, KeyedMap};
use crate::mailbox::{Mailbox, MailboxView, Offer};
use crate::runtime::session::SessionId;
use crate::transport_protocol::{CloseReason, Envelope, Kind, TRANSPORT_PROTOCOL_VERSION};

verus! {

/// The Events that a Session holds before more are dropped.
pub const SESSION_RECEIVER_CAPACITY: usize = 64;

/// What a caller receives: an Event, or the error that ends the Session.
pub type SessionItem = Result<Vec<u8>, SendError>;

/// The live Sessions of a Client, and the channel over which the caller of each
/// receives.
pub struct CallerRegistry {
    receivers: KeyedMap<SessionId, Mailbox<SessionItem>>,
}

/// The channels of Sessions as a mathematical value.
pub type CallersView = Map<Seq<u8>, MailboxView<SessionItem>>;

impl View for CallerRegistry {
    type V = CallersView;

    closed spec fn view(&self) -> CallersView {
        self.receivers@.map_values(|sender: Mailbox<SessionItem>| sender@)
    }
}

/// The end of a Session: the channel of its caller, which is given up, and how it
/// answered when it was offered the error.
pub struct Ended {
    pub channel: Mailbox<SessionItem>,
    pub answer: Offer<SessionItem>,
}

impl Ended {
    /// The caller of a Session was offered the error that ended it.
    pub open spec fn told(&self, channel: MailboxView<SessionItem>, error: SendError) -> bool {
        exists|copy: SendError| #[trigger]
            same_error(error, copy) && self.answer.gives_back(Err(copy)) && self.channel@
                == channel.offered(Err(copy), self.answer)
    }
}

/// Every one of the Sessions, each once, was ended with the error.
pub open spec fn all_ended(callers: CallersView, ended: Seq<Ended>, error: SendError) -> bool {
    exists|ids: Seq<Seq<u8>>| #[trigger]
        ids.no_duplicates() && ids.to_set() == callers.dom() && ids.len() == ended.len()
            && forall|i: int|
            0 <= i < ended.len() ==> (#[trigger] ended[i]).told(callers[ids[i]], error)
}

impl CallerRegistry {
    /// No Session is listed twice.
    pub closed spec fn wf(&self) -> bool {
        self.receivers.wf()
    }

    /// The Sessions are finitely many.
    pub proof fn lemma_finite(&self)
        requires
            self.wf(),
        ensures
            self@.dom().finite(),
    {
        self.receivers.lemma_order();
        assert(self@.dom() =~= self.receivers@.dom());
    }

    /// A registry without Sessions.
    pub fn new() -> (registry: Self)
        ensures
            registry.wf(),
            registry@ == CallersView::empty(),
    {
        let registry = CallerRegistry { receivers: KeyedMap::new() };
        assert(registry@ =~= CallersView::empty());
        registry
    }

    /// Lists a Session with the channel that its caller receives from.
    pub fn register_local(&mut self, session_id: SessionId, sender: Mailbox<SessionItem>)
        requires
            old(self).wf(),
        ensures
            final(self).wf(),
            final(self)@ == old(self)@.insert(session_id@, sender@),
    {
        self.receivers.insert(session_id, sender);
        assert(self@ =~= old(self)@.insert(session_id@, sender@));
    }

    /// Takes a Session off the list.
    pub fn unregister_local(&mut self, session_id: &SessionId)
        requires
            old(self).wf(),
        ensures
            final(self).wf(),
            final(self)@ == old(self)@.remove(session_id@),
    {
        self.receivers.remove(session_id);
        assert(self@ =~= old(self)@.remove(session_id@));
    }

    /// Hands an item to the caller of a Session, if the Session is listed.
    pub fn deliver(&mut self, session_id: &SessionId, item: SessionItem) -> (answer: Option<
        Offer<SessionItem>,
    >)
        requires
            old(self).wf(),
        ensures
            final(self).wf(),
            answer is Some == old(self)@.dom().contains(session_id@),
            match answer {
                Some(offer) => {
                    &&& offer.gives_back(item)
                    &&& final(self)@ == old(self)@.insert(
                        session_id@,
                        old(self)@[session_id@].offered(item, offer),
                    )
                },
                None => *final(self) == *old(self),
            },
    {
        if !self.receivers.contains(session_id) {
            return None;
        }
        match self.receivers.get_mut(session_id) {
            Some(sender) => {
                let answer = sender.put(item);
                assert(self@ =~= old(self)@.insert(
                    session_id@,
                    old(self)@[session_id@].offered(item, answer),
                ));
                Some(answer)
            },
            None => None,
        }
    }

    /// Ends a Session with an error: it is taken off the list, and its caller
    /// gets the error.
    pub fn terminate(&mut self, session_id: &SessionId, error: SendError) -> (ended: Option<Ended>)
        requires
            old(self).wf(),
        ensures
            final(self).wf(),
            final(self)@ == old(self)@.remove(session_id@),
            ended is Some == old(self)@.dom().contains(session_id@),
            ended matches Some(ended) ==> ended.answer.gives_back(Err(error)) && ended.channel@
                == old(self)@[session_id@].offered(Err(error), ended.answer),
    {
        match self.receivers.remove(session_id) {
            Some(mut channel) => {
                let answer = channel.put(Err(error));
                assert(self@ =~= old(self)@.remove(session_id@));
                Some(Ended { channel, answer })
            },
            None => {
                assert(self@ =~= old(self)@.remove(session_id@));
                None
            },
        }
    }

    /// Ends all Sessions with an error.
    pub fn terminate_all(&mut self, error: &SendError) -> (ended: Vec<Ended>)
        requires
            old(self).wf(),
        ensures
            final(self).wf(),
            final(self)@ == CallersView::empty(),
            all_ended(old(self)@, ended@, *error),
    {
        let ids = self.receivers.keys();
        proof {
            self.receivers.lemma_order();
            assert(self@.dom() =~= self.receivers@.dom());
        }
        let ghost before = self@;
        let ghost order = self.receivers.order();
        let mut ended: Vec<Ended> = Vec::new();
        let mut i: usize = 0;
        assert(ids@.len() == order.len());
        while i < ids.len()
            invariant
                self.wf(),
                i <= ids@.len(),
                order == ids@.map_values(|s: SessionId| s@),
                order.no_duplicates(),
                order.to_set() == before.dom(),
                forall|s: Seq<u8>| #[trigger]
                    self@.dom().contains(s) <==> before.dom().contains(s) && !(exists|j: int|
                        0 <= j < i && order[j] == s),
                forall|s: Seq<u8>| #[trigger]
                    self@.dom().contains(s) ==> self@[s] == before[s],
                ended@.len() == i,
                forall|k: int|
                    0 <= k < ended@.len() ==> (#[trigger] ended@[k]).told(
                        before[order[k]],
                        *error,
                    ),
            decreases ids@.len() - i,
        {
            let copy = error.duplicate();
            assert(order[i as int] == ids@[i as int]@);
            assert(order.to_set().contains(order[i as int]));
            assert(self@.dom().contains(order[i as int]));
            match self.terminate(&ids[i], copy) {
                Some(end) => {
                    assert(same_error(*error, copy));
                    assert(end.told(before[order[i as int]], *error));
                    ended.push(end);
                },
                None => {
                    assert(false);
                },
            }
            i += 1;
        }
        proof {
            assert forall|s: Seq<u8>| !self@.dom().contains(s) by {
                if self@.dom().contains(s) {
                    assert(order.to_set().contains(s));
                    let j = choose|j: int| 0 <= j < order.len() && order[j] == s;
                }
            }
            assert(self@ =~= CallersView::empty());
            assert(order.no_duplicates() && order.to_set() == before.dom() && order.len()
                == ended@.len());
        }
        ended
    }
}

/// A message of a caller on a Session of an Actor.
pub open spec fn is_request(
    envelope: Envelope,
    address: AddressView,
    session_id: Seq<u8>,
    kind: Kind,
) -> bool {
    &&& envelope.protocol_version == TRANSPORT_PROTOCOL_VERSION
    &&& envelope.actor_type@ == address.actor_type
    &&& envelope.actor_id@ == vstd::utf8::encode_utf8(address.actor_id)
    &&& envelope.session_id@ == session_id
    &&& envelope.kind == Some(kind)
}

fn request(address: &ActorAddress, session_id: SessionId, kind: Kind) -> (envelope: Envelope)
    ensures
        is_request(envelope, address@, session_id@, kind),
{
    Envelope {
        protocol_version: TRANSPORT_PROTOCOL_VERSION,
        actor_type: address.actor_type().to_owned(),
        actor_id: address.actor_id().as_bytes_vec(),
        session_id: session_id.as_bytes(),
        kind: Some(kind),
    }
}

/// The request to open a Session.
pub fn envelope_session_open(address: &ActorAddress, session_id: SessionId) -> (envelope: Envelope)
    ensures
        is_request(envelope, address@, session_id@, Kind::SessionOpen),
{
    request(address, session_id, Kind::SessionOpen)
}

/// An Action.
pub fn envelope_action(address: &ActorAddress, session_id: SessionId, payload: Vec<u8>) -> (
    envelope: Envelope)
    ensures
        is_request(envelope, address@, session_id@, Kind::Action { payload }),
{
    request(address, session_id, Kind::Action { payload })
}

/// The notice that the caller is done with a Session.
pub fn envelope_session_close(address: &ActorAddress, session_id: SessionId) -> (envelope: Envelope)
    ensures
        is_request(
            envelope,
            address@,
            session_id@,
            Kind::SessionClose { reason: CloseReason::CallerDropped.code() },
        ),
{
    request(
        address,
        session_id,
        Kind::SessionClose { reason: CloseReason::CallerDropped.to_code() },
    )
}

/// What a caller writes, the Owner reads: the same Session, the same Actor and
/// the same kind of message, in the version that the caller speaks.
pub proof fn law_the_owner_reads_what_the_caller_wrote(
    envelope: Envelope,
    address: AddressView,
    session_id: Seq<u8>,
    kind: Kind,
)
    requires
        is_request(envelope, address, session_id, kind),
        crate::actor::valid_address(address),
        session_id.len() == 16,
    ensures
        crate::runtime::inbound::request_of(envelope, TRANSPORT_PROTOCOL_VERSION) == Some(
            crate::runtime::inbound::Request {
                kind,
                session_id,
                address,
                speaks_our_version: true,
            },
        ),
{
    crate::runtime::inbound::law_envelope_names_the_address(address);
}

/// A message of a caller carries the version, the Session, the Actor and what is asked.
pub proof fn law_requests_name_session_and_actor(
    envelope: Envelope,
    address: AddressView,
    session_id: Seq<u8>,
    kind: Kind,
)
    requires
        is_request(envelope, address, session_id, kind),
    ensures
        envelope.protocol_version == 2,
        envelope.actor_type@ == address.actor_type,
        envelope.actor_id@ == vstd::utf8::encode_utf8(address.actor_id),
        envelope.session_id@ == session_id,
        envelope.kind == Some(kind),
{
}

/// When all Sessions end, every caller is offered the error, each over its own channel, and
/// nobody twice.
pub proof fn law_every_caller_is_told(
    callers: CallersView,
    ended: Seq<Ended>,
    error: SendError,
    session_id: Seq<u8>,
)
    requires
        all_ended(callers, ended, error),
        callers.dom().contains(session_id),
    ensures
        ended.len() == callers.dom().len(),
        exists|i: int, copy: SendError|
            0 <= i < ended.len() && same_error(error, copy) && (
            #[trigger] ended[i]).answer.gives_back(Err(copy)) && ended[i].channel@
                == #[trigger] callers[session_id].offered(Err(copy), ended[i].answer),
{
    let ids = choose|ids: Seq<Seq<u8>>| #[trigger]
        ids.no_duplicates() && ids.to_set() == callers.dom() && ids.len() == ended.len()
            && forall|i: int|
            0 <= i < ended.len() ==> (#[trigger] ended[i]).told(callers[ids[i]], error);
    ids.unique_seq_to_set();
    assert(ids.to_set().contains(session_id));
    let i = choose|i: int| 0 <= i < ids.len() && ids[i] == session_id;
    assert(ended[i].told(callers[ids[i]], error));
    let copy = choose|copy: SendError| #[trigger]
        same_error(error, copy) && ended[i].answer.gives_back(Err(copy)) && ended[i].channel@
            == callers[session_id].offered(Err(copy), ended[i].answer);
    assert(ended[i].answer.gives_back(Err(copy)));
}

} // verus!
