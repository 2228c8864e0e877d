//! Bounded mailboxes: the channels through which messages reach an Active Actor.

use tokio::sync::mpsc;
use vstd::prelude::*;

verus! {

/// The most messages that a mailbox can be made to hold.
pub const MAX_MAILBOX_CAPACITY: usize = usize::MAX / 8;

/// The sending half of a bounded channel of tokio.
#[verifier::external_type_specification]
#[verifier::external_body]
#[verifier::reject_recursive_types(T)]
pub struct ExMailboxSender<T>(mpsc::Sender<T>);

/// The receiving half of a bounded channel of tokio.
#[verifier::external_type_specification]
#[verifier::external_body]
#[verifier::reject_recursive_types(T)]
pub struct ExMailboxReceiver<T>(mpsc::Receiver<T>);

/// What became of a message that was offered to a mailbox.
pub enum Offer<M> {
    /// The mailbox took it.
    Taken,
    /// The mailbox is full; the message comes back.
    Full(M),
    /// The Actor is gone; the message comes back.
    Closed(M),
}

impl<M> Offer<M> {
    /// A message that was not taken is the one that was offered.
    pub open spec fn gives_back(self, message: M) -> bool {
        match self {
            Offer::Taken => true,
            Offer::Full(returned) => returned == message,
            Offer::Closed(returned) => returned == message,
        }
    }
}

/// The sending half of a mailbox as a mathematical value: the channel it leads
/// to, the messages that the channel was made to hold, how it answered the offers
/// that were made through this half, what went in through it, and how much room
/// was found each time one looked, in order.
#[verifier::ext_equal]
pub struct MailboxView<M> {
    pub channel: int,
    pub capacity: nat,
    pub answers: Seq<Offer<M>>,
    pub gone_in: Seq<M>,
    pub looks: Seq<usize>,
}

/// The receiving half of a mailbox as a mathematical value: the channel it
/// belongs to, whether it was closed, the most messages that still come out of it
/// if it was, what was taken out, in order, and whether the last look at it found
/// nothing.
#[verifier::ext_equal]
pub struct InboxView<M> {
    pub channel: int,
    pub closed: bool,
    pub left: nat,
    pub taken_out: Seq<M>,
    pub found_empty: bool,
}

impl<M> MailboxView<M> {
    /// The half after a message was offered: only a message that was taken went
    /// in.
    pub open spec fn offered(self, message: M, offer: Offer<M>) -> Self {
        MailboxView {
            answers: self.answers.push(offer),
            gone_in: if offer is Taken {
                self.gone_in.push(message)
            } else {
                self.gone_in
            },
            ..self
        }
    }

    /// The half after one looked how much room is left.
    pub open spec fn looked(self, free: usize) -> Self {
        MailboxView { looks: self.looks.push(free), ..self }
    }

    /// A half through which nothing was offered.
    pub open spec fn fresh(channel: int, capacity: nat) -> Self {
        MailboxView {
            channel,
            capacity,
            answers: Seq::empty(),
            gone_in: Seq::empty(),
            looks: Seq::empty(),
        }
    }
}

impl<M> InboxView<M> {
    /// A half that nothing was taken out of.
    pub open spec fn fresh(channel: int) -> Self {
        InboxView { channel, closed: false, left: 0, taken_out: Seq::empty(), found_empty: false }
    }

    /// The half once it is closed, when at most `left` messages still come out.
    pub open spec fn shut(self, left: nat) -> Self {
        InboxView { closed: true, left, ..self }
    }
}

/// The sending half of a mailbox. The record of what was offered is kept for
/// proofs alone.
#[verifier::reject_recursive_types(M)]
pub struct Mailbox<M> {
    sender: mpsc::Sender<M>,
    log: Ghost<MailboxView<M>>,
}

/// The receiving half of a mailbox. The record of what was taken out is kept for
/// proofs alone.
#[verifier::reject_recursive_types(M)]
pub struct Inbox<M> {
    receiver: mpsc::Receiver<M>,
    log: Ghost<InboxView<M>>,
}

impl<M> View for Mailbox<M> {
    type V = MailboxView<M>;

    closed spec fn view(&self) -> MailboxView<M> {
        self.log@
    }
}

impl<M> View for Inbox<M> {
    type V = InboxView<M>;

    closed spec fn view(&self) -> InboxView<M> {
        self.log@
    }
}

/// `tokio::sync::mpsc::channel`: the two halves of one new channel that holds up
/// to `capacity` messages. The call panics on a capacity of zero and on one above
/// an eighth of the address space.
#[verifier::external_body]
fn made<M>(capacity: usize) -> (halves: (Mailbox<M>, Inbox<M>))
    requires
        0 < capacity <= MAX_MAILBOX_CAPACITY,
    ensures
        halves.0@ == MailboxView::<M>::fresh(halves.1@.channel, capacity as nat),
        halves.1@ == InboxView::<M>::fresh(halves.1@.channel),
{
    let (sender, receiver) = mpsc::channel(capacity);
    (Mailbox { sender, log: Ghost(arbitrary()) }, Inbox { receiver, log: Ghost(arbitrary()) })
}

/// Makes a mailbox that holds up to `capacity` messages: its two halves.
pub fn mailbox<M>(capacity: usize) -> (halves: (Mailbox<M>, Inbox<M>))
    requires
        0 < capacity <= MAX_MAILBOX_CAPACITY,
    ensures
        halves.0@ == MailboxView::<M>::fresh(halves.1@.channel, capacity as nat),
        halves.1@ == InboxView::<M>::fresh(halves.1@.channel),
{
    made(capacity)
}

impl<M> Mailbox<M> {
    /// `tokio::sync::mpsc::Sender::try_send`: takes the message, or hands the same
    /// message back because the channel is full or because its receiver is gone.
    /// Which of the three happens depends on the other tasks that use the channel.
    #[verifier::external_body]
    pub(crate) fn put(&mut self, message: M) -> (offer: Offer<M>)
        ensures
            offer.gives_back(message),
            final(self)@ == old(self)@.offered(message, offer),
    {
        match self.sender.try_send(message) {
            Ok(()) => Offer::Taken,
            Err(mpsc::error::TrySendError::Full(message)) => Offer::Full(message),
            Err(mpsc::error::TrySendError::Closed(message)) => Offer::Closed(message),
        }
    }

    /// `tokio::sync::mpsc::Sender::max_capacity`: the capacity that the channel was
    /// made with.
    #[verifier::external_body]
    pub(crate) fn limit(&self) -> (limit: usize)
        ensures
            limit == self@.capacity,
    {
        self.sender.max_capacity()
    }

    /// `tokio::sync::mpsc::Sender::capacity`: how many more messages the channel
    /// takes at this moment, which are never more than it was made for. Other tasks
    /// change the number.
    #[verifier::external_body]
    pub(crate) fn free(&mut self) -> (free: usize)
        ensures
            free <= old(self)@.capacity,
            final(self)@ == old(self)@.looked(free),
    {
        self.sender.capacity()
    }

    /// `tokio::sync::mpsc::Sender::clone`: another sending half of the same channel.
    #[verifier::external_body]
    fn another(&self) -> (half: Self)
        ensures
            half@ == MailboxView::<M>::fresh(self@.channel, self@.capacity),
    {
        Mailbox { sender: self.sender.clone(), log: Ghost(arbitrary()) }
    }
}

impl<M> Clone for Mailbox<M> {
    /// Another sending half of the same mailbox, through which nothing went in
    /// yet.
    fn clone(&self) -> (half: Self)
        ensures
            half@ == MailboxView::<M>::fresh(self@.channel, self@.capacity),
    {
        self.another()
    }
}

impl<M> Inbox<M> {
    /// The half of tokio that is wrapped here.
    pub closed spec fn half(&self) -> mpsc::Receiver<M> {
        self.receiver
    }

    /// Hands out the half of tokio, for a host that awaits messages on it. Nothing
    /// is known any more of what was taken out, nor whether the half is closed.
    pub fn receiver(&mut self) -> (half: &mut mpsc::Receiver<M>)
        ensures
            *half == old(self).half(),
            final(self).half() == *final(half),
            !final(self)@.closed,
    {
        self.log = Ghost(InboxView { closed: false, ..self.log@ });
        &mut self.receiver
    }

    /// `tokio::sync::mpsc::Receiver::close`: from now on the channel takes no
    /// message. What it holds can still be received, so that some number bounds what
    /// comes out from now on.
    #[verifier::external_body]
    pub(crate) fn close(&mut self)
        ensures
            final(self)@ == old(self)@.shut(final(self)@.left),
    {
        self.receiver.close();
    }

    /// `tokio::sync::mpsc::Receiver::try_recv`: the next message, if one is there.
    /// Which one depends on what other tasks have sent. A closed channel takes no
    /// more, so that each message that comes out leaves one less to come.
    #[verifier::external_body]
    fn next_pending(&mut self) -> (message: Option<M>)
        ensures
            old(self)@.closed && message is Some ==> old(self)@.left > 0,
            final(self)@ == match message {
                Some(message) => InboxView {
                    left: (old(self)@.left - 1) as nat,
                    taken_out: old(self)@.taken_out.push(message),
                    found_empty: false,
                    ..old(self)@
                },
                None => InboxView { found_empty: true, ..old(self)@ },
            },
    {
        self.receiver.try_recv().ok()
    }
}

/// `after` is what is left of a mailbox once the messages were taken out: it was
/// found empty.
pub open spec fn emptied<M>(before: InboxView<M>, after: InboxView<M>, messages: Seq<M>) -> bool {
    after == (InboxView {
        left: after.left,
        taken_out: before.taken_out + messages,
        found_empty: true,
        ..before
    })
}

/// `after` is the receiving half of an Actor that ends or goes on: at its end the
/// mailbox is closed and all that is left in it, `pending`, is taken out; otherwise
/// it is left alone.
pub open spec fn closed_out<M>(
    ends: bool,
    before: InboxView<M>,
    after: InboxView<M>,
    pending: Seq<M>,
) -> bool {
    if ends {
        emptied(before.shut(after.left), after, pending)
    } else {
        pending.len() == 0 && after == before
    }
}

/// Takes out what is left in a closed mailbox, in the order in which it was put
/// in, until nothing is left. Which messages it holds depends on what other tasks
/// have sent.
pub(crate) fn take_pending<M>(inbox: &mut Inbox<M>) -> (messages: Vec<M>)
    requires
        old(inbox)@.closed,
    ensures
        emptied(old(inbox)@, final(inbox)@, messages@),
{
    let mut messages: Vec<M> = Vec::new();
    let ghost before = inbox@;
    assert(before.taken_out + messages@ =~= before.taken_out);
    loop
        invariant
            before == old(inbox)@,
            before.closed,
            inbox@ == (InboxView {
                left: inbox@.left,
                taken_out: before.taken_out + messages@,
                found_empty: inbox@.found_empty,
                ..before
            }),
        decreases inbox@.left,
    {
        let ghost taken = messages@;
        match inbox.next_pending() {
            Some(message) => {
                messages.push(message);
                assert(before.taken_out + messages@ =~= (before.taken_out + taken).push(message));
            },
            None => {
                return messages;
            },
        }
    }
}

/// An offer is answered once. A message that was taken went in behind the others, and
/// one that was not went in nowhere; the channel and its capacity stay.
pub proof fn law_offers_are_recorded<M>(mailbox: MailboxView<M>, message: M, offer: Offer<M>)
    ensures
        mailbox.offered(message, offer).answers.len() == mailbox.answers.len() + 1,
        mailbox.offered(message, offer).answers.last() == offer,
        offer is Taken ==> mailbox.offered(message, offer).gone_in == mailbox.gone_in.push(message),
        !(offer is Taken) ==> mailbox.offered(message, offer).gone_in == mailbox.gone_in,
        mailbox.offered(message, offer).channel == mailbox.channel,
        mailbox.offered(message, offer).capacity == mailbox.capacity,
        offer == Offer::Full(message) || offer == Offer::Closed(message) || offer is Taken
            <==> offer.gives_back(message),
{
}

/// A mailbox that an Actor leaves behind is closed and was found empty, and everything
/// that came out of it is pending; one that an Actor goes on with is left alone.
pub proof fn law_mailboxes_are_left_closed_and_empty<M>(
    ends: bool,
    before: InboxView<M>,
    after: InboxView<M>,
    pending: Seq<M>,
)
    requires
        closed_out(ends, before, after, pending),
    ensures
        ends ==> after.closed && after.found_empty && after.taken_out == before.taken_out + pending,
        !ends ==> after == before && pending.len() == 0,
        after.channel == before.channel,
{
}

/// A look at a mailbox is noted and changes nothing in it; a new mailbox was offered nothing
/// and looked at by nobody, and nothing came out of it.
pub proof fn law_looks_change_nothing<M>(mailbox: MailboxView<M>, free: usize, channel: int, capacity: nat)
    ensures
        mailbox.looked(free).looks == mailbox.looks.push(free),
        mailbox.looked(free).answers == mailbox.answers,
        mailbox.looked(free).gone_in == mailbox.gone_in,
        mailbox.looked(free).channel == mailbox.channel,
        mailbox.looked(free).capacity == mailbox.capacity,
        MailboxView::<M>::fresh(channel, capacity).channel == channel,
        MailboxView::<M>::fresh(channel, capacity).capacity == capacity,
        MailboxView::<M>::fresh(channel, capacity).answers.len() == 0,
        MailboxView::<M>::fresh(channel, capacity).gone_in.len() == 0,
        InboxView::<M>::fresh(channel).channel == channel,
        InboxView::<M>::fresh(channel).taken_out.len() == 0,
        !InboxView::<M>::fresh(channel).closed,
        !InboxView::<M>::fresh(channel).found_empty,
{
}

} // verus!
