//! The routes from Actor Addresses to the mailboxes of Active Actors.

use vstd::prelude::*;

use crate::keyed::{Key, KeyedMap};
use crate::mailbox::{mailbox, Inbox, InboxView, Mailbox, MailboxView, Offer, MAX_MAILBOX_CAPACITY};

verus! {

/// Whether an Active Actor takes messages.
#[derive(Clone, Copy, Debug, PartialEq, Eq, Structural)]
pub enum RouteState {
    Active,
    Deactivating,
}

/// The route to one Active Actor. `task` is the host's handle on the task that
/// runs the Actor; it is attached once the task has been started.
#[verifier::reject_recursive_types(M)]
pub struct Route<M, T> {
    pub generation: u64,
    pub state: RouteState,
    pub sender: Mailbox<M>,
    pub task: Option<T>,
}

/// All routes of a runtime, together with the permits that bound them: every
/// route holds one, and so does every reservation for a route to come.
#[verifier::reject_recursive_types(M)]
pub struct RouteTable<K: Key, M, T> {
    routes: KeyedMap<K, Route<M, T>>,
    maximum: usize,
    reserved: usize,
    next_generation: u64,
}

/// What became of a message that was dispatched to an address.
#[verifier::reject_recursive_types(M)]
pub enum Dispatch<M> {
    /// An existing mailbox took it.
    Accepted,
    /// The address had no usable route. One was made, and an Actor has to be
    /// started on `receiver`; `offer` tells what the new mailbox did with the
    /// message.
    Spawned { generation: u64, receiver: Inbox<M>, offer: Offer<M> },
    /// It was refused and comes back.
    Refused { reason: Refusal, message: M },
}

/// Why a route table refused a message.
#[derive(Clone, Copy, Debug, PartialEq, Eq, Structural)]
pub enum Refusal {
    MailboxFull,
    ActorDeactivating,
    AtCapacity,
}

/// A route table as a mathematical value.
#[verifier::reject_recursive_types(A)]
#[verifier::reject_recursive_types(M)]
#[verifier::reject_recursive_types(T)]
#[verifier::ext_equal]
pub struct TableView<A, M, T> {
    pub routes: Map<A, Route<M, T>>,
    pub maximum: nat,
    pub reserved: nat,
    pub next_generation: u64,
}

impl<A, M, T> TableView<A, M, T> {
    /// The permits that nobody holds.
    pub open spec fn available(self) -> int {
        self.maximum - self.reserved - self.routes.dom().len()
    }

    /// The routes and the reservations fit the limit.
    pub open spec fn bounded(self) -> bool {
        &&& self.routes.dom().finite()
        &&& self.reserved + self.routes.dom().len() <= self.maximum
    }

    /// Every live route has a generation below the next one.
    pub open spec fn generations_fresh(self) -> bool {
        forall|a: A| #[trigger] self.routes.dom().contains(a) ==> self.routes[a].generation
            < self.next_generation
    }

    /// The table after one reservation was given up.
    pub open spec fn unreserve(self, reserved: bool) -> Self {
        TableView { reserved: (self.reserved - if reserved { 1int } else { 0 }) as nat, ..self }
    }

    /// There is a route at `address` that takes messages.
    pub open spec fn active(self, address: A) -> bool {
        self.routes.dom().contains(address) && self.routes[address].state == RouteState::Active
    }

    /// The table with another state of the mailbox of one route.
    pub open spec fn with_mailbox(self, address: A, mailbox: Mailbox<M>) -> Self {
        TableView {
            routes: self.routes.insert(
                address,
                Route { sender: mailbox, ..self.routes[address] },
            ),
            ..self
        }
    }

    /// The table after a new route took the place of whatever stood at `address`.
    pub open spec fn spawned(self, address: A, reserved: bool, sender: Mailbox<M>) -> Self {
        TableView {
            routes: self.routes.insert(
                address,
                Route {
                    generation: self.next_generation,
                    state: RouteState::Active,
                    sender,
                    task: None,
                },
            ),
            next_generation: if self.next_generation == u64::MAX {
                0
            } else {
                (self.next_generation + 1) as u64
            },
            ..self.unreserve(reserved)
        }
    }
}

/// `after` and `outcome` are what a dispatch to an address without a usable
/// route comes to: the message is offered to the mailbox of a new one.
pub open spec fn dispatched_fresh<A, M, T>(
    before: TableView<A, M, T>,
    after: TableView<A, M, T>,
    address: A,
    message: M,
    reserved: bool,
    capacity: usize,
    outcome: Dispatch<M>,
) -> bool {
    if !reserved && before.available() == 0 {
        &&& outcome == Dispatch::Refused { reason: Refusal::AtCapacity, message }
        &&& after == before
    } else {
        match outcome {
            Dispatch::Spawned { generation, receiver, offer } => {
                &&& generation == before.next_generation
                &&& offer.gives_back(message)
                &&& receiver@ == InboxView::<M>::fresh(receiver@.channel)
                &&& exists|sender: Mailbox<M>|
                    sender@ == MailboxView::<M>::fresh(
                        receiver@.channel,
                        capacity as nat,
                    ).offered(message, offer) && after == #[trigger] before.spawned(
                        address,
                        reserved,
                        sender,
                    )
            },
            _ => false,
        }
    }
}

/// `after` is the table once the mailbox at `address` was offered a message and
/// gave an answer.
pub open spec fn put_in<A, M, T>(
    before: TableView<A, M, T>,
    after: TableView<A, M, T>,
    address: A,
    message: M,
    answer: Offer<M>,
) -> bool {
    &&& answer.gives_back(message)
    &&& exists|mailbox: Mailbox<M>|
        mailbox@ == before.routes[address].sender@.offered(message, answer) && after
            == #[trigger] before.with_mailbox(address, mailbox)
}

/// An offer to a mailbox changes nothing but that mailbox.
pub proof fn lemma_put_in<A, M, T>(
    before: TableView<A, M, T>,
    after: TableView<A, M, T>,
    address: A,
    message: M,
    answer: Offer<M>,
)
    requires
        put_in(before, after, address, message, answer),
        before.routes.dom().contains(address),
    ensures
        after.routes.dom() == before.routes.dom(),
        forall|other: A| #[trigger] after.active(other) == before.active(other),
{
    assert(before.routes.dom().insert(address) =~= before.routes.dom());
}

/// `after` and `outcome` are what a dispatch over the active route at `address`
/// comes to, once its mailbox has answered.
pub open spec fn settled<A, M, T>(
    before: TableView<A, M, T>,
    after: TableView<A, M, T>,
    address: A,
    reserved: bool,
    capacity: usize,
    answer: Offer<M>,
    outcome: Dispatch<M>,
) -> bool {
    match answer {
        Offer::Taken => outcome == Dispatch::<M>::Accepted && after == before.unreserve(reserved),
        Offer::Full(message) => {
            &&& outcome == Dispatch::Refused { reason: Refusal::MailboxFull, message }
            &&& after == before.unreserve(reserved)
        },
        Offer::Closed(message) => dispatched_fresh(
            TableView { routes: before.routes.remove(address), ..before },
            after,
            address,
            message,
            reserved,
            capacity,
            outcome,
        ),
    }
}

/// `after` and `outcome` are what a dispatch to `address` comes to, when the
/// mailbox of an active route there is offered the message and answers as
/// `answer` says. A new mailbox is made for `capacity` messages.
pub open spec fn dispatched<A, M, T>(
    before: TableView<A, M, T>,
    after: TableView<A, M, T>,
    address: A,
    message: M,
    reserved: bool,
    capacity: usize,
    answer: Offer<M>,
    outcome: Dispatch<M>,
) -> bool {
    if !before.routes.dom().contains(address) {
        dispatched_fresh(before, after, address, message, reserved, capacity, outcome)
    } else if before.routes[address].state == RouteState::Deactivating {
        &&& outcome == Dispatch::Refused { reason: Refusal::ActorDeactivating, message }
        &&& after == before.unreserve(reserved)
    } else {
        exists|mailbox: Mailbox<M>|
            mailbox@ == before.routes[address].sender@.offered(message, answer) && settled(
                #[trigger] before.with_mailbox(address, mailbox),
                after,
                address,
                reserved,
                capacity,
                answer,
                outcome,
            )
    }
}

impl<K: Key, M, T> View for RouteTable<K, M, T> {
    type V = TableView<K::V, M, T>;

    closed spec fn view(&self) -> TableView<K::V, M, T> {
        TableView {
            routes: self.routes@,
            maximum: self.maximum as nat,
            reserved: self.reserved as nat,
            next_generation: self.next_generation,
        }
    }
}

impl<K: Key, M, T> RouteTable<K, M, T> {
    /// The entries are unique and the permits are respected.
    pub closed spec fn wf(&self) -> bool {
        self.routes.wf() && self@.bounded()
    }

    /// What a well-formed table keeps: no more routes and reservations than the
    /// limit allows.
    pub proof fn lemma_bounded(&self)
        requires
            self.wf(),
        ensures
            self@.bounded(),
            self@.maximum <= usize::MAX,
    {
    }

    /// A table without routes that admits up to `maximum` of them.
    pub fn new(maximum: usize) -> (table: Self)
        ensures
            table.wf(),
            table@ == (TableView::<K::V, M, T> {
                routes: Map::empty(),
                maximum: maximum as nat,
                reserved: 0,
                next_generation: 1,
            }),
    {
        RouteTable { routes: KeyedMap::new(), maximum, reserved: 0, next_generation: 1 }
    }

    /// The permits that nobody holds.
    pub fn available(&self) -> (available: usize)
        requires
            self.wf(),
        ensures
            available == self@.available(),
    {
        self.maximum - self.reserved - self.routes.len()
    }

    /// The limit on routes and reservations.
    pub fn maximum(&self) -> (maximum: usize)
        ensures
            maximum == self@.maximum,
    {
        self.maximum
    }

    /// The number of routes.
    pub fn len(&self) -> (len: usize)
        requires
            self.wf(),
        ensures
            len == self@.routes.dom().len(),
    {
        self.routes.len()
    }

    /// Reserves a permit for a route to come, if one is free.
    pub fn try_reserve(&mut self) -> (reserved: bool)
        requires
            old(self).wf(),
        ensures
            final(self).wf(),
            reserved == (old(self)@.available() > 0),
            final(self)@ == if reserved {
                TableView { reserved: old(self)@.reserved + 1, ..old(self)@ }
            } else {
                old(self)@
            },
    {
        if self.available() == 0 {
            return false;
        }
        self.reserved = self.reserved + 1;
        true
    }

    /// Gives a reservation up.
    pub fn cancel_reservation(&mut self)
        requires
            old(self).wf(),
            old(self)@.reserved > 0,
        ensures
            final(self).wf(),
            final(self)@ == old(self)@.unreserve(true),
    {
        self.reserved = self.reserved - 1;
    }

    /// Routes a message to the Actor at `address`. A usable route offers it to
    /// its mailbox; without one, or where the Actor behind it is gone, a new
    /// route is made under a permit: the caller's reservation, or a free one.
    /// A reservation that is not needed is given up.
    pub fn dispatch(
        &mut self,
        address: &K,
        message: M,
        reserved: bool,
        mailbox_capacity: usize,
    ) -> (outcome: Dispatch<M>)
        requires
            old(self).wf(),
            reserved ==> old(self)@.reserved > 0,
            0 < mailbox_capacity <= MAX_MAILBOX_CAPACITY,
        ensures
            final(self).wf(),
            exists|answer: Offer<M>| #[trigger]
                answer.gives_back(message) && dispatched(
                    old(self)@,
                    final(self)@,
                    address@,
                    message,
                    reserved,
                    mailbox_capacity,
                    answer,
                    outcome,
                ),
    {
        let ghost before = self@;
        if let Some(route) = self.routes.get_mut(address) {
            match route.state {
                RouteState::Active => {
                    let answer = route.sender.put(message);
                    let ghost mailbox = route.sender;
                    proof {
                        assert(before.routes.dom().insert(address@) =~= before.routes.dom());
                    }
                    assert(self@ == before.with_mailbox(address@, mailbox));
                    return self.settle(address, answer, reserved, mailbox_capacity);
                },
                RouteState::Deactivating => {
                    assert(self@.routes =~= before.routes);
                    if reserved {
                        self.cancel_reservation();
                    }
                    let outcome = Dispatch::Refused { reason: Refusal::ActorDeactivating, message };
                    assert(Offer::<M>::Taken.gives_back(message));
                    return outcome;
                },
            }
        }
        assert(Offer::<M>::Taken.gives_back(message));
        self.spawn(address, message, reserved, mailbox_capacity)
    }

    /// Ends a dispatch over the active route at `address`, given what its
    /// mailbox answered.
    pub fn settle(
        &mut self,
        address: &K,
        answer: Offer<M>,
        reserved: bool,
        mailbox_capacity: usize,
    ) -> (outcome: Dispatch<M>)
        requires
            old(self).wf(),
            old(self)@.routes.dom().contains(address@),
            reserved ==> old(self)@.reserved > 0,
            0 < mailbox_capacity <= MAX_MAILBOX_CAPACITY,
        ensures
            final(self).wf(),
            settled(
                old(self)@,
                final(self)@,
                address@,
                reserved,
                mailbox_capacity,
                answer,
                outcome,
            ),
    {
        match answer {
            Offer::Taken => {
                if reserved {
                    self.cancel_reservation();
                }
                Dispatch::Accepted
            },
            Offer::Full(message) => {
                if reserved {
                    self.cancel_reservation();
                }
                Dispatch::Refused { reason: Refusal::MailboxFull, message }
            },
            Offer::Closed(message) => {
                self.routes.remove(address);
                self.spawn(address, message, reserved, mailbox_capacity)
            },
        }
    }

    fn spawn(
        &mut self,
        address: &K,
        message: M,
        reserved: bool,
        mailbox_capacity: usize,
    ) -> (outcome: Dispatch<M>)
        requires
            old(self).wf(),
            !old(self)@.routes.dom().contains(address@),
            reserved ==> old(self)@.reserved > 0,
            0 < mailbox_capacity <= MAX_MAILBOX_CAPACITY,
        ensures
            final(self).wf(),
            dispatched_fresh(
                old(self)@,
                final(self)@,
                address@,
                message,
                reserved,
                mailbox_capacity,
                outcome,
            ),
    {
        if reserved {
            self.reserved = self.reserved - 1;
        } else if self.available() == 0 {
            return Dispatch::Refused { reason: Refusal::AtCapacity, message };
        }
        let generation: u64 = self.next_generation;
        self.next_generation = generation.wrapping_add(1);
        let (mut sender, receiver) = mailbox::<M>(mailbox_capacity);
        let answer = sender.put(message);
        self.routes.insert(
            address.duplicate(),
            Route { generation, state: RouteState::Active, sender, task: None },
        );
        assert(self@ == old(self)@.spawned(address@, reserved, sender));
        Dispatch::Spawned { generation, receiver, offer: answer }
    }

    /// Offers a message to the mailbox of an Active Actor that takes messages;
    /// nobody else is offered it.
    pub fn offer_if_active(&mut self, address: &K, message: M) -> (answer: Option<Offer<M>>)
        requires
            old(self).wf(),
        ensures
            final(self).wf(),
            answer is Some == old(self)@.active(address@),
            match answer {
                Some(offer) => put_in(old(self)@, final(self)@, address@, message, offer),
                None => final(self)@ == old(self)@,
            },
    {
        let ghost before = self@;
        match self.routes.get_mut(address) {
            Some(route) => match route.state {
                RouteState::Active => {
                    let answer = route.sender.put(message);
                    let ghost mailbox = route.sender;
                    proof {
                        assert(before.routes.dom().insert(address@) =~= before.routes.dom());
                    }
                    assert(self@ == before.with_mailbox(address@, mailbox));
                    Some(answer)
                },
                RouteState::Deactivating => {
                    assert(self@.routes =~= before.routes);
                    None
                },
            },
            None => None,
        }
    }

    /// Hands over the handle on the task that runs the Actor of a new route.
    pub fn attach_task(&mut self, address: &K, generation: u64, task: T) -> (attached: bool)
        requires
            old(self).wf(),
        ensures
            final(self).wf(),
            attached == (old(self)@.routes.dom().contains(address@)
                && old(self)@.routes[address@].generation == generation),
            final(self)@ == if attached {
                TableView {
                    routes: old(self)@.routes.insert(
                        address@,
                        Route { task: Some(task), ..old(self)@.routes[address@] },
                    ),
                    ..old(self)@
                }
            } else {
                old(self)@
            },
    {
        let ghost before = self@;
        match self.routes.get_mut(address) {
            Some(route) => {
                if route.generation != generation {
                    proof {
                        assert(before.routes.insert(address@, *route) =~= before.routes);
                    }
                    return false;
                }
                route.task = Some(task);
                true
            },
            None => false,
        }
    }

    /// Removes the route at `address`, provided that it is still the one with
    /// the given generation.
    pub fn remove_route(&mut self, address: &K, generation: u64) -> (removed: bool)
        requires
            old(self).wf(),
        ensures
            final(self).wf(),
            removed == (old(self)@.routes.dom().contains(address@)
                && old(self)@.routes[address@].generation == generation),
            final(self)@ == if removed {
                TableView { routes: old(self)@.routes.remove(address@), ..old(self)@ }
            } else {
                old(self)@
            },
    {
        let matches = match self.routes.get(address) {
            Some(route) => route.generation == generation,
            None => false,
        };
        if matches {
            self.routes.remove(address);
        }
        matches
    }

    /// Stops admitting messages to the route at `address`, provided that it is
    /// still the one with the given generation and that its mailbox is empty.
    pub fn begin_deactivation(
        &mut self,
        address: &K,
        generation: u64,
        sender: &mut Mailbox<M>,
    ) -> (begun: bool)
        requires
            old(self).wf(),
        ensures
            final(self).wf(),
            final(sender)@ == old(sender)@.looked(final(sender)@.looks.last()),
            deactivation_begun(
                old(self)@,
                final(self)@,
                address@,
                generation,
                final(sender)@.looks.last(),
                old(sender)@.capacity,
                begun,
            ),
    {
        let free: usize = sender.free();
        let limit: usize = sender.limit();
        self.begin_deactivation_with(address, generation, free, limit)
    }

    /// Stops admitting messages to the route at `address`, given the room that
    /// is left in its mailbox and the room that the mailbox was made with.
    pub fn begin_deactivation_with(
        &mut self,
        address: &K,
        generation: u64,
        free: usize,
        limit: usize,
    ) -> (begun: bool)
        requires
            old(self).wf(),
        ensures
            final(self).wf(),
            deactivation_begun(
                old(self)@,
                final(self)@,
                address@,
                generation,
                free,
                limit as nat,
                begun,
            ),
    {
        let ghost before = self@;
        match self.routes.get_mut(address) {
            Some(route) => {
                if route.generation != generation || free != limit {
                    proof {
                        assert(before.routes.insert(address@, *route) =~= before.routes);
                    }
                    return false;
                }
                route.state = RouteState::Deactivating;
                true
            },
            None => false,
        }
    }

    /// The addresses that have a route.
    pub fn addresses(&self) -> (addresses: Vec<K>)
        requires
            self.wf(),
        ensures
            addresses@.map_values(|k: K| k@).no_duplicates(),
            addresses@.map_values(|k: K| k@).to_set() == self@.routes.dom(),
    {
        proof {
            self.routes.lemma_order();
        }
        self.routes.keys()
    }

    /// The route at `address`.
    pub fn route(&self, address: &K) -> (route: Option<&Route<M, T>>)
        requires
            self.wf(),
        ensures
            route is Some == self@.routes.dom().contains(address@),
            route matches Some(r) ==> *r == self@.routes[address@],
    {
        self.routes.get(address)
    }

    /// Removes every route.
    pub fn clear(&mut self)
        requires
            old(self).wf(),
        ensures
            final(self).wf(),
            final(self)@ == (TableView { routes: Map::empty(), ..old(self)@ }),
    {
        self.routes.clear();
    }
}

/// The route at `address` stops admitting messages exactly if it has the given
/// generation and its mailbox has all its room left.
pub open spec fn deactivation_begun<A, M, T>(
    before: TableView<A, M, T>,
    after: TableView<A, M, T>,
    address: A,
    generation: u64,
    free: usize,
    limit: nat,
    begun: bool,
) -> bool {
    &&& begun == (before.routes.dom().contains(address) && before.routes[address].generation
        == generation && free == limit)
    &&& after == if begun {
        TableView {
            routes: before.routes.insert(
                address,
                Route { state: RouteState::Deactivating, ..before.routes[address] },
            ),
            ..before
        }
    } else {
        before
    }
}

/// A dispatch leaves every other address alone.
pub proof fn law_dispatch_is_local<A, M, T>(
    before: TableView<A, M, T>,
    after: TableView<A, M, T>,
    address: A,
    message: M,
    reserved: bool,
    capacity: usize,
    answer: Offer<M>,
    outcome: Dispatch<M>,
    other: A,
)
    requires
        dispatched(before, after, address, message, reserved, capacity, answer, outcome),
        other != address,
    ensures
        after.routes.dom().contains(other) == before.routes.dom().contains(other),
        before.routes.dom().contains(other) ==> after.routes[other] == before.routes[other],
        after.maximum == before.maximum,
{
}

/// A dispatch never admits more routes and reservations than the limit, and
/// it gives every new route a generation that no live route has, as long as the
/// generation counter has not run through.
pub proof fn law_dispatch_respects_the_limit<A, M, T>(
    before: TableView<A, M, T>,
    after: TableView<A, M, T>,
    address: A,
    message: M,
    reserved: bool,
    capacity: usize,
    answer: Offer<M>,
    outcome: Dispatch<M>,
)
    requires
        dispatched(before, after, address, message, reserved, capacity, answer, outcome),
        before.bounded(),
        reserved ==> before.reserved > 0,
    ensures
        after.bounded(),
        before.generations_fresh() && before.next_generation < u64::MAX
            ==> after.generations_fresh(),
{
    if before.routes.dom().contains(address) {
        assert(before.routes.remove(address).dom() =~= before.routes.dom().remove(address));
    }
}

/// A message is never dropped by a dispatch, nor delivered twice: it went into
/// the mailbox of its Actor once, or it comes back and went in nowhere.
pub proof fn law_dispatch_keeps_the_message<A, M, T>(
    before: TableView<A, M, T>,
    after: TableView<A, M, T>,
    address: A,
    message: M,
    reserved: bool,
    capacity: usize,
    answer: Offer<M>,
    outcome: Dispatch<M>,
)
    requires
        answer.gives_back(message),
        dispatched(before, after, address, message, reserved, capacity, answer, outcome),
    ensures
        match outcome {
            Dispatch::Accepted => {
                &&& after.routes[address].sender@.gone_in
                    == before.routes[address].sender@.gone_in.push(message)
                &&& after.routes[address].sender@.channel == before.routes[address].sender@.channel
            },
            Dispatch::Spawned { receiver, offer, .. } => {
                &&& offer.gives_back(message)
                &&& after.routes[address].sender@.channel == receiver@.channel
                &&& after.routes[address].sender@.gone_in == if offer is Taken {
                    seq![message]
                } else {
                    Seq::empty()
                }
            },
            Dispatch::Refused { message: returned, .. } => {
                &&& returned == message
                &&& after.routes.dom().contains(address) ==> after.routes[address].sender@.gone_in
                    == before.routes[address].sender@.gone_in
            },
        },
{
}

/// A message went once into the mailbox at `address`: behind what went in before,
/// or as the first one into a new mailbox.
pub open spec fn went_in<A, M, T>(
    before: TableView<A, M, T>,
    after: TableView<A, M, T>,
    address: A,
    message: M,
) -> bool {
    &&& after.routes.dom().contains(address)
    &&& {
        ||| before.routes.dom().contains(address) && after.routes[address].sender@.gone_in
            == before.routes[address].sender@.gone_in.push(message)
        ||| after.routes[address].sender@.gone_in == seq![message]
    }
}

/// Removing a route with an outdated generation changes nothing: the end of a
/// replaced Actor cannot take down the Actor that replaced it.
pub proof fn law_stale_generation_is_harmless<A, M, T>(
    before: TableView<A, M, T>,
    after: TableView<A, M, T>,
    address: A,
    message: M,
    reserved: bool,
    capacity: usize,
    answer: Offer<M>,
    outcome: Dispatch<M>,
    stale: u64,
)
    requires
        dispatched(before, after, address, message, reserved, capacity, answer, outcome),
        before.generations_fresh(),
        before.routes.dom().contains(address),
        stale == before.routes[address].generation,
        outcome is Spawned,
    ensures
        after.routes.dom().contains(address),
        after.routes[address].generation != stale,
{
}

/// The permits that are free are those that neither a route nor a reservation holds.
pub proof fn law_permits_are_held_by_routes_and_reservations<A, M, T>(table: TableView<A, M, T>)
    ensures
        table.available() + table.routes.dom().len() + table.reserved == table.maximum,
        table.bounded() ==> table.available() >= 0,
{
}

/// A message for an Actor that is not active starts it, on a mailbox of the given
/// capacity and under a generation of its own, unless every permit is held; then it is
/// refused, and nothing changes. A reservation is a permit, and is used up.
pub proof fn law_a_message_starts_its_actor<A, M, T>(
    before: TableView<A, M, T>,
    after: TableView<A, M, T>,
    address: A,
    message: M,
    reserved: bool,
    capacity: usize,
    answer: Offer<M>,
    outcome: Dispatch<M>,
)
    requires
        dispatched(before, after, address, message, reserved, capacity, answer, outcome),
        before.bounded(),
        !before.routes.dom().contains(address),
        reserved ==> before.reserved > 0,
    ensures
        ({
            let full = !reserved && before.routes.dom().len() + before.reserved == before.maximum;
            &&& full ==> outcome == (Dispatch::Refused { reason: Refusal::AtCapacity, message })
                && after == before
            &&& !full ==> {
                &&& outcome is Spawned
                &&& outcome->generation == before.next_generation
                &&& after.routes.dom() == before.routes.dom().insert(address)
                &&& after.routes[address].generation == before.next_generation
                &&& after.routes[address].state == RouteState::Active
                &&& after.routes[address].task is None
                &&& after.routes[address].sender@.capacity == capacity
                &&& after.routes[address].sender@.channel == outcome->receiver@.channel
                &&& after.reserved == before.reserved - if reserved {
                    1int
                } else {
                    0
                }
                &&& before.next_generation < u64::MAX ==> after.next_generation
                    == before.next_generation + 1
            }
            &&& after.maximum == before.maximum
        }),
{
}

/// A message for an Active Actor goes to its mailbox. Taken, it is accepted; if the
/// mailbox is full it is refused; and if the Actor is gone, a new one is started in its
/// place. The route stays as it is otherwise, and a reservation is given up.
pub proof fn law_active_actors_get_their_messages<A, M, T>(
    before: TableView<A, M, T>,
    after: TableView<A, M, T>,
    address: A,
    message: M,
    reserved: bool,
    capacity: usize,
    answer: Offer<M>,
    outcome: Dispatch<M>,
)
    requires
        dispatched(before, after, address, message, reserved, capacity, answer, outcome),
        before.bounded(),
        before.routes.dom().contains(address),
        before.routes[address].state == RouteState::Active,
        answer.gives_back(message),
        reserved ==> before.reserved > 0,
    ensures
        answer is Taken ==> outcome is Accepted,
        answer is Full ==> outcome == (Dispatch::Refused { reason: Refusal::MailboxFull, message }),
        answer is Closed ==> outcome is Spawned && after.routes[address].generation
            == before.next_generation && after.routes[address].sender@.capacity == capacity,
        !(answer is Closed) ==> {
            &&& after.routes.dom() == before.routes.dom()
            &&& after.routes[address].generation == before.routes[address].generation
            &&& after.routes[address].state == RouteState::Active
            &&& after.routes[address].task == before.routes[address].task
            &&& after.routes[address].sender@.answers
                == before.routes[address].sender@.answers.push(answer)
            &&& after.next_generation == before.next_generation
        },
        after.reserved == before.reserved - if reserved {
            1int
        } else {
            0
        },
{
    assert(before.routes.dom().insert(address) =~= before.routes.dom());
    assert(before.routes.remove(address).dom() =~= before.routes.dom().remove(address));
    let mailbox = choose|mailbox: Mailbox<M>|
        mailbox@ == before.routes[address].sender@.offered(message, answer) && settled(
            #[trigger] before.with_mailbox(address, mailbox),
            after,
            address,
            reserved,
            capacity,
            answer,
            outcome,
        );
    let offered = before.with_mailbox(address, mailbox);
    assert(offered.routes.dom() =~= before.routes.dom());
    assert(offered.routes.remove(address).dom() =~= before.routes.dom().remove(address));
}

/// An Actor that is being deactivated gets no message: it comes back, and no mailbox is
/// touched.
pub proof fn law_deactivating_actors_get_no_messages<A, M, T>(
    before: TableView<A, M, T>,
    after: TableView<A, M, T>,
    address: A,
    message: M,
    reserved: bool,
    capacity: usize,
    answer: Offer<M>,
    outcome: Dispatch<M>,
)
    requires
        dispatched(before, after, address, message, reserved, capacity, answer, outcome),
        before.routes.dom().contains(address),
        before.routes[address].state == RouteState::Deactivating,
        reserved ==> before.reserved > 0,
    ensures
        outcome == (Dispatch::Refused { reason: Refusal::ActorDeactivating, message }),
        after.routes == before.routes,
        after.reserved == before.reserved - if reserved {
            1int
        } else {
            0
        },
{
}

/// A deactivation begins exactly for the route of the given generation, and only while
/// all of its mailbox is free; from then on the route admits nothing. Its permit is still
/// held.
pub proof fn law_deactivation_closes_the_route<A, M, T>(
    before: TableView<A, M, T>,
    after: TableView<A, M, T>,
    address: A,
    generation: u64,
    free: usize,
    limit: nat,
    begun: bool,
    other: A,
)
    requires
        deactivation_begun(before, after, address, generation, free, limit, begun),
    ensures
        begun <==> before.routes.dom().contains(address) && before.routes[address].generation
            == generation && free == limit,
        begun ==> after.routes[address].state == RouteState::Deactivating && !after.active(address)
            && after.routes[address].generation == generation && after.routes[address].sender
            == before.routes[address].sender && after.routes[address].task
            == before.routes[address].task,
        !begun ==> after == before,
        after.routes.dom() == before.routes.dom(),
        other != address && before.routes.dom().contains(other) ==> after.routes[other]
            == before.routes[other],
        after.available() == before.available(),
{
    assert(before.routes.dom().contains(address) ==> before.routes.dom().insert(address)
        =~= before.routes.dom());
}

/// An offer through a route reaches the mailbox of that route once, and changes nothing
/// else.
pub proof fn law_offers_reach_their_route<A, M, T>(
    before: TableView<A, M, T>,
    after: TableView<A, M, T>,
    address: A,
    message: M,
    answer: Offer<M>,
    other: A,
)
    requires
        put_in(before, after, address, message, answer),
        before.routes.dom().contains(address),
    ensures
        after.routes[address].sender@.answers == before.routes[address].sender@.answers.push(
            answer,
        ),
        answer is Taken ==> after.routes[address].sender@.gone_in
            == before.routes[address].sender@.gone_in.push(message),
        !(answer is Taken) ==> after.routes[address].sender@.gone_in
            == before.routes[address].sender@.gone_in,
        after.routes[address].generation == before.routes[address].generation,
        after.routes[address].state == before.routes[address].state,
        after.routes.dom() == before.routes.dom(),
        other != address && before.routes.dom().contains(other) ==> after.routes[other]
            == before.routes[other],
        after.reserved == before.reserved && after.maximum == before.maximum
            && after.next_generation == before.next_generation,
        answer matches Offer::Full(returned) ==> returned == message,
        answer matches Offer::Closed(returned) ==> returned == message,
{
    assert(before.routes.dom().insert(address) =~= before.routes.dom());
}

} // verus!
