//! How a Server stops: gracefully, or because it lost its authority.

use vstd::prelude::*;

use crate::actor::{ActorAddress, AddressView};
use crate::cluster::authority::NodeRecord;
use crate::keyed::Key;
use crate::mailbox::Offer;
use crate::runtime::inbound::without_session;
use crate::runtime::message::MailboxMessage;
use crate::runtime::route::{lemma_put_in, put_in, TableView};
use crate::runtime::server::{closed_to_messages, ServerInner, Status};
use crate::runtime::session::{bound_to, each_once, sessions_of, SessionId, SessionsView};

verus! {

impl<R, T> ServerInner<R, T> {
    /// Nothing but the status changed.
    pub open spec fn same_but_status(&self, before: &Self) -> bool {
        *self == (ServerInner { status: self.status, ..*before })
    }

    /// Puts the present load of the Server on its node record.
    pub fn update_capacity_sample(&self, node: &mut NodeRecord, wall_time_millis: u64)
        requires
            self.wf(),
        ensures
            final(node)@ == (crate::cluster::authority::NodeView {
                sampled_at_unix_ms: wall_time_millis,
                active_actor_count: (self.routes@.maximum - self.routes@.available()) as usize,
                max_actor_count: self.routes@.maximum as usize,
                pressured: self.routes@.available() == 0,
                draining: self.status != Status::Running,
                ..old(node)@
            }),
    {
        proof {
            self.routes.lemma_bounded();
        }
        let available: usize = self.routes.available();
        let maximum: usize = self.routes.maximum();
        node.sampled_at_unix_ms = wall_time_millis;
        node.active_actor_count = maximum.saturating_sub(available);
        node.max_actor_count = maximum;
        node.pressured = available == 0;
        node.draining = self.status != Status::Running;
    }

    /// Starts a graceful shutdown, if the Server runs: no more messages are
    /// admitted. The answer lists the Actors that have to be asked to stop.
    pub fn begin_shutdown(&mut self) -> (stop: Option<Vec<ActorAddress>>)
        requires
            old(self).wf(),
        ensures
            final(self).wf(),
            final(self).same_but_status(old(self)),
            stop is Some == (old(self).status == Status::Running),
            final(self).status == if old(self).status == Status::Running {
                Status::ShuttingDown
            } else {
                old(self).status
            },
            stop matches Some(addresses) ==> lists_all(addresses@, old(self).routes@.routes.dom()),
    {
        if self.status != Status::Running {
            return None;
        }
        self.status = Status::ShuttingDown;
        Some(self.routes.addresses())
    }

    /// Ends a graceful shutdown. Actors that did not stop in time lose their
    /// routes.
    pub fn finish_shutdown(&mut self, timed_out: bool)
        requires
            old(self).wf(),
        ensures
            final(self).wf(),
            *final(self) == (ServerInner {
                status: Status::Stopped,
                routes: final(self).routes,
                ..*old(self)
            }),
            final(self).routes@ == if timed_out {
                TableView { routes: Map::empty(), ..old(self).routes@ }
            } else {
                old(self).routes@
            },
    {
        if timed_out {
            self.routes.clear();
        }
        self.status = Status::Stopped;
    }

    /// Fences the Server: no more messages are admitted. The answer lists the
    /// Actors whose tasks have to be aborted.
    pub fn begin_fence(&mut self) -> (abort: Vec<ActorAddress>)
        requires
            old(self).wf(),
        ensures
            final(self).wf(),
            final(self).same_but_status(old(self)),
            final(self).status == Status::Fenced,
            lists_all(abort@, old(self).routes@.routes.dom()),
    {
        self.status = Status::Fenced;
        self.routes.addresses()
    }

    /// Ends fencing: all tasks are gone, and so are their routes.
    pub fn finish_fence(&mut self)
        requires
            old(self).wf(),
        ensures
            final(self).wf(),
            final(self).same_but_routes(old(self)),
            final(self).routes@ == (TableView { routes: Map::empty(), ..old(self).routes@ }),
    {
        self.routes.clear();
    }

    /// A Transport Connection of a caller is gone: the Sessions that received on
    /// it are closed, and no other.
    pub fn close_sessions_for_sender(&mut self, connection: u64) -> (closed: Vec<ClosedSession<R>>)
        requires
            old(self).wf(),
        ensures
            final(self).wf(),
            final(self).same_but_traffic(old(self)),
            notified(old(self).routes@, final(self).routes@, closed@),
            forall|address: AddressView, session_id: Seq<u8>|
                #![trigger sessions_of(final(self).sessions@, address).dom().contains(session_id)]
                sessions_of(final(self).sessions@, address).dom().contains(session_id) <==> (
                sessions_of(old(self).sessions@, address).dom().contains(session_id) && !bound_to(
                    old(self).sessions@,
                    address,
                    session_id,
                    connection,
                )),
            forall|address: AddressView, session_id: Seq<u8>|
                #![trigger sessions_of(final(self).sessions@, address)[session_id]]
                sessions_of(final(self).sessions@, address).dom().contains(session_id)
                    ==> sessions_of(final(self).sessions@, address)[session_id] == sessions_of(
                    old(self).sessions@,
                    address,
                )[session_id],
            forall|i: int|
                0 <= i < closed@.len() ==> bound_to(
                    old(self).sessions@,
                    (#[trigger] closed@[i]).address@,
                    closed@[i].session_id@,
                    connection,
                ) && closed@[i].notice is Some == old(self).active(closed@[i].address@),
            forall|address: AddressView, session_id: Seq<u8>| #[trigger]
                bound_to(old(self).sessions@, address, session_id, connection) ==> exists|i: int|
                    0 <= i < closed@.len() && (#[trigger] closed@[i]).address@ == address
                        && closed@[i].session_id@ == session_id,
            forall|i: int, j: int|
                0 <= i < j < closed@.len() ==> (#[trigger] closed@[i]).address@ != (
                #[trigger] closed@[j]).address@ || closed@[i].session_id@
                    != closed@[j].session_id@,
    {
        let bound = self.sessions.by_sender_snapshot(connection);
        let mut closed: Vec<ClosedSession<R>> = Vec::new();
        let mut i: usize = 0;
        assert(told_in_turn(seq![old(self).routes@], closed@));
        while i < bound.len()
            invariant
                self.wf(),
                self.same_but_traffic(old(self)),
                notified(old(self).routes@, self.routes@, closed@),
                forall|address: AddressView| #[trigger]
                    self.active(address) == old(self).active(address),
                i <= bound@.len(),
                each_once(bound@),
                closed@.len() == i,
                forall|k: int|
                    0 <= k < i ==> (#[trigger] closed@[k]).address@ == bound@[k].0@
                        && closed@[k].session_id@ == bound@[k].1@ && closed@[k].notice is Some
                        == old(self).active(closed@[k].address@),
                forall|k: int|
                    i <= k < bound@.len() ==> sessions_of(
                        self.sessions@,
                        (#[trigger] bound@[k]).0@,
                    ).dom().contains(bound@[k].1@),
                forall|k: int|
                    0 <= k < bound@.len() ==> bound_to(
                        old(self).sessions@,
                        (#[trigger] bound@[k]).0@,
                        bound@[k].1@,
                        connection,
                    ),
                forall|address: AddressView, session_id: Seq<u8>|
                    #![trigger sessions_of(self.sessions@, address).dom().contains(session_id)]
                    sessions_of(self.sessions@, address).dom().contains(session_id) ==> sessions_of(
                        old(self).sessions@,
                        address,
                    ).dom().contains(session_id) && sessions_of(self.sessions@, address)[session_id]
                        == sessions_of(old(self).sessions@, address)[session_id],
                forall|address: AddressView, session_id: Seq<u8>|
                    #![trigger sessions_of(old(self).sessions@, address).dom().contains(session_id)]
                    sessions_of(old(self).sessions@, address).dom().contains(session_id)
                        && !bound_to(old(self).sessions@, address, session_id, connection)
                        ==> sessions_of(self.sessions@, address).dom().contains(session_id),
                forall|k: int|
                    0 <= k < i ==> !sessions_of(
                        self.sessions@,
                        (#[trigger] bound@[k]).0@,
                    ).dom().contains(bound@[k].1@),
            decreases bound@.len() - i,
        {
            let ghost before = self.sessions@;
            let ghost start = *self;
            let ghost routes = self.routes@;
            let ghost told = closed@;
            proof {
                self.sessions.lemma_no_empty_entry();
            }
            let closing = self.close_local_session(&bound[i].0, &bound[i].1);
            proof {
                let address = bound@[i as int].0@;
                let id = bound@[i as int].1@;
                assert forall|a: AddressView|
                    #![trigger sessions_of(before, a)]
                    #![trigger sessions_of(self.sessions@, a)]
                    sessions_of(self.sessions@, a) == if a == address {
                        sessions_of(before, a).remove(id)
                    } else {
                        sessions_of(before, a)
                    } by {
                    lemma_without_session(before, address, id, a);
                }
            }
            let ghost notice = closing.notice;
            closed.push(
                ClosedSession {
                    address: bound[i].0.duplicate(),
                    session_id: bound[i].1,
                    notice: closing.notice,
                },
            );
            proof {
                assert(start.active(bound@[i as int].0@) == old(self).active(bound@[i as int].0@));
                if let Some(offer) = notice {
                    lemma_put_in(
                        routes,
                        self.routes@,
                        bound@[i as int].0@,
                        MailboxMessage::SessionClosed { session_id: bound@[i as int].1 },
                        offer,
                    );
                }
                assert(closed@.last().notice == notice);
                lemma_notified(old(self).routes@, routes, self.routes@, told, closed@.last());
                assert forall|address: AddressView| #[trigger]
                    self.active(address) == old(self).active(address) by {
                    assert(start.active(address) == old(self).active(address));
                    assert(self.routes@.active(address) == routes.active(address));
                }
            }
            i += 1;
        }
        proof {
            assert forall|address: AddressView, session_id: Seq<u8>| #[trigger]
                sessions_of(self.sessions@, address).dom().contains(session_id) implies !bound_to(
                old(self).sessions@,
                address,
                session_id,
                connection,
            ) by {
                if bound_to(old(self).sessions@, address, session_id, connection) {
                    let k = choose|k: int|
                        0 <= k < bound@.len() && (#[trigger] bound@[k]).0@ == address
                            && bound@[k].1@ == session_id;
                    assert(!sessions_of(self.sessions@, bound@[k].0@).dom().contains(
                        bound@[k].1@,
                    ));
                }
            }
            assert forall|address: AddressView, session_id: Seq<u8>| #[trigger]
                bound_to(old(self).sessions@, address, session_id, connection) implies exists|k: int|

                0 <= k < closed@.len() && (#[trigger] closed@[k]).address@ == address
                    && closed@[k].session_id@ == session_id by {
                let k = choose|k: int|
                    0 <= k < bound@.len() && (#[trigger] bound@[k]).0@ == address && bound@[k].1@
                        == session_id;
                assert(closed@[k].address@ == address);
            }
        }
        closed
    }
}

/// A Session that was closed because its Transport Connection is gone, and what
/// the mailbox of its Actor did with the notice, if the Actor was active.
#[verifier::reject_recursive_types(R)]
pub struct ClosedSession<R> {
    pub address: ActorAddress,
    pub session_id: SessionId,
    pub notice: Option<Offer<MailboxMessage<R>>>,
}

impl<R> ClosedSession<R> {
    /// `after` are the routes once the Actor was told that this Session is closed,
    /// if it was active.
    pub open spec fn told<T>(
        &self,
        before: TableView<AddressView, MailboxMessage<R>, T>,
        after: TableView<AddressView, MailboxMessage<R>, T>,
    ) -> bool {
        match self.notice {
            Some(offer) => put_in(
                before,
                after,
                self.address@,
                MailboxMessage::SessionClosed { session_id: self.session_id },
                offer,
            ),
            None => after == before,
        }
    }
}

/// The routes as the Actors of closed Sessions were told, one Session after the
/// other.
pub open spec fn told_in_turn<R, T>(
    tables: Seq<TableView<AddressView, MailboxMessage<R>, T>>,
    closed: Seq<ClosedSession<R>>,
) -> bool {
    &&& tables.len() == closed.len() + 1
    &&& forall|i: int|
        0 <= i < closed.len() ==> (#[trigger] closed[i]).told(tables[i], tables[i + 1])
}

/// `after` are the routes once the active Actors of all closed Sessions were told.
pub open spec fn notified<R, T>(
    before: TableView<AddressView, MailboxMessage<R>, T>,
    after: TableView<AddressView, MailboxMessage<R>, T>,
    closed: Seq<ClosedSession<R>>,
) -> bool {
    exists|tables: Seq<TableView<AddressView, MailboxMessage<R>, T>>| #[trigger]
        told_in_turn(tables, closed) && tables[0] == before && tables.last() == after
}

proof fn lemma_notified<R, T>(
    before: TableView<AddressView, MailboxMessage<R>, T>,
    earlier: TableView<AddressView, MailboxMessage<R>, T>,
    after: TableView<AddressView, MailboxMessage<R>, T>,
    closed: Seq<ClosedSession<R>>,
    last: ClosedSession<R>,
)
    requires
        notified(before, earlier, closed),
        last.told(earlier, after),
    ensures
        notified(before, after, closed.push(last)),
{
    let tables = choose|tables: Seq<TableView<AddressView, MailboxMessage<R>, T>>| #[trigger]
        told_in_turn(tables, closed) && tables[0] == before && tables.last() == earlier;
    let longer = tables.push(after);
    assert forall|i: int| 0 <= i < closed.push(last).len() implies (#[trigger] closed.push(
        last,
    )[i]).told(longer[i], longer[i + 1]) by {
        if i < closed.len() {
            assert(closed[i].told(tables[i], tables[i + 1]));
        }
    }
    assert(told_in_turn(longer, closed.push(last)));
}

/// The addresses are those of the set, each once.
pub open spec fn lists_all(addresses: Seq<ActorAddress>, all: Set<AddressView>) -> bool {
    let views = addresses.map_values(|a: ActorAddress| a@);
    views.no_duplicates() && views.to_set() == all
}

/// Taking one Session off the list leaves those of every other Actor, and every
/// other Session of its own Actor.
pub proof fn lemma_without_session(
    registry: Map<AddressView, SessionsView>,
    address: AddressView,
    session_id: Seq<u8>,
    other: AddressView,
)
    requires
        registry.dom().contains(address) ==> registry[address].dom().finite(),
    ensures
        sessions_of(without_session(registry, address, session_id), other) == if other == address {
            sessions_of(registry, other).remove(session_id)
        } else {
            sessions_of(registry, other)
        },
{
    let sessions = sessions_of(registry, address);
    if sessions.dom().contains(session_id) {
        let left = sessions.remove(session_id);
        if other == address && left.dom().len() == 0 {
            assert(left.dom() =~= Set::<Seq<u8>>::empty());
            assert(left =~= Map::<Seq<u8>, u64>::empty());
        }
    } else if other == address {
        assert(sessions.remove(session_id) =~= sessions);
    }
}

/// A Server that has stopped running admits no message, whatever its authority.
pub proof fn law_only_running_servers_admit_messages(
    status: Status,
    authority: Option<crate::cluster::node::AuthorityView>,
    now: u64,
)
    ensures
        closed_to_messages(status, authority, now) is None <==> status == Status::Running && (
        authority matches Some(a) ==> a.valid_at(now)),
{
}

/// A list of all addresses holds each of them at one place, and nothing else.
pub proof fn law_lists_hold_each_address_once(
    addresses: Seq<ActorAddress>,
    all: Set<AddressView>,
    address: AddressView,
)
    requires
        lists_all(addresses, all),
    ensures
        all.contains(address) <==> exists|i: int|
            0 <= i < addresses.len() && (#[trigger] addresses[i])@ == address,
        forall|i: int, j: int|
            0 <= i < j < addresses.len() ==> (#[trigger] addresses[i])@ != (
            #[trigger] addresses[j])@,
{
    let views = addresses.map_values(|a: ActorAddress| a@);
    if all.contains(address) {
        assert(views.to_set().contains(address));
        let i = choose|i: int| 0 <= i < views.len() && views[i] == address;
        assert(addresses[i]@ == address);
    }
    if exists|i: int| 0 <= i < addresses.len() && (#[trigger] addresses[i])@ == address {
        let i = choose|i: int| 0 <= i < addresses.len() && (#[trigger] addresses[i])@ == address;
        assert(views[i] == address);
        assert(views.to_set().contains(address));
    }
    assert forall|i: int, j: int| 0 <= i < j < addresses.len() implies (#[trigger] addresses[i])@
        != (#[trigger] addresses[j])@ by {
        assert(views[i] != views[j]);
    }
}

/// The Actors of closed Sessions are told one after the other, each of its own Session: every
/// notice goes into the mailbox of its Actor once, and where nobody is told nothing changes.
pub proof fn law_closed_sessions_are_told_in_turn<R, T>(
    before: TableView<AddressView, MailboxMessage<R>, T>,
    after: TableView<AddressView, MailboxMessage<R>, T>,
    session: ClosedSession<R>,
)
    ensures
        notified(before, after, Seq::<ClosedSession<R>>::empty()) ==> after == before,
        notified(before, after, seq![session]) ==> {
            &&& session.notice is None ==> after == before
            &&& session.notice matches Some(offer) ==> put_in(
                before,
                after,
                session.address@,
                MailboxMessage::SessionClosed { session_id: session.session_id },
                offer,
            )
        },
{
    if notified(before, after, seq![session]) {
        let tables = choose|tables: Seq<TableView<AddressView, MailboxMessage<R>, T>>| #[trigger]
            told_in_turn(tables, seq![session]) && tables[0] == before && tables.last() == after;
        assert(seq![session][0].told(tables[0], tables[1]));
    }
}

/// A change of status leaves the traffic of a Server, its configuration and its authority.
pub proof fn law_status_changes_change_nothing_else<R, T>(
    before: ServerInner<R, T>,
    after: ServerInner<R, T>,
)
    requires
        after.same_but_status(&before),
    ensures
        after.routes == before.routes,
        after.sessions == before.sessions,
        after.registrations == before.registrations,
        after.authority == before.authority,
        after.clustered == before.clustered,
        after.deactivation_timeout == before.deactivation_timeout,
        after.shutdown_timeout == before.shutdown_timeout,
        after.transport_protocol_version == before.transport_protocol_version,
{
}

} // verus!
