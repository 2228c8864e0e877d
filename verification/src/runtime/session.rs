//! Sessions as the Owner sees them: which are alive, and where their Events go.

use vstd::prelude::*;

use crate::actor::{ActorAddress, AddressView};
use crate::error::{failure_of, SendError};
use crate::keyed::{Key, KeyedMap};
use crate::transport_protocol::{Envelope, Kind};

verus! {

/// The identity of a Session, chosen by the caller that opens it.
#[derive(Clone, Copy, Debug, PartialEq, Eq, Hash)]
pub struct SessionId {
    bytes: [u8; 16],
}

impl View for SessionId {
    type V = Seq<u8>;

    closed spec fn view(&self) -> Seq<u8> {
        self.bytes@
    }
}

/// `uuid::Uuid::new_v4`: sixteen random bytes, except for the bits that mark a
/// random UUID (version 4, variant 1).
#[verifier::external_body]
pub(crate) fn random_uuid_bytes() -> (bytes: [u8; 16])
    ensures
        bytes@[6] & 0xf0 == 0x40,
        bytes@[8] & 0xc0 == 0x80,
{
    uuid::Uuid::new_v4().into_bytes()
}

impl SessionId {
    /// A new identity, marked as a random UUID.
    pub fn new() -> (id: Self)
        ensures
            id@.len() == 16,
            id@[6] & 0xf0 == 0x40,
            id@[8] & 0xc0 == 0x80,
    {
        SessionId { bytes: random_uuid_bytes() }
    }

    /// The identity as bytes.
    pub fn as_bytes(&self) -> (bytes: Vec<u8>)
        ensures
            bytes@ == self@,
            bytes@.len() == 16,
    {
        let mut bytes: Vec<u8> = Vec::new();
        let mut i: usize = 0;
        while i < 16
            invariant
                i <= 16,
                bytes@ == self.bytes@.subrange(0, i as int),
            decreases 16 - i,
        {
            bytes.push(self.bytes[i]);
            i += 1;
            assert(bytes@ =~= self.bytes@.subrange(0, i as int));
        }
        assert(self.bytes@.subrange(0, 16) =~= self.bytes@);
        bytes
    }

    /// The identity that sixteen bytes stand for; any other number of bytes
    /// stands for none.
    pub fn from_bytes(bytes: &[u8]) -> (id: Option<Self>)
        ensures
            match id {
                Some(id) => session_id_of(bytes@) == Some(id@),
                None => session_id_of(bytes@) is None,
            },
    {
        if bytes.len() != 16 {
            return None;
        }
        let id = SessionId {
            bytes: [
                bytes[0],
                bytes[1],
                bytes[2],
                bytes[3],
                bytes[4],
                bytes[5],
                bytes[6],
                bytes[7],
                bytes[8],
                bytes[9],
                bytes[10],
                bytes[11],
                bytes[12],
                bytes[13],
                bytes[14],
                bytes[15],
            ],
        };
        assert(id@ =~= bytes@);
        Some(id)
    }
}

/// The identity that a sequence of bytes stands for.
pub open spec fn session_id_of(bytes: Seq<u8>) -> Option<Seq<u8>> {
    if bytes.len() == 16 {
        Some(bytes)
    } else {
        None
    }
}

/// An identity is read back from its own bytes.
pub proof fn law_session_id_round_trip(id: SessionId)
    ensures
        session_id_of(id@) == Some(id@),
{
}

impl Key for SessionId {
    fn same(&self, other: &Self) -> (same: bool) {
        let mut i: usize = 0;
        while i < 16
            invariant
                i <= 16,
                forall|j: int| 0 <= j < i ==> self.bytes@[j] == other.bytes@[j],
            decreases 16 - i,
        {
            if self.bytes[i] != other.bytes[i] {
                return false;
            }
            i += 1;
        }
        assert(self@ =~= other@);
        true
    }

    fn duplicate(&self) -> (copy: Self) {
        *self
    }
}

/// A message that the host has to put on a Transport Connection.
pub struct Outgoing {
    pub connection: u64,
    pub envelope: Envelope,
}

/// The live Sessions of each Actor, and the Transport Connection on which each
/// of them receives.
pub struct SessionRegistry {
    by_actor: KeyedMap<ActorAddress, KeyedMap<SessionId, u64>>,
}

/// The Sessions of one Actor.
pub type SessionsView = Map<Seq<u8>, u64>;

impl View for SessionRegistry {
    type V = Map<AddressView, SessionsView>;

    closed spec fn view(&self) -> Map<AddressView, SessionsView> {
        self.by_actor@.map_values(|sessions: KeyedMap<SessionId, u64>| sessions@)
    }
}

/// The Sessions of an Actor; none for an Actor that is not listed.
pub open spec fn sessions_of(
    registry: Map<AddressView, SessionsView>,
    address: AddressView,
) -> SessionsView {
    if registry.dom().contains(address) {
        registry[address]
    } else {
        Map::empty()
    }
}

/// The registry with the Sessions of one Actor replaced. An Actor is listed
/// only while it has Sessions.
pub open spec fn with_sessions(
    registry: Map<AddressView, SessionsView>,
    address: AddressView,
    sessions: SessionsView,
) -> Map<AddressView, SessionsView> {
    if sessions.dom().len() == 0 {
        registry.remove(address)
    } else {
        registry.insert(address, sessions)
    }
}

impl SessionRegistry {
    /// Every Actor that is listed has Sessions, and none of them twice.
    pub closed spec fn wf(&self) -> bool {
        &&& self.by_actor.wf()
        &&& forall|address: AddressView| #[trigger]
            self.by_actor@.dom().contains(address) ==> self.by_actor@[address].wf()
                && self.by_actor@[address]@.dom().len() > 0
    }

    /// An Actor is listed only while it has Sessions, and it has finitely many.
    pub proof fn lemma_no_empty_entry(&self)
        requires
            self.wf(),
        ensures
            forall|address: AddressView| #[trigger]
                self@.dom().contains(address) ==> self@[address].dom().finite()
                    && self@[address].dom().len() > 0,
    {
        assert forall|address: AddressView| #[trigger] self@.dom().contains(address) implies self@[address].dom().finite()
            && self@[address].dom().len() > 0 by {
            self.by_actor@[address].lemma_order();
        }
    }

    /// A registry without Sessions.
    pub fn new() -> (registry: Self)
        ensures
            registry.wf(),
            registry@ == Map::<AddressView, SessionsView>::empty(),
    {
        let registry = SessionRegistry { by_actor: KeyedMap::new() };
        assert(registry@ =~= Map::<AddressView, SessionsView>::empty());
        registry
    }

    /// Lists a Session of an Actor. An identity that is already listed is taken
    /// over by the new connection, and the answer is `false`.
    pub fn register_actor(
        &mut self,
        address: &ActorAddress,
        session_id: SessionId,
        connection: u64,
    ) -> (fresh: bool)
        requires
            old(self).wf(),
        ensures
            final(self).wf(),
            fresh == !sessions_of(old(self)@, address@).dom().contains(session_id@),
            final(self)@ == old(self)@.insert(
                address@,
                sessions_of(old(self)@, address@).insert(session_id@, connection),
            ),
    {
        let ghost before = *self;
        proof {
            before.lemma_no_empty_entry();
        }
        let mut sessions = match self.by_actor.remove(address) {
            Some(sessions) => sessions,
            None => KeyedMap::new(),
        };
        assert(sessions@ == sessions_of(before@, address@));
        let fresh = sessions.insert(session_id, connection).is_none();
        proof {
            sessions.lemma_order();
            assert(sessions@.dom().contains(session_id@));
            assert(sessions@.dom().len() > 0);
        }
        self.by_actor.insert(address.duplicate(), sessions);
        assert(self@ =~= before@.insert(address@, sessions@));
        fresh
    }

    /// Takes a Session of an Actor off the list.
    pub fn unregister_actor(
        &mut self,
        address: &ActorAddress,
        session_id: &SessionId,
    ) -> (removed: bool)
        requires
            old(self).wf(),
        ensures
            final(self).wf(),
            removed == sessions_of(old(self)@, address@).dom().contains(session_id@),
            removed ==> final(self)@ == with_sessions(
                old(self)@,
                address@,
                sessions_of(old(self)@, address@).remove(session_id@),
            ),
            !removed ==> final(self)@ == old(self)@,
    {
        let ghost before = *self;
        let mut sessions = match self.by_actor.remove(address) {
            Some(sessions) => sessions,
            None => {
                assert(self@ =~= before@);
                return false;
            },
        };
        let removed = sessions.remove(session_id).is_some();
        if sessions.len() > 0 {
            self.by_actor.insert(address.duplicate(), sessions);
            assert(!removed ==> sessions@ =~= before@[address@]);
            assert(self@ =~= before@.insert(address@, sessions@));
            assert(!removed ==> self@ =~= before@);
        } else {
            assert(!removed ==> sessions@ =~= before@[address@]);
            assert(self@ =~= before@.remove(address@));
        }
        removed
    }

    /// The number of live Sessions of an Actor.
    pub fn session_count(&self, address: &ActorAddress) -> (count: usize)
        requires
            self.wf(),
        ensures
            count == sessions_of(self@, address@).dom().len(),
    {
        match self.by_actor.get(address) {
            Some(sessions) => sessions.len(),
            None => 0,
        }
    }

    /// Whether an Actor has live Sessions.
    pub fn has_live_sessions(&self, address: &ActorAddress) -> (live: bool)
        requires
            self.wf(),
        ensures
            live == (sessions_of(self@, address@).dom().len() > 0),
    {
        self.session_count(address) > 0
    }

    /// The live Sessions of an Actor, each once.
    pub fn by_actor_snapshot(&self, address: &ActorAddress) -> (sessions: Vec<SessionId>)
        requires
            self.wf(),
        ensures
            sessions@.map_values(|s: SessionId| s@).no_duplicates(),
            sessions@.map_values(|s: SessionId| s@).to_set() == sessions_of(
                self@,
                address@,
            ).dom(),
    {
        match self.by_actor.get(address) {
            Some(sessions) => {
                proof {
                    sessions.lemma_order();
                }
                sessions.keys()
            },
            None => {
                let sessions: Vec<SessionId> = Vec::new();
                assert(sessions@.map_values(|s: SessionId| s@).to_set() =~= Set::<Seq<u8>>::empty());
                sessions
            },
        }
    }

    /// The Actors that have live Sessions, each once.
    pub fn by_actor_addresses(&self) -> (addresses: Vec<ActorAddress>)
        requires
            self.wf(),
        ensures
            addresses@.map_values(|a: ActorAddress| a@).no_duplicates(),
            addresses@.map_values(|a: ActorAddress| a@).to_set() == self@.dom(),
    {
        proof {
            self.by_actor.lemma_order();
            assert(self@.dom() =~= self.by_actor@.dom());
        }
        self.by_actor.keys()
    }

    /// The connection on which a live Session receives.
    pub fn sink(&self, address: &ActorAddress, session_id: &SessionId) -> (connection: Option<u64>)
        requires
            self.wf(),
        ensures
            connection is Some == sessions_of(self@, address@).dom().contains(session_id@),
            connection matches Some(c) ==> c == sessions_of(self@, address@)[session_id@],
    {
        match self.by_actor.get(address) {
            Some(sessions) => match sessions.get(session_id) {
                Some(connection) => Some(*connection),
                None => None,
            },
            None => None,
        }
    }

    /// Whether a live Session receives on the given connection.
    pub fn is_bound_to(
        &self,
        address: &ActorAddress,
        session_id: &SessionId,
        connection: u64,
    ) -> (bound: bool)
        requires
            self.wf(),
        ensures
            bound == bound_to(self@, address@, session_id@, connection),
    {
        match self.sink(address, session_id) {
            Some(sink) => sink == connection,
            None => false,
        }
    }

    /// The Event for a live Session, on the connection that it receives on; an
    /// error for a Session that is gone.
    pub fn deliver_event(
        &self,
        address: &ActorAddress,
        session_id: SessionId,
        payload: Vec<u8>,
    ) -> (event: Result<Outgoing, SendError>)
        requires
            self.wf(),
        ensures
            event is Ok == sessions_of(self@, address@).dom().contains(session_id@),
            event matches Ok(out) ==> out.connection == sessions_of(self@, address@)[session_id@]
                && out.envelope.is_reply(session_id@, Kind::Event { payload }),
            event matches Err(e) ==> e == SendError::ActorStopped,
    {
        match self.sink(address, &session_id) {
            Some(connection) => Ok(
                Outgoing {
                    connection,
                    envelope: Envelope::reply(session_id.as_bytes(), Kind::Event { payload }),
                },
            ),
            None => Err(SendError::ActorStopped),
        }
    }

    /// Ends a Session with an error: it is taken off the list, and its caller is
    /// told why if it was on it.
    pub fn terminate(
        &mut self,
        address: &ActorAddress,
        session_id: &SessionId,
        error: &SendError,
    ) -> (notice: Option<Outgoing>)
        requires
            old(self).wf(),
        ensures
            final(self).wf(),
            notice is Some == sessions_of(old(self)@, address@).dom().contains(session_id@),
            notice matches Some(out) ==> is_notice(
                out,
                sessions_of(old(self)@, address@)[session_id@],
                session_id@,
                *error,
            ) && final(self)@ == with_sessions(
                old(self)@,
                address@,
                sessions_of(old(self)@, address@).remove(session_id@),
            ),
            notice is None ==> final(self)@ == old(self)@,
    {
        let sink = self.sink(address, session_id);
        self.unregister_actor(address, session_id);
        match sink {
            Some(connection) => Some(
                Outgoing {
                    connection,
                    envelope: Envelope::reply(
                        session_id.as_bytes(),
                        Kind::SessionError { failure: error.to_wire() },
                    ),
                },
            ),
            None => None,
        }
    }

    /// Ends all Sessions of an Actor with an error and tells their callers.
    pub fn terminate_all(
        &mut self,
        address: &ActorAddress,
        error: &SendError,
    ) -> (notices: Vec<Outgoing>)
        requires
            old(self).wf(),
        ensures
            final(self).wf(),
            final(self)@ == old(self)@.remove(address@),
            are_notices(notices@, sessions_of(old(self)@, address@), *error),
    {
        let ghost before = self@;
        let ghost sessions = sessions_of(before, address@);
        proof {
            self.lemma_no_empty_entry();
        }
        let ids = self.by_actor_snapshot(address);
        let ghost views = ids@.map_values(|s: SessionId| s@);
        let mut notices: Vec<Outgoing> = Vec::new();
        let mut i: usize = 0;
        assert(self@ == remaining(before, address@, views, 0)) by {
            assert(sessions =~= sessions.remove_keys(views.subrange(0, 0).to_set()));
            assert(self@ =~= remaining(before, address@, views, 0));
        }
        while i < ids.len()
            invariant
                self.wf(),
                i <= ids@.len(),
                views == ids@.map_values(|s: SessionId| s@),
                views.no_duplicates(),
                views.to_set() == sessions.dom(),
                sessions == sessions_of(before, address@),
                sessions.dom().finite(),
                self@ == remaining(before, address@, views, i as int),
                notices@.len() == i,
                forall|j: int|
                    0 <= j < i ==> is_notice(
                        #[trigger] notices@[j],
                        sessions[views[j]],
                        views[j],
                        *error,
                    ),
            decreases ids@.len() - i,
        {
            let ghost left = sessions.remove_keys(views.subrange(0, i as int).to_set());
            let ghost step = self@;
            assert(ids@[i as int]@ == views[i as int]);
            assert(left.dom().contains(views[i as int])) by {
                assert(views.to_set().contains(views[i as int]));
                if views.subrange(0, i as int).to_set().contains(views[i as int]) {
                    let j = choose|j: int| 0 <= j < i && views.subrange(0, i as int)[j] == views[i as int];
                    assert(views[j] == views[i as int]);
                }
            }
            assert(left.dom() =~= sessions.dom().difference(views.subrange(0, i as int).to_set()));
            assert(left.dom().finite());
            assert(left.dom().len() > 0);
            assert(sessions_of(step, address@) == left);
            match self.terminate(address, &ids[i], error) {
                Some(notice) => {
                    notices.push(notice);
                },
                None => {
                    assert(false);
                },
            }
            proof {
                let next = views.subrange(0, i + 1);
                assert(next.to_set() =~= views.subrange(0, i as int).to_set().insert(
                    views[i as int],
                )) by {
                    assert forall|x: Seq<u8>| next.to_set().contains(x)
                        implies views.subrange(0, i as int).to_set().insert(views[i as int]).contains(x) by {
                        let j = choose|j: int| 0 <= j < next.len() && next[j] == x;
                        if j < i {
                            assert(views.subrange(0, i as int)[j] == x);
                        }
                    }
                    assert forall|x: Seq<u8>| views.subrange(0, i as int).to_set().insert(views[i as int]).contains(x)
                        implies next.to_set().contains(x) by {
                        if x == views[i as int] {
                            assert(next[i as int] == x);
                        } else {
                            let j = choose|j: int| 0 <= j < i && views.subrange(0, i as int)[j] == x;
                            assert(next[j] == x);
                        }
                    }
                }
                assert(left.remove(views[i as int]) =~= sessions.remove_keys(next.to_set()));
                assert(self@ =~= remaining(before, address@, views, i + 1));
            }
            i += 1;
        }
        proof {
            assert(views.subrange(0, views.len() as int) =~= views);
            let left = sessions.remove_keys(views.to_set());
            assert(left.dom() =~= Set::<Seq<u8>>::empty());
            assert(self@ =~= before.remove(address@));
        }
        notices
    }

    /// The live Sessions that receive on a connection, each once.
    pub fn by_sender_snapshot(&self, connection: u64) -> (bound: Vec<(ActorAddress, SessionId)>)
        requires
            self.wf(),
        ensures
            forall|i: int|
                0 <= i < bound@.len() ==> bound_to(
                    self@,
                    (#[trigger] bound@[i]).0@,
                    bound@[i].1@,
                    connection,
                ),
            forall|address: AddressView, session_id: Seq<u8>| #[trigger]
                bound_to(self@, address, session_id, connection) ==> exists|i: int|
                    0 <= i < bound@.len() && (#[trigger] bound@[i]).0@ == address
                        && bound@[i].1@ == session_id,
            each_once(bound@),
    {
        let addresses = self.by_actor_addresses();
        let ghost listed = addresses@.map_values(|a: ActorAddress| a@);
        let mut bound: Vec<(ActorAddress, SessionId)> = Vec::new();
        let mut i: usize = 0;
        while i < addresses.len()
            invariant
                self.wf(),
                i <= addresses@.len(),
                listed == addresses@.map_values(|a: ActorAddress| a@),
                listed.to_set() == self@.dom(),
                listed.no_duplicates(),
                each_once(bound@),
                forall|k: int|
                    0 <= k < bound@.len() ==> listed.subrange(0, i as int).contains(
                        (#[trigger] bound@[k]).0@,
                    ),
                forall|k: int|
                    0 <= k < bound@.len() ==> bound_to(
                        self@,
                        (#[trigger] bound@[k]).0@,
                        bound@[k].1@,
                        connection,
                    ),
                forall|j: int, session_id: Seq<u8>| #![trigger bound_to(self@, listed[j], session_id, connection)]
                    0 <= j < i && bound_to(self@, listed[j], session_id, connection)
                        ==> exists|k: int|
                        0 <= k < bound@.len() && (#[trigger] bound@[k]).0@ == listed[j]
                            && bound@[k].1@ == session_id,
            decreases addresses@.len() - i,
        {
            let ids = self.by_actor_snapshot(&addresses[i]);
            let ghost views = ids@.map_values(|s: SessionId| s@);
            let ghost address = listed[i as int];
            let ghost start = bound@.len();
            assert(addresses@[i as int]@ == address);
            let mut n: usize = 0;
            while n < ids.len()
                invariant
                    self.wf(),
                    i < addresses@.len(),
                    n <= ids@.len(),
                    listed == addresses@.map_values(|a: ActorAddress| a@),
                    address == listed[i as int],
                    addresses@[i as int]@ == address,
                    views == ids@.map_values(|s: SessionId| s@),
                    views.no_duplicates(),
                    listed.no_duplicates(),
                    each_once(bound@),
                    start <= bound@.len(),
                    forall|k: int|
                        0 <= k < start ==> listed.subrange(0, i as int).contains(
                            (#[trigger] bound@[k]).0@,
                        ),
                    forall|k: int|
                        start <= k < bound@.len() ==> (#[trigger] bound@[k]).0@ == address
                            && views.subrange(0, n as int).contains(bound@[k].1@),
                    forall|k: int|
                        0 <= k < bound@.len() ==> bound_to(
                            self@,
                            (#[trigger] bound@[k]).0@,
                            bound@[k].1@,
                            connection,
                        ),
                    forall|j: int, session_id: Seq<u8>| #![trigger bound_to(self@, listed[j], session_id, connection)]
                        0 <= j < i && bound_to(self@, listed[j], session_id, connection)
                            ==> exists|k: int|
                            0 <= k < bound@.len() && (#[trigger] bound@[k]).0@ == listed[j]
                                && bound@[k].1@ == session_id,
                    forall|m: int| #![trigger views[m]]
                        0 <= m < n && bound_to(self@, address, views[m], connection)
                            ==> exists|k: int|
                            0 <= k < bound@.len() && (#[trigger] bound@[k]).0@ == address
                                && bound@[k].1@ == views[m],
                decreases ids@.len() - n,
            {
                let ghost before = bound@;
                assert(views[n as int] == ids@[n as int]@);
                assert(views.subrange(0, n + 1) =~= views.subrange(0, n as int).push(views[n as int]));
                assert(forall|id: Seq<u8>|
                    views.subrange(0, n as int).contains(id) ==> views.subrange(0, n + 1).contains(
                        id,
                    )) by {
                    assert forall|id: Seq<u8>|
                        views.subrange(0, n as int).contains(id) implies views.subrange(
                        0,
                        n + 1,
                    ).contains(id) by {
                        let m = choose|m: int|
                            0 <= m < n && views.subrange(0, n as int)[m] == id;
                        assert(views.subrange(0, n + 1)[m] == id);
                    }
                }
                if self.is_bound_to(&addresses[i], &ids[n], connection) {
                    bound.push((addresses[i].duplicate(), ids[n]));
                    proof {
                        let last = before.len() as int;
                        assert(bound@[last].0@ == address && bound@[last].1@ == views[n as int]);
                        assert(views.subrange(0, n + 1)[n as int] == views[n as int]);
                        assert(!listed.subrange(0, i as int).contains(address));
                        assert(!views.subrange(0, n as int).contains(views[n as int]));
                        assert forall|k: int| 0 <= k < before.len() implies #[trigger] bound@[k]
                            == before[k] by {}
                        assert forall|j: int, session_id: Seq<u8>|
                            0 <= j < i && #[trigger] bound_to(self@, listed[j], session_id, connection)
                            implies exists|k: int|
                            0 <= k < bound@.len() && (#[trigger] bound@[k]).0@ == listed[j]
                                && bound@[k].1@ == session_id by {
                            let k = choose|k: int|
                                0 <= k < before.len() && (#[trigger] before[k]).0@ == listed[j]
                                    && before[k].1@ == session_id;
                            assert(bound@[k] == before[k]);
                        }
                        assert forall|m: int|
                            0 <= m < n + 1 && bound_to(self@, address, #[trigger] views[m], connection)
                            implies exists|k: int|
                            0 <= k < bound@.len() && (#[trigger] bound@[k]).0@ == address
                                && bound@[k].1@ == views[m] by {
                            if m < n {
                                let k = choose|k: int|
                                    0 <= k < before.len() && (#[trigger] before[k]).0@ == address
                                        && before[k].1@ == views[m];
                                assert(bound@[k] == before[k]);
                            }
                        }
                    }
                }
                n += 1;
            }
            assert forall|session_id: Seq<u8>| #[trigger]
                bound_to(self@, address, session_id, connection) implies exists|k: int|
                0 <= k < bound@.len() && (#[trigger] bound@[k]).0@ == address && bound@[k].1@
                    == session_id by {
                assert(views.to_set().contains(session_id));
                let m = choose|m: int| 0 <= m < views.len() && views[m] == session_id;
                assert(bound_to(self@, address, views[m], connection));
            }
            assert forall|k: int| 0 <= k < bound@.len() implies listed.subrange(
                0,
                i + 1,
            ).contains((#[trigger] bound@[k]).0@) by {
                if k < start {
                    let j = choose|j: int|
                        0 <= j < i && listed.subrange(0, i as int)[j] == bound@[k].0@;
                    assert(listed.subrange(0, i + 1)[j] == bound@[k].0@);
                } else {
                    assert(listed.subrange(0, i + 1)[i as int] == address);
                }
            }
            i += 1;
        }
        assert forall|address: AddressView, session_id: Seq<u8>| #[trigger]
            bound_to(self@, address, session_id, connection) implies exists|k: int|
            0 <= k < bound@.len() && (#[trigger] bound@[k]).0@ == address && bound@[k].1@
                == session_id by {
            assert(self@.dom().contains(address));
            assert(listed.to_set().contains(address));
            let j = choose|j: int| 0 <= j < listed.len() && listed[j] == address;
            assert(bound_to(self@, listed[j], session_id, connection));
        }
        bound
    }
}

/// No Session of an Actor is listed twice.
pub open spec fn each_once(bound: Seq<(ActorAddress, SessionId)>) -> bool {
    forall|i: int, j: int|
        0 <= i < j < bound.len() ==> (#[trigger] bound[i]).0@ != (#[trigger] bound[j]).0@
            || bound[i].1@ != bound[j].1@
}

/// The registry once the first `done` of an Actor's Sessions are off the list.
spec fn remaining(
    registry: Map<AddressView, SessionsView>,
    address: AddressView,
    ids: Seq<Seq<u8>>,
    done: int,
) -> Map<AddressView, SessionsView> {
    with_sessions(
        registry,
        address,
        sessions_of(registry, address).remove_keys(ids.subrange(0, done).to_set()),
    )
}

/// One notice for each of the Sessions, and no other.
pub open spec fn are_notices(
    notices: Seq<Outgoing>,
    sessions: SessionsView,
    error: SendError,
) -> bool {
    exists|ids: Seq<Seq<u8>>| #[trigger]
        ids.no_duplicates() && ids.to_set() == sessions.dom() && ids.len() == notices.len()
            && forall|i: int|
            0 <= i < notices.len() ==> is_notice(
                #[trigger] notices[i],
                sessions[ids[i]],
                ids[i],
                error,
            )
}

/// A live Session of an Actor receives on the given connection.
pub open spec fn bound_to(
    registry: Map<AddressView, SessionsView>,
    address: AddressView,
    session_id: Seq<u8>,
    connection: u64,
) -> bool {
    let sessions = sessions_of(registry, address);
    sessions.dom().contains(session_id) && sessions[session_id] == connection
}

/// The notice that tells the caller of a Session why it ended.
pub open spec fn is_notice(
    out: Outgoing,
    connection: u64,
    session_id: Seq<u8>,
    error: SendError,
) -> bool {
    &&& out.connection == connection
    &&& out.envelope.is_reply(session_id, Kind::SessionError { failure: failure_of(error).code() })
}

/// Taking a Session off the list undoes putting it there.
pub proof fn law_unregister_undoes_register(
    registry: Map<AddressView, SessionsView>,
    address: AddressView,
    session_id: Seq<u8>,
    connection: u64,
)
    requires
        !sessions_of(registry, address).dom().contains(session_id),
        registry.dom().contains(address) ==> registry[address].dom().len() > 0
            && registry[address].dom().finite(),
    ensures
        ({
            let listed = registry.insert(
                address,
                sessions_of(registry, address).insert(session_id, connection),
            );
            with_sessions(listed, address, sessions_of(listed, address).remove(session_id))
                == registry
        }),
{
    let sessions = sessions_of(registry, address);
    let listed = registry.insert(address, sessions.insert(session_id, connection));
    assert(sessions.insert(session_id, connection).remove(session_id) =~= sessions);
    assert(with_sessions(listed, address, sessions) =~= registry);
}

/// What the host reports of an Event it put on a connection.
pub fn delivered(admitted: bool) -> (result: Result<(), SendError>)
    ensures
        result is Ok == admitted,
        result matches Err(e) ==> e == SendError::RemoteUnavailable,
{
    if admitted {
        Ok(())
    } else {
        Err(SendError::RemoteUnavailable)
    }
}

/// Sixteen bytes are an identity, and nothing else is.
pub proof fn law_identities_have_sixteen_bytes(bytes: Seq<u8>)
    ensures
        session_id_of(bytes) is Some <==> bytes.len() == 16,
        bytes.len() == 16 ==> session_id_of(bytes) == Some(bytes),
{
}

/// What is put for one Actor is what is found for it; the Sessions of every other Actor
/// stay. An Actor without Sessions is not listed.
pub proof fn law_sessions_are_kept_by_actor(
    registry: Map<AddressView, SessionsView>,
    address: AddressView,
    sessions: SessionsView,
    other: AddressView,
)
    requires
        sessions.dom().finite(),
    ensures
        sessions_of(with_sessions(registry, address, sessions), address) == sessions,
        other != address ==> sessions_of(with_sessions(registry, address, sessions), other)
            == sessions_of(registry, other),
        with_sessions(registry, address, sessions).dom().contains(address) <==> sessions.dom().len()
            > 0,
        !registry.dom().contains(other) ==> sessions_of(registry, other).dom() == Set::<
            Seq<u8>,
        >::empty(),
        registry.dom().contains(other) ==> sessions_of(registry, other) == registry[other],
{
    if sessions.dom().len() == 0 {
        assert(sessions.dom() =~= Set::<Seq<u8>>::empty());
        assert(sessions =~= Map::<Seq<u8>, u64>::empty());
    }
}

/// A Session is bound to the connection that it was listed with last, and to no other.
pub proof fn law_sessions_are_bound_to_one_connection(
    registry: Map<AddressView, SessionsView>,
    address: AddressView,
    session_id: Seq<u8>,
    connection: u64,
    other: u64,
)
    ensures
        ({
            let listed = registry.insert(
                address,
                sessions_of(registry, address).insert(session_id, connection),
            );
            bound_to(listed, address, session_id, other) <==> other == connection
        }),
        !registry.dom().contains(address) ==> !bound_to(registry, address, session_id, connection),
{
}

/// Every Session gets one notice, over the connection that it receives on: the error under
/// its number, for the Session and nothing else.
pub proof fn law_every_session_gets_its_notice(
    notices: Seq<Outgoing>,
    sessions: SessionsView,
    error: SendError,
    session_id: Seq<u8>,
)
    requires
        are_notices(notices, sessions, error),
        sessions.dom().contains(session_id),
    ensures
        exists|i: int|
            0 <= i < notices.len() && (#[trigger] notices[i]).connection == sessions[session_id]
                && notices[i].envelope.session_id@ == session_id && notices[i].envelope.kind == Some(
                Kind::SessionError { failure: failure_of(error).code() },
            ),
        notices.len() == sessions.dom().len(),
{
    let ids = choose|ids: Seq<Seq<u8>>| #[trigger]
        ids.no_duplicates() && ids.to_set() == sessions.dom() && ids.len() == notices.len()
            && forall|i: int|
            0 <= i < notices.len() ==> is_notice(
                #[trigger] notices[i],
                sessions[ids[i]],
                ids[i],
                error,
            );
    assert(ids.to_set().contains(session_id));
    let i = choose|i: int| 0 <= i < ids.len() && ids[i] == session_id;
    assert(is_notice(notices[i], sessions[ids[i]], ids[i], error));
    ids.unique_seq_to_set();
}

/// No Session is named twice in a list that names each once.
pub proof fn law_sessions_are_named_once(bound: Seq<(ActorAddress, SessionId)>, i: int, j: int)
    requires
        each_once(bound),
        0 <= i < bound.len(),
        0 <= j < bound.len(),
        bound[i].0@ == bound[j].0@,
        bound[i].1@ == bound[j].1@,
    ensures
        i == j,
{
}

} // verus!
