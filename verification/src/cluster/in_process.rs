//! Ownership over a Coordination Store within the process, from end to end.

use vstd::prelude::*;
use vstd::string::*;

use crate::actor::{ActorAddress, AddressView};
use crate::cluster::authority::{unowned_record, OwnerView, StoreReply, VersionedView};
use crate::cluster::routing::{
    claim_record, next_epoch, ClusterRouter, OwnerRelease, ReleaseAction, Resolution,
    ResolveAction, ResolvedOwner,
};
use crate::error::SendError;
use crate::keyed::Key;
use crate::runtime::route::{RouteTable, TableView};
use crate::test_support::{owner_written, stands, StoreView, TestCoordinationStore};

verus! {

/// The owner of an Actor that a store names.
pub open spec fn stored_owner(store: StoreView, address: AddressView) -> Option<OwnerView> {
    if store.owners.dom().contains(address) {
        store.owners[address].record.owner
    } else {
        None
    }
}

/// The ownership record of an Actor, if a store holds one.
pub open spec fn stored_record(store: StoreView, address: AddressView) -> Option<VersionedView> {
    if store.owners.dom().contains(address) {
        Some(store.owners[address])
    } else {
        None
    }
}

/// An owner holds the lease that its ownership rests on.
pub open spec fn holds_lease(store: StoreView, owner: OwnerView, now: u64) -> bool {
    stands(store, owner.node_id, now) && store.leases[owner.node_id].node.session_id
        == owner.session_id
}

/// What a resolution over a store comes to: its result, and the store after it.
/// An Actor of another life that holds its lease stays where it is; any other is
/// claimed, if there is room for it.
pub open spec fn resolved_over(
    store: StoreView,
    me: OwnerView,
    address: AddressView,
    now: u64,
    room: bool,
) -> (Result<ResolvedOwner, SendError>, StoreView) {
    let owner = stored_owner(store, address);
    if owner == Some(me) {
        (Ok(ResolvedOwner::Local { reserved: false }), store)
    } else if owner matches Some(o) && o.node_id != me.node_id && holds_lease(store, o, now) {
        (Ok(ResolvedOwner::Remote), store)
    } else if !room {
        (Err(SendError::RuntimeAtCapacity), store)
    } else {
        (
            Ok(ResolvedOwner::Local { reserved: true }),
            owner_written(
                store,
                address,
                claim_record(me, next_epoch(stored_record(store, address))),
            ),
        )
    }
}

/// Finds the Owner of an Actor over a store, and becomes it if nobody else is.
pub fn resolve_over<K: Key, M, T>(
    store: &mut TestCoordinationStore,
    router: ClusterRouter,
    address: &ActorAddress,
    routes: &mut RouteTable<K, M, T>,
    now: u64,
) -> (result: Result<ResolvedOwner, SendError>)
    requires
        old(store).wf(),
        old(store)@.revisions < u64::MAX,
        old(routes).wf(),
    ensures
        final(store).wf(),
        final(routes).wf(),
        (result, final(store)@) == resolved_over(
            old(store)@,
            router@,
            address@,
            now,
            old(routes)@.available() > 0,
        ),
        final(routes)@ == if result == Ok::<ResolvedOwner, SendError>(
            ResolvedOwner::Local { reserved: true },
        ) {
            TableView { reserved: old(routes)@.reserved + 1, ..old(routes)@ }
        } else {
            old(routes)@
        },
{
    let (mut resolution, _) = Resolution::begin(router);
    let read = StoreReply::Ready(store.read_actor_owner(address));
    let action = match resolution.on_owner(read, routes) {
        ResolveAction::ReadNode { node_id } => {
            let node = StoreReply::Ready(store.read_node(node_id.as_str(), now));
            resolution.on_node(node, routes)
        },
        other => other,
    };
    match action {
        ResolveAction::CompareExchange { record, revision } => {
            let outcome = store.compare_exchange_actor_owner(address, record, revision.as_ref());
            match resolution.on_exchange(StoreReply::Ready(outcome), routes) {
                ResolveAction::Finish(result) => result,
                _ => {
                    assert(false);
                    Err(SendError::OwnershipUnavailable)
                },
            }
        },
        ResolveAction::Finish(result) => result,
        _ => {
            assert(false);
            Err(SendError::OwnershipUnavailable)
        },
    }
}

/// Gives the ownership of an Actor up over a store.
pub fn release_over(
    store: &mut TestCoordinationStore,
    router: ClusterRouter,
    address: &ActorAddress,
) -> (result: Result<(), SendError>)
    requires
        old(store).wf(),
        old(store)@.revisions < u64::MAX,
    ensures
        final(store).wf(),
        if stored_owner(old(store)@, address@) == Some(router@) {
            &&& result is Ok
            &&& final(store)@ == owner_written(
                old(store)@,
                address@,
                unowned_record(old(store)@.owners[address@].record.ownership_epoch),
            )
        } else {
            &&& result == Err::<(), SendError>(SendError::OwnershipUnavailable)
            &&& final(store)@ == old(store)@
        },
{
    let (mut release, _) = OwnerRelease::begin(router);
    let read = StoreReply::Ready(store.read_actor_owner(address));
    match release.on_owner(read) {
        ReleaseAction::Release { record, revision } => {
            let outcome = store.compare_exchange_actor_owner(address, record, Some(&revision));
            match release.on_exchange(StoreReply::Ready(outcome)) {
                ReleaseAction::Finish(result) => result,
                _ => {
                    assert(false);
                    Err(SendError::OwnershipUnavailable)
                },
            }
        },
        ReleaseAction::Finish(result) => result,
        ReleaseAction::ReadOwner => {
            assert(false);
            Err(SendError::OwnershipUnavailable)
        },
    }
}

/// An Actor has one Owner at a time: once a Server owns it and holds its lease, a
/// resolution by any other node finds it there and changes nothing, and one by
/// the Owner itself finds it local.
pub proof fn law_one_owner_at_a_time(
    store: StoreView,
    owner: OwnerView,
    other: OwnerView,
    address: AddressView,
    now: u64,
    room: bool,
    other_room: bool,
)
    requires
        resolved_over(store, owner, address, now, room).0 matches Ok(ResolvedOwner::Local { .. }),
        holds_lease(store, owner, now),
        other.node_id != owner.node_id,
    ensures
        ({
            let after = resolved_over(store, owner, address, now, room).1;
            &&& stored_owner(after, address) == Some(owner)
            &&& resolved_over(after, owner, address, now, room) == (
                Ok::<ResolvedOwner, SendError>(ResolvedOwner::Local { reserved: false }),
                after,
            )
            &&& resolved_over(after, other, address, now, other_room) == (
                Ok::<ResolvedOwner, SendError>(ResolvedOwner::Remote),
                after,
            )
        }),
{
}

/// Failover: once the lease of the Owner no longer stands, another Server with
/// room takes the Actor over, in a later epoch as long as the counter has not
/// reached its end; the former Owner then no longer owns it.
pub proof fn law_failover(
    store: StoreView,
    former: OwnerView,
    successor: OwnerView,
    address: AddressView,
    now: u64,
)
    requires
        stored_owner(store, address) == Some(former),
        !holds_lease(store, former, now),
        successor != former,
        store.owners[address].record.ownership_epoch < u64::MAX,
    ensures
        ({
            let (result, after) = resolved_over(store, successor, address, now, true);
            &&& result == Ok::<ResolvedOwner, SendError>(ResolvedOwner::Local { reserved: true })
            &&& stored_owner(after, address) == Some(successor)
            &&& after.owners[address].record.ownership_epoch
                > store.owners[address].record.ownership_epoch
        }),
{
}

/// What is released can be claimed by anybody with room, in a later epoch as long
/// as the counter has not reached its end.
pub proof fn law_released_actors_are_free(
    store: StoreView,
    next: OwnerView,
    address: AddressView,
    now: u64,
)
    requires
        store.owners.dom().contains(address),
        store.owners[address].record.ownership_epoch < u64::MAX,
    ensures
        ({
            let epoch = store.owners[address].record.ownership_epoch;
            let released = owner_written(store, address, unowned_record(epoch));
            let (result, after) = resolved_over(released, next, address, now, true);
            &&& result == Ok::<ResolvedOwner, SendError>(ResolvedOwner::Local { reserved: true })
            &&& stored_owner(after, address) == Some(next)
            &&& after.owners[address].record.ownership_epoch == epoch + 1
        }),
{
}

/// An Actor that another Server owns under its lease is never taken from it, and one that
/// nobody owns, or whose Owner let its lease go, is taken by a Server with room: under its
/// own name, and one epoch on, or in the first. No other Actor changes hands.
pub proof fn law_resolution_over_a_store(
    store: StoreView,
    me: OwnerView,
    address: AddressView,
    other: AddressView,
    now: u64,
    room: bool,
)
    ensures
        ({
            let (result, after) = resolved_over(store, me, address, now, room);
            let listed = store.owners.dom().contains(address);
            let owner = store.owners[address].record.owner;
            let mine = listed && owner == Some(me);
            let others = listed && owner is Some && owner->0.node_id != me.node_id && holds_lease(
                store,
                owner->0,
                now,
            );
            &&& mine ==> result == Ok::<ResolvedOwner, SendError>(
                ResolvedOwner::Local { reserved: false },
            ) && after == store
            &&& others ==> result == Ok::<ResolvedOwner, SendError>(ResolvedOwner::Remote) && after
                == store
            &&& !mine && !others && !room ==> result == Err::<ResolvedOwner, SendError>(
                SendError::RuntimeAtCapacity,
            ) && after == store
            &&& !mine && !others && room ==> {
                &&& result == Ok::<ResolvedOwner, SendError>(ResolvedOwner::Local { reserved: true })
                &&& after.owners.dom().contains(address)
                &&& after.owners[address].record.owner == Some(me)
                &&& !listed ==> after.owners[address].record.ownership_epoch == 1
                &&& listed && store.owners[address].record.ownership_epoch < u64::MAX
                    ==> after.owners[address].record.ownership_epoch
                    == store.owners[address].record.ownership_epoch + 1
            }
            &&& other != address ==> (after.owners.dom().contains(other)
                <==> store.owners.dom().contains(other)) && after.owners[other]
                == store.owners[other]
            &&& after.leases == store.leases
        }),
{
}

/// An owner holds its lease while the lease stands and names the same life.
pub proof fn law_leases_belong_to_one_life(store: StoreView, owner: OwnerView, now: u64)
    ensures
        holds_lease(store, owner, now) ==> store.leases.dom().contains(owner.node_id)
            && store.leases[owner.node_id].node.session_id == owner.session_id,
        store.leases.dom().contains(owner.node_id) && now < store.leases[owner.node_id].expires
            && store.leases[owner.node_id].node.session_id == owner.session_id ==> holds_lease(
            store,
            owner,
            now,
        ),
        store.leases.dom().contains(owner.node_id) && now
            >= store.leases[owner.node_id].expires ==> !holds_lease(store, owner, now),
{
}

} // verus!
