//! Which Servers a Client considers for an Actor that nobody owns.

use vstd::prelude::*;
use vstd::string::*;

use crate::actor::ActorAddress;
use crate::cluster::authority::{NodeRecord, NodeView};
use crate::cluster::placement::{
    CandidateView, PlacementCandidate, PlacementContext, PlacementStrategy,
};
use crate::error::SendError;
use crate::keyed::Key;
use crate::text::{blank, is_blank};
use crate::transport::Endpoint;
use crate::transport_protocol::TRANSPORT_PROTOCOL_VERSION;

verus! {

/// How long a list of candidates is used, in nanoseconds.
pub const PLACEMENT_CACHE_TTL: u64 = 3_000_000_000;

/// A Server that new Actors can be placed on: it speaks our version, has an
/// endpoint, is neither pressured nor draining, and has room.
pub open spec fn eligible(node: NodeView) -> bool {
    &&& node.protocol_version == TRANSPORT_PROTOCOL_VERSION
    &&& !blank(node.advertised_endpoint)
    &&& !node.pressured
    &&& !node.draining
    &&& node.active_actor_count < node.max_actor_count
}

/// The candidate that a Server is.
pub open spec fn candidate_of(node: NodeView) -> CandidateView {
    CandidateView {
        endpoint: node.advertised_endpoint,
        active: node.active_actor_count as nat,
        max: node.max_actor_count as nat,
    }
}

/// The mathematical values of nodes.
pub open spec fn node_views(nodes: Seq<NodeRecord>) -> Seq<NodeView> {
    nodes.map_values(|n: NodeRecord| n@)
}

/// The mathematical values of candidates.
pub open spec fn candidate_views(candidates: Seq<PlacementCandidate>) -> Seq<CandidateView> {
    candidates.map_values(|c: PlacementCandidate| c@)
}

/// The candidates among the Servers of a directory, in its order.
pub open spec fn candidates_among(nodes: Seq<NodeView>) -> Seq<CandidateView> {
    nodes.filter(|n: NodeView| eligible(n)).map_values(|n: NodeView| candidate_of(n))
}

/// The candidates among the Servers of a directory.
pub fn hard_filter(nodes: &Vec<NodeRecord>) -> (candidates: Vec<PlacementCandidate>)
    ensures
        candidate_views(candidates@) == candidates_among(node_views(nodes@)),
{
    let ghost views = node_views(nodes@);
    let ghost keep = |n: NodeView| eligible(n);
    let ghost turn = |n: NodeView| candidate_of(n);
    let mut candidates: Vec<PlacementCandidate> = Vec::new();
    let mut i: usize = 0;
    reveal(Seq::filter);
    assert(views.take(0) =~= Seq::<NodeView>::empty());
    assert(candidate_views(candidates@) =~= views.take(0).filter(keep).map_values(turn));
    while i < nodes.len()
        invariant
            i <= nodes@.len(),
            views == node_views(nodes@),
            keep == (|n: NodeView| eligible(n)),
            turn == (|n: NodeView| candidate_of(n)),
            candidate_views(candidates@) == views.take(i as int).filter(keep).map_values(turn),
        decreases nodes@.len() - i,
    {
        reveal(Seq::filter);
        let node = &nodes[i];
        let ghost held = candidates@;
        let ghost earlier = views.take(i as int).filter(keep);
        assert(views.take(i + 1).drop_last() =~= views.take(i as int));
        assert(views[i as int] == node@);
        if node.protocol_version == TRANSPORT_PROTOCOL_VERSION && !is_blank(
            node.advertised_endpoint.as_str(),
        ) && !node.pressured && !node.draining && node.active_actor_count < node.max_actor_count {
            let candidate = PlacementCandidate {
                endpoint: node.advertised_endpoint.clone(),
                active_actor_count: node.active_actor_count,
                max_actor_count: node.max_actor_count,
            };
            candidates.push(candidate);
            assert(candidate@ == candidate_of(node@));
            assert(candidate_views(candidates@) =~= candidate_views(held).push(candidate@));
            assert(earlier.push(node@).map_values(turn) =~= earlier.map_values(turn).push(
                candidate_of(node@),
            ));
        }
        i += 1;
    }
    assert(views.take(i as int) =~= views);
    candidates
}

/// A name is on a list.
pub open spec fn listed(names: Seq<String>, name: Seq<char>) -> bool {
    exists|i: int| 0 <= i < names.len() && (#[trigger] names[i])@ == name
}

/// Whether a name is on a list.
pub fn is_listed(names: &Vec<String>, name: &String) -> (found: bool)
    ensures
        found == listed(names@, name@),
{
    let mut i: usize = 0;
    while i < names.len()
        invariant
            i <= names@.len(),
            forall|j: int| 0 <= j < i ==> (#[trigger] names@[j])@ != name@,
        decreases names@.len() - i,
    {
        if names[i] == *name {
            assert(names@[i as int]@ == name@);
            return true;
        }
        i += 1;
    }
    false
}

/// The candidates whose endpoints are not excluded.
pub open spec fn without_excluded(
    candidates: Seq<CandidateView>,
    excluded: Seq<String>,
) -> Seq<CandidateView> {
    candidates.filter(|c: CandidateView| !listed(excluded, c.endpoint))
}

/// Leaves out the candidates whose endpoints are excluded.
pub fn exclude(candidates: &Vec<PlacementCandidate>, excluded: &Vec<String>) -> (left: Vec<
    PlacementCandidate,
>)
    ensures
        candidate_views(left@) == without_excluded(candidate_views(candidates@), excluded@),
{
    let ghost views = candidate_views(candidates@);
    let ghost keep = |c: CandidateView| !listed(excluded@, c.endpoint);
    let mut left: Vec<PlacementCandidate> = Vec::new();
    let mut i: usize = 0;
    reveal(Seq::filter);
    assert(views.take(0) =~= Seq::<CandidateView>::empty());
    assert(candidate_views(left@) =~= views.take(0).filter(keep));
    while i < candidates.len()
        invariant
            i <= candidates@.len(),
            views == candidate_views(candidates@),
            keep == (|c: CandidateView| !listed(excluded@, c.endpoint)),
            candidate_views(left@) == views.take(i as int).filter(keep),
        decreases candidates@.len() - i,
    {
        reveal(Seq::filter);
        let ghost held = left@;
        assert(views.take(i + 1).drop_last() =~= views.take(i as int));
        assert(views[i as int] == candidates@[i as int]@);
        if !is_listed(excluded, &candidates[i].endpoint) {
            let copy = candidates[i].duplicate();
            left.push(copy);
            assert(candidate_views(left@) =~= candidate_views(held).push(copy@));
        }
        i += 1;
    }
    assert(views.take(i as int) =~= views);
    left
}

/// An endpoint belongs to one of the candidates.
pub open spec fn is_candidate(candidates: Seq<CandidateView>, endpoint: Seq<char>) -> bool {
    exists|i: int| 0 <= i < candidates.len() && (#[trigger] candidates[i]).endpoint == endpoint
}

/// `choice` is the first of the ordered endpoints that belongs to a candidate.
pub open spec fn first_valid(
    ordered: Seq<String>,
    candidates: Seq<CandidateView>,
    choice: Result<Seq<char>, SendError>,
) -> bool {
    match choice {
        Ok(endpoint) => exists|at: int|
            #![trigger ordered[at]]
            0 <= at < ordered.len() && ordered[at]@ == endpoint && is_candidate(
                candidates,
                endpoint,
            ) && forall|j: int|
                0 <= j < at ==> !is_candidate(candidates, (#[trigger] ordered[j])@),
        Err(error) => error == SendError::RuntimeAtCapacity && forall|j: int|
            0 <= j < ordered.len() ==> !is_candidate(candidates, (#[trigger] ordered[j])@),
    }
}

/// The endpoint of a choice.
pub open spec fn choice_view(choice: Result<Endpoint, SendError>) -> Result<Seq<char>, SendError> {
    match choice {
        Ok(endpoint) => Ok(endpoint@),
        Err(error) => Err(error),
    }
}

fn has_candidate(candidates: &Vec<PlacementCandidate>, endpoint: &String) -> (found: bool)
    ensures
        found == is_candidate(candidate_views(candidates@), endpoint@),
{
    let ghost views = candidate_views(candidates@);
    let mut i: usize = 0;
    while i < candidates.len()
        invariant
            i <= candidates@.len(),
            views == candidate_views(candidates@),
            forall|j: int| 0 <= j < i ==> (#[trigger] views[j]).endpoint != endpoint@,
        decreases candidates@.len() - i,
    {
        assert(views[i as int] == candidates@[i as int]@);
        if candidates[i].endpoint == *endpoint {
            assert(views[i as int].endpoint == endpoint@);
            return true;
        }
        i += 1;
    }
    false
}

/// The first of the endpoints that a strategy ordered which belongs to a
/// candidate. A strategy cannot bring in an endpoint of its own.
pub fn choose_candidate(ordered: &Vec<String>, candidates: &Vec<PlacementCandidate>) -> (choice:
    Result<Endpoint, SendError>)
    ensures
        first_valid(ordered@, candidate_views(candidates@), choice_view(choice)),
{
    let mut i: usize = 0;
    while i < ordered.len()
        invariant
            i <= ordered@.len(),
            forall|j: int|
                0 <= j < i ==> !is_candidate(
                    candidate_views(candidates@),
                    (#[trigger] ordered@[j])@,
                ),
        decreases ordered@.len() - i,
    {
        if has_candidate(candidates, &ordered[i]) {
            let endpoint = Endpoint::new(ordered[i].clone());
            assert(ordered@[i as int]@ == endpoint@);
            return Ok(endpoint);
        }
        i += 1;
    }
    Err(SendError::RuntimeAtCapacity)
}

/// Chooses a Server for an Actor that nobody owns: the strategy is asked to order
/// the candidates that are not excluded, and the first one in its order is taken.
pub fn select_placement_candidate<P: PlacementStrategy>(
    address: &ActorAddress,
    candidates: &Vec<PlacementCandidate>,
    excluded: &Vec<String>,
    placement: &mut P,
    now: u64,
) -> (choice: Result<Endpoint, SendError>)
    requires
        old(placement).sound(),
    ensures
        final(placement).sound(),
        ({
            let left = without_excluded(candidate_views(candidates@), excluded@);
            if left.len() == 0 {
                choice == Err::<Endpoint, SendError>(SendError::RuntimeAtCapacity)
                    && *final(placement) == *old(placement)
            } else {
                exists|given: Seq<PlacementCandidate>, ordered: Seq<String>|
                    candidate_views(given) == left && #[trigger] P::ranks(
                        *old(placement),
                        address@,
                        given,
                        now,
                        *final(placement),
                        ordered,
                    ) && first_valid(ordered, left, choice_view(choice))
            }
        }),
{
    let left = exclude(candidates, excluded);
    assert(candidate_views(left@).len() == left@.len());
    if left.len() == 0 {
        return Err(SendError::RuntimeAtCapacity);
    }
    let ctx = PlacementContext { candidates: left };
    let ordered = placement.candidates(address, &ctx, now);
    let choice = choose_candidate(&ordered, &ctx.candidates);
    assert(first_valid(ordered@, candidate_views(ctx.candidates@), choice_view(choice)));
    choice
}

/// Whatever a strategy answers, an endpoint that is chosen belongs to a
/// candidate and is not excluded.
pub proof fn law_excluded_endpoints_are_not_chosen(
    candidates: Seq<CandidateView>,
    excluded: Seq<String>,
    ordered: Seq<String>,
    endpoint: Seq<char>,
)
    requires
        first_valid(ordered, without_excluded(candidates, excluded), Ok(endpoint)),
    ensures
        is_candidate(candidates, endpoint),
        !listed(excluded, endpoint),
{
    let keep = |c: CandidateView| !listed(excluded, c.endpoint);
    let left = candidates.filter(keep);
    assert(is_candidate(left, endpoint));
    let i = choose|i: int| 0 <= i < left.len() && (#[trigger] left[i]).endpoint == endpoint;
    candidates.filter_lemma(keep);
    assert(keep(left[i]));
    candidates.lemma_filter_contains_rev(keep, left[i]);
    let j = choose|j: int| 0 <= j < candidates.len() && candidates[j] == left[i];
    assert(candidates[j].endpoint == endpoint);
}

/// Every candidate is a Server of the directory that has room for one more
/// Actor.
pub proof fn law_candidates_have_room(nodes: Seq<NodeView>, i: int)
    requires
        0 <= i < candidates_among(nodes).len(),
    ensures
        candidates_among(nodes)[i].active < candidates_among(nodes)[i].max,
        exists|n: NodeView| #[trigger]
            nodes.contains(n) && eligible(n) && candidate_of(n) == candidates_among(nodes)[i],
{
    let keep = |n: NodeView| eligible(n);
    let kept = nodes.filter(keep);
    nodes.filter_lemma(keep);
    assert(keep(kept[i]));
    nodes.lemma_filter_contains_rev(keep, kept[i]);
}

/// A Server is a candidate if it has room, is neither pressured nor draining, speaks
/// our version and has an endpoint; and it is one under its own endpoint, with the
/// load that it reports. Nothing else keeps it out.
pub proof fn law_servers_with_room_are_candidates(nodes: Seq<NodeView>, node: NodeView)
    requires
        nodes.contains(node),
        node.protocol_version == TRANSPORT_PROTOCOL_VERSION,
        exists|i: int|
            0 <= i < node.advertised_endpoint.len() && !crate::text::white_space(
                #[trigger] node.advertised_endpoint[i],
            ),
        !node.pressured,
        !node.draining,
        node.active_actor_count < node.max_actor_count,
    ensures
        exists|i: int|
            0 <= i < candidates_among(nodes).len() && (#[trigger] candidates_among(
                nodes,
            )[i]).endpoint == node.advertised_endpoint && candidates_among(nodes)[i].active
                == node.active_actor_count && candidates_among(nodes)[i].max
                == node.max_actor_count,
{
    let keep = |n: NodeView| eligible(n);
    assert(keep(node));
    let at = choose|at: int| 0 <= at < nodes.len() && nodes[at] == node;
    nodes.lemma_filter_contains(keep, at);
    let kept = nodes.filter(keep);
    let i = choose|i: int| 0 <= i < kept.len() && kept[i] == node;
    assert(candidates_among(nodes)[i] == candidate_of(node));
}

/// A Server that is full, pressured, draining, without an endpoint, or of another
/// version is no candidate.
pub proof fn law_servers_without_room_are_left_out(nodes: Seq<NodeView>, i: int)
    requires
        0 <= i < candidates_among(nodes).len(),
    ensures
        exists|node: NodeView| #[trigger]
            nodes.contains(node) && node.advertised_endpoint == candidates_among(nodes)[i].endpoint
                && node.active_actor_count == candidates_among(nodes)[i].active
                && node.max_actor_count == candidates_among(nodes)[i].max && !node.pressured
                && !node.draining && node.active_actor_count < node.max_actor_count
                && node.protocol_version == TRANSPORT_PROTOCOL_VERSION && !(forall|k: int|
                0 <= k < node.advertised_endpoint.len() ==> crate::text::white_space(
                    #[trigger] node.advertised_endpoint[k],
                )),
{
    let keep = |n: NodeView| eligible(n);
    let kept = nodes.filter(keep);
    nodes.filter_lemma(keep);
    assert(keep(kept[i]));
    nodes.lemma_filter_contains_rev(keep, kept[i]);
    assert(nodes.contains(kept[i]));
}

/// What is not excluded is left, in the order it had; what is excluded is not.
pub proof fn law_exclusion_leaves_the_others(
    candidates: Seq<CandidateView>,
    excluded: Seq<String>,
    candidate: CandidateView,
)
    ensures
        without_excluded(candidates, excluded).contains(candidate) <==> candidates.contains(
            candidate,
        ) && forall|i: int|
            0 <= i < excluded.len() ==> (#[trigger] excluded[i])@ != candidate.endpoint,
        excluded.len() == 0 ==> without_excluded(candidates, excluded) == candidates,
{
    let keep = |c: CandidateView| !listed(excluded, c.endpoint);
    let left = candidates.filter(keep);
    candidates.filter_lemma(keep);
    if left.contains(candidate) {
        let i = choose|i: int| 0 <= i < left.len() && left[i] == candidate;
        assert(keep(left[i]));
        candidates.lemma_filter_contains_rev(keep, candidate);
    }
    if candidates.contains(candidate) && keep(candidate) {
        let at = choose|at: int| 0 <= at < candidates.len() && candidates[at] == candidate;
        candidates.lemma_filter_contains(keep, at);
    }
    if excluded.len() == 0 {
        lemma_filter_all(candidates, keep);
    }
}

proof fn lemma_filter_all<A>(items: Seq<A>, keep: spec_fn(A) -> bool)
    requires
        forall|i: int| 0 <= i < items.len() ==> keep(#[trigger] items[i]),
    ensures
        items.filter(keep) == items,
    decreases items.len(),
{
    reveal(Seq::filter);
    if items.len() > 0 {
        lemma_filter_all(items.drop_last(), keep);
        assert(items.drop_last().push(items.last()) =~= items);
    } else {
        assert(items.filter(keep) =~= items);
    }
}

/// A choice is the earliest of the endpoints in order that belongs to a candidate;
/// there is none exactly if no endpoint in order belongs to one.
pub proof fn law_the_earliest_candidate_is_chosen(
    ordered: Seq<String>,
    candidates: Seq<CandidateView>,
    choice: Result<Seq<char>, SendError>,
    at: int,
    which: int,
)
    requires
        first_valid(ordered, candidates, choice),
        0 <= at < ordered.len(),
        0 <= which < candidates.len(),
        ordered[at]@ == candidates[which].endpoint,
        forall|j: int, k: int|
            0 <= j < at && 0 <= k < candidates.len() ==> (#[trigger] ordered[j])@ != (
            #[trigger] candidates[k]).endpoint,
    ensures
        choice == Ok::<Seq<char>, SendError>(candidates[which].endpoint),
{
    assert(is_candidate(candidates, ordered[at]@));
    match choice {
        Ok(endpoint) => {
            let chosen = choose|c: int|
                #![trigger ordered[c]]
                0 <= c < ordered.len() && ordered[c]@ == endpoint && is_candidate(
                    candidates,
                    endpoint,
                ) && forall|j: int|
                    0 <= j < c ==> !is_candidate(candidates, (#[trigger] ordered[j])@);
            if chosen < at {
                let k = choose|k: int|
                    0 <= k < candidates.len() && (#[trigger] candidates[k]).endpoint == endpoint;
                assert(ordered[chosen]@ != candidates[k].endpoint);
            }
            if at < chosen {
                assert(!is_candidate(candidates, ordered[at]@));
            }
        },
        Err(_) => {
            assert(!is_candidate(candidates, ordered[at]@));
        },
    }
}

} // verus!
