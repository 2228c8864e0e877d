//! Placement of Actors that nobody owns.
//!
//! The Client collects and filters the candidates; a strategy only orders them.
//! The default samples two candidates and prefers the one with the lower load
//! ratio. It counts the placements it has decided on but that no lease reflects
//! yet, so that concurrent decisions do not all run to the same Server.

use rand::rngs::StdRng;
use rand::{RngCore, SeedableRng};
use vstd::prelude::*;
use vstd::string::*;

use crate::actor::{ActorAddress, AddressView};
use crate::keyed::{Key, KeyedMap};

verus! {

/// How long a decided placement counts: about one renewal of a lease, after
/// which the lease itself reflects it. In nanoseconds.
pub const IN_FLIGHT_TTL: u64 = 3_000_000_000;

/// The generator of rand that the default strategy samples with.
#[verifier::external_type_specification]
#[verifier::external_body]
pub struct ExStdRng(StdRng);

/// `rand::SeedableRng::from_os_rng` for `StdRng`: a generator seeded by the
/// operating system. Nothing is known of it. The call panics where the operating
/// system has no entropy to give.
#[verifier::external_body]
pub(crate) fn seeded_rng() -> StdRng {
    StdRng::from_os_rng()
}

/// `rand::RngCore::next_u64` for `StdRng`: some number.
#[verifier::external_body]
pub(crate) fn sample(rng: &mut StdRng) -> u64 {
    rng.next_u64()
}

/// What a placement decision is made from: the candidates that are left after
/// hard filtering.
pub struct PlacementContext {
    pub candidates: Vec<PlacementCandidate>,
}

/// A candidate: its endpoint and a snapshot of its load.
pub struct PlacementCandidate {
    pub endpoint: String,
    pub active_actor_count: usize,
    pub max_actor_count: usize,
}

/// A candidate as a mathematical value.
pub struct CandidateView {
    pub endpoint: Seq<char>,
    pub active: nat,
    pub max: nat,
}

impl View for PlacementCandidate {
    type V = CandidateView;

    open spec fn view(&self) -> CandidateView {
        CandidateView {
            endpoint: self.endpoint@,
            active: self.active_actor_count as nat,
            max: self.max_actor_count as nat,
        }
    }
}

impl Key for PlacementCandidate {
    fn same(&self, other: &Self) -> (same: bool) {
        self.endpoint == other.endpoint && self.active_actor_count == other.active_actor_count
            && self.max_actor_count == other.max_actor_count
    }

    fn duplicate(&self) -> (copy: Self) {
        PlacementCandidate {
            endpoint: self.endpoint.clone(),
            active_actor_count: self.active_actor_count,
            max_actor_count: self.max_actor_count,
        }
    }
}

impl Clone for PlacementCandidate {
    fn clone(&self) -> (copy: Self)
        ensures
            copy@ == self@,
    {
        self.duplicate()
    }
}

/// Orders candidates. An empty answer means that there is no Server to try.
pub trait PlacementStrategy: Sized {
    /// The state of the strategy is sound.
    spec fn sound(&self) -> bool;

    /// The strategy may answer with `ordered`, and be in the state `after`, when it
    /// is asked for an Actor in the state `before`.
    spec fn ranks(
        before: Self,
        address: AddressView,
        candidates: Seq<PlacementCandidate>,
        now: u64,
        after: Self,
        ordered: Seq<String>,
    ) -> bool;

    /// The candidates to try, best first.
    fn candidates(&mut self, address: &ActorAddress, ctx: &PlacementContext, now: u64) -> (ordered:
        Vec<String>)
        requires
            old(self).sound(),
        ensures
            final(self).sound(),
            Self::ranks(*old(self), address@, ctx.candidates@, now, *final(self), ordered@),
    ;

    /// A placement on this endpoint has failed.
    fn on_placement_failed(&mut self, endpoint: &str)
        requires
            old(self).sound(),
        ensures
            final(self).sound(),
    ;
}

/// The default strategy: the less loaded of two sampled candidates.
pub struct P2cPlacement {
    rng: StdRng,
    in_flight: KeyedMap<String, (usize, u64)>,
}

/// The placements that were decided on but are not reflected yet: how many for
/// each endpoint, and when the last one was decided.
pub type InFlightView = Map<Seq<char>, (usize, u64)>;

/// The placements that still count at a moment.
pub open spec fn still_counting(in_flight: InFlightView, now: u64) -> InFlightView {
    Map::new(
        |endpoint: Seq<char>|
            in_flight.dom().contains(endpoint) && now - in_flight[endpoint].1 < IN_FLIGHT_TTL,
        |endpoint: Seq<char>| in_flight[endpoint],
    )
}

/// The placements that count for an endpoint.
pub open spec fn extra_load(in_flight: InFlightView, endpoint: Seq<char>) -> nat {
    if in_flight.dom().contains(endpoint) {
        in_flight[endpoint].0 as nat
    } else {
        0
    }
}

/// The Actors that a candidate is expected to run.
pub open spec fn expected_load(candidate: CandidateView, in_flight: InFlightView) -> nat {
    candidate.active + extra_load(in_flight, candidate.endpoint)
}

/// The capacity that the load of a candidate is measured against.
pub open spec fn measure(candidate: CandidateView) -> nat {
    if candidate.max == 0 {
        1
    } else {
        candidate.max
    }
}

/// The expected load ratio of one candidate is below that of another.
pub open spec fn less_loaded(
    left: CandidateView,
    right: CandidateView,
    in_flight: InFlightView,
) -> bool {
    expected_load(left, in_flight) * measure(right) < expected_load(right, in_flight) * measure(
        left,
    )
}

/// One more placement was decided for an endpoint.
pub open spec fn counted(in_flight: InFlightView, endpoint: Seq<char>, now: u64) -> InFlightView {
    let count = extra_load(in_flight, endpoint);
    in_flight.insert(
        endpoint,
        (
            if count < usize::MAX {
                (count + 1) as usize
            } else {
                usize::MAX
            },
            now,
        ),
    )
}

/// The endpoints of two sampled candidates in the order in which they are tried.
/// The first sample stays first unless the second is less loaded.
pub open spec fn ordered(
    candidates: Seq<PlacementCandidate>,
    first: int,
    second: int,
    in_flight: InFlightView,
) -> Seq<Seq<char>> {
    if first == second {
        seq![candidates[first]@.endpoint]
    } else if less_loaded(candidates[second]@, candidates[first]@, in_flight) {
        seq![candidates[second]@.endpoint, candidates[first]@.endpoint]
    } else {
        seq![candidates[first]@.endpoint, candidates[second]@.endpoint]
    }
}

/// `order` and `after` are what a decision between two sampled candidates comes
/// to.
pub open spec fn decided(
    before: InFlightView,
    after: InFlightView,
    candidates: Seq<PlacementCandidate>,
    first: int,
    second: int,
    now: u64,
    order: Seq<String>,
) -> bool {
    let counting = still_counting(before, now);
    let endpoints = ordered(candidates, first, second, counting);
    &&& order.map_values(|s: String| s@) == endpoints
    &&& after == counted(counting, endpoints[0], now)
}

/// Compares two fractions with positive denominators.
fn fraction_less(a: u128, b: u64, c: u128, d: u64) -> (less: bool)
    requires
        b > 0,
        d > 0,
    ensures
        less == (a * d < c * b),
{
    let q1: u128 = a / b as u128;
    let q2: u128 = c / d as u128;
    let r1: u128 = a % b as u128;
    let r2: u128 = c % d as u128;
    assert(a == q1 * b + r1) by (nonlinear_arith)
        requires
            b > 0,
            q1 == a / b as u128,
            r1 == a % b as u128,
    ;
    assert(c == q2 * d + r2) by (nonlinear_arith)
        requires
            d > 0,
            q2 == c / d as u128,
            r2 == c % d as u128,
    ;
    assert(r1 < b && r2 < d);
    assert(a * d == q1 * b * d + r1 * d) by (nonlinear_arith)
        requires
            a == q1 * b + r1,
    ;
    assert(c * b == q2 * b * d + r2 * b) by (nonlinear_arith)
        requires
            c == q2 * d + r2,
    ;
    assert(r1 * d < b * d) by (nonlinear_arith)
        requires
            r1 < b,
            d > 0,
    ;
    assert(r2 * b < b * d) by (nonlinear_arith)
        requires
            r2 < d,
            b > 0,
    ;
    assert(r1 * d <= 0xffff_ffff_ffff_ffff * 0xffff_ffff_ffff_ffff && r2 * b
        <= 0xffff_ffff_ffff_ffff * 0xffff_ffff_ffff_ffff) by (nonlinear_arith)
        requires
            r1 < b,
            r2 < d,
            b <= 0xffff_ffff_ffff_ffff,
            d <= 0xffff_ffff_ffff_ffff,
            r1 >= 0,
            r2 >= 0,
    ;
    if q1 == q2 {
        r1 * (d as u128) < r2 * (b as u128)
    } else {
        proof {
            if q1 < q2 {
                assert(q1 * b * d + b * d <= q2 * b * d) by (nonlinear_arith)
                    requires
                        q1 + 1 <= q2,
                        b > 0,
                        d > 0,
                ;
                assert(r2 * b >= 0) by (nonlinear_arith)
                    requires
                        r2 >= 0,
                        b > 0,
                ;
            } else {
                assert(q2 * b * d + b * d <= q1 * b * d) by (nonlinear_arith)
                    requires
                        q2 + 1 <= q1,
                        b > 0,
                        d > 0,
                ;
                assert(r1 * d >= 0) by (nonlinear_arith)
                    requires
                        r1 >= 0,
                        d > 0,
                ;
            }
        }
        q1 < q2
    }
}

impl P2cPlacement {
    /// The placements that were decided on but are not reflected yet.
    pub closed spec fn in_flight(&self) -> InFlightView {
        self.in_flight@
    }

    /// No endpoint is counted twice.
    pub closed spec fn wf(&self) -> bool {
        self.in_flight.wf()
    }

    /// A strategy that the operating system seeds.
    pub fn new() -> (placement: Self)
        ensures
            placement.wf(),
            placement.in_flight() == InFlightView::empty(),
    {
        P2cPlacement { rng: seeded_rng(), in_flight: KeyedMap::new() }
    }

    /// A strategy over a given generator.
    pub fn with_rng(rng: StdRng) -> (placement: Self)
        ensures
            placement.wf(),
            placement.in_flight() == InFlightView::empty(),
    {
        P2cPlacement { rng, in_flight: KeyedMap::new() }
    }

    /// The placements that count for an endpoint.
    pub fn in_flight_count(&self, endpoint: &str) -> (count: usize)
        requires
            self.wf(),
        ensures
            count == extra_load(self.in_flight(), endpoint@),
    {
        match self.in_flight.get(&endpoint.to_owned()) {
            Some(entry) => entry.0,
            None => 0,
        }
    }

    fn is_less_loaded(&self, left: &PlacementCandidate, right: &PlacementCandidate) -> (less: bool)
        requires
            self.wf(),
        ensures
            less == less_loaded(left@, right@, self.in_flight()),
    {
        let left_load: u128 = left.active_actor_count as u128 + self.in_flight_count(
            left.endpoint.as_str(),
        ) as u128;
        let right_load: u128 = right.active_actor_count as u128 + self.in_flight_count(
            right.endpoint.as_str(),
        ) as u128;
        let left_max: u64 = if left.max_actor_count == 0 {
            1
        } else {
            left.max_actor_count as u64
        };
        let right_max: u64 = if right.max_actor_count == 0 {
            1
        } else {
            right.max_actor_count as u64
        };
        fraction_less(left_load, left_max, right_load, right_max)
    }

    fn expire(&mut self, now: u64)
        requires
            old(self).wf(),
        ensures
            final(self).wf(),
            final(self).in_flight() == still_counting(old(self).in_flight(), now),
    {
        let keys = self.in_flight.keys();
        let ghost before = self.in_flight@;
        proof {
            self.in_flight.lemma_order();
        }
        let ghost order = self.in_flight.order();
        let mut i: usize = 0;
        while i < keys.len()
            invariant
                self.wf(),
                i <= keys@.len(),
                order == keys@.map_values(|k: String| k@),
                order.to_set() == before.dom(),
                forall|e: Seq<char>| #[trigger]
                    self.in_flight@.dom().contains(e) ==> before.dom().contains(e)
                        && self.in_flight@[e] == before[e],
                forall|e: Seq<char>| #[trigger]
                    before.dom().contains(e) && !self.in_flight@.dom().contains(e) ==> now
                        - before[e].1 >= IN_FLIGHT_TTL,
                forall|j: int|
                    #![trigger order[j]]
                    0 <= j < i && self.in_flight@.dom().contains(order[j]) ==> now
                        - before[order[j]].1 < IN_FLIGHT_TTL,
            decreases keys@.len() - i,
        {
            assert(order[i as int] == keys@[i as int]@);
            let expired = match self.in_flight.get(&keys[i]) {
                Some(entry) => now.saturating_sub(entry.1) >= IN_FLIGHT_TTL,
                None => false,
            };
            if expired {
                self.in_flight.remove(&keys[i]);
            }
            i += 1;
        }
        proof {
            assert forall|e: Seq<char>| #[trigger]
                self.in_flight@.dom().contains(e) implies now - before[e].1 < IN_FLIGHT_TTL by {
                assert(order.to_set().contains(e));
                let j = choose|j: int| 0 <= j < order.len() && order[j] == e;
                assert(self.in_flight@.dom().contains(order[j]));
            }
            assert(self.in_flight@ =~= still_counting(before, now));
        }
    }

    /// Decides between two sampled candidates, and counts the decision.
    pub fn decide(&mut self, ctx: &PlacementContext, first: usize, second: usize, now: u64) -> (
        order: Vec<String>)
        requires
            old(self).wf(),
            first < ctx.candidates@.len(),
            second < ctx.candidates@.len(),
        ensures
            final(self).wf(),
            decided(
                old(self).in_flight(),
                final(self).in_flight(),
                ctx.candidates@,
                first as int,
                second as int,
                now,
                order@,
            ),
    {
        self.expire(now);
        let swap = first != second && self.is_less_loaded(
            &ctx.candidates[second],
            &ctx.candidates[first],
        );
        let (best, rest): (usize, usize) = if swap {
            (second, first)
        } else {
            (first, second)
        };
        let target = ctx.candidates[best].endpoint.clone();
        let count: usize = self.in_flight_count(target.as_str());
        self.in_flight.insert(target.clone(), (count.saturating_add(1), now));
        let mut order: Vec<String> = Vec::new();
        order.push(target);
        if best != rest {
            order.push(ctx.candidates[rest].endpoint.clone());
        }
        proof {
            let counting = still_counting(old(self).in_flight(), now);
            let endpoints = ordered(ctx.candidates@, first as int, second as int, counting);
            assert(order@.map_values(|s: String| s@) =~= endpoints);
        }
        order
    }

    /// Orders two candidates that are sampled at random, or the only one there
    /// is.
    pub fn pick(&mut self, ctx: &PlacementContext, now: u64) -> (order: Vec<String>)
        requires
            old(self).wf(),
        ensures
            final(self).wf(),
            ctx.candidates@.len() == 0 ==> order@.len() == 0 && final(self).in_flight() == old(
                self,
            ).in_flight(),
            ctx.candidates@.len() > 0 ==> exists|first: int, second: int|
                0 <= first < ctx.candidates@.len() && 0 <= second < ctx.candidates@.len() && (
                ctx.candidates@.len() > 1 ==> first != second) && #[trigger] decided(
                    old(self).in_flight(),
                    final(self).in_flight(),
                    ctx.candidates@,
                    first,
                    second,
                    now,
                    order@,
                ),
    {
        let n: usize = ctx.candidates.len();
        if n == 0 {
            return Vec::new();
        }
        let first: usize = (sample(&mut self.rng) % n as u64) as usize;
        let mut second: usize = (sample(&mut self.rng) % n as u64) as usize;
        let mut tries: u64 = u64::MAX;
        while n > 1 && second == first && tries > 0
            invariant
                self.in_flight == old(self).in_flight,
                n == ctx.candidates@.len(),
                first < n,
                second < n,
            decreases tries,
        {
            second = (sample(&mut self.rng) % n as u64) as usize;
            tries -= 1;
        }
        if n > 1 && second == first {
            second = if first + 1 < n {
                first + 1
            } else {
                0
            };
        }
        assert(self.in_flight() == old(self).in_flight());
        assert(n > 1 ==> first != second);
        let order = self.decide(ctx, first, second, now);
        assert(decided(
            old(self).in_flight(),
            self.in_flight(),
            ctx.candidates@,
            first as int,
            second as int,
            now,
            order@,
        ));
        order
    }

    /// Takes one decided placement back.
    pub fn roll_back(&mut self, endpoint: &str)
        requires
            old(self).wf(),
        ensures
            final(self).wf(),
            final(self).in_flight() == rolled_back(old(self).in_flight(), endpoint@),
    {
        let key = endpoint.to_owned();
        let entry: Option<(usize, u64)> = match self.in_flight.get(&key) {
            Some(entry) => Some(*entry),
            None => None,
        };
        if let Some((count, updated)) = entry {
            self.in_flight.insert(key, (count.saturating_sub(1), updated));
        }
    }
}

/// One decided placement for an endpoint was taken back.
pub open spec fn rolled_back(in_flight: InFlightView, endpoint: Seq<char>) -> InFlightView {
    if in_flight.dom().contains(endpoint) {
        let (count, updated) = in_flight[endpoint];
        in_flight.insert(
            endpoint,
            (
                if count > 0 {
                    (count - 1) as usize
                } else {
                    0
                },
                updated,
            ),
        )
    } else {
        in_flight
    }
}

impl PlacementStrategy for P2cPlacement {
    open spec fn sound(&self) -> bool {
        self.wf()
    }

    open spec fn ranks(
        before: Self,
        address: AddressView,
        candidates: Seq<PlacementCandidate>,
        now: u64,
        after: Self,
        ordered: Seq<String>,
    ) -> bool {
        if candidates.len() == 0 {
            ordered.len() == 0 && after.in_flight() == before.in_flight()
        } else {
            exists|first: int, second: int|
                0 <= first < candidates.len() && 0 <= second < candidates.len() && (
                candidates.len() > 1 ==> first != second) && #[trigger] decided(
                    before.in_flight(),
                    after.in_flight(),
                    candidates,
                    first,
                    second,
                    now,
                    ordered,
                )
        }
    }

    fn candidates(&mut self, _address: &ActorAddress, ctx: &PlacementContext, now: u64) -> (ordered:
        Vec<String>)
    {
        self.pick(ctx, now)
    }

    fn on_placement_failed(&mut self, endpoint: &str)
        ensures
            final(self).in_flight() == rolled_back(old(self).in_flight(), endpoint@),
    {
        self.roll_back(endpoint);
    }
}

/// The strategy that Clients use unless told otherwise.
pub fn default_placement() -> (placement: P2cPlacement)
    ensures
        placement.wf(),
        placement.in_flight() == InFlightView::empty(),
{
    P2cPlacement::new()
}

/// A decision names candidates only, and the one it prefers is not more loaded
/// than the other.
pub proof fn law_the_less_loaded_is_preferred(
    before: InFlightView,
    after: InFlightView,
    candidates: Seq<PlacementCandidate>,
    first: int,
    second: int,
    now: u64,
    order: Seq<String>,
)
    requires
        decided(before, after, candidates, first, second, now, order),
        0 <= first < candidates.len(),
        0 <= second < candidates.len(),
        first != second,
    ensures
        order.len() == 2,
        exists|best: int, rest: int|
            #![trigger candidates[best], candidates[rest]]
            ((best == first && rest == second) || (best == second && rest == first)) && order[0]@
                == candidates[best]@.endpoint && order[1]@ == candidates[rest]@.endpoint
                && !less_loaded(
                candidates[rest]@,
                candidates[best]@,
                still_counting(before, now),
            ),
{
    let counting = still_counting(before, now);
    let views = order.map_values(|s: String| s@);
    assert(views.len() == order.len());
    assert(views[0] == order[0]@);
    assert(views[1] == order[1]@);
    let l = candidates[first]@;
    let r = candidates[second]@;
    if less_loaded(r, l, counting) {
        assert(!less_loaded(l, r, counting));
        assert(order[0]@ == candidates[second]@.endpoint);
    } else {
        assert(order[0]@ == candidates[first]@.endpoint);
    }
}

/// Taking a decided placement back restores the count that it raised, as long as
/// the count has not reached its end.
pub proof fn law_roll_back_undoes_a_decision(in_flight: InFlightView, endpoint: Seq<char>, now: u64)
    requires
        extra_load(in_flight, endpoint) < usize::MAX,
    ensures
        extra_load(rolled_back(counted(in_flight, endpoint, now), endpoint), endpoint)
            == extra_load(in_flight, endpoint),
        forall|other: Seq<char>| other != endpoint ==> #[trigger] extra_load(
            rolled_back(counted(in_flight, endpoint, now), endpoint),
            other,
        ) == extra_load(in_flight, other),
{
}

/// Of two equally loaded candidates of the same capacity, the one that was
/// decided on is not preferred the next time.
pub proof fn law_decisions_steer_away(
    left: CandidateView,
    right: CandidateView,
    in_flight: InFlightView,
    now: u64,
)
    requires
        left.endpoint != right.endpoint,
        measure(left) == measure(right),
        expected_load(left, in_flight) == expected_load(right, in_flight),
        extra_load(in_flight, left.endpoint) < usize::MAX,
    ensures
        less_loaded(right, left, counted(in_flight, left.endpoint, now)),
{
    let after = counted(in_flight, left.endpoint, now);
    assert(expected_load(left, after) == expected_load(left, in_flight) + 1);
    assert(expected_load(right, after) == expected_load(right, in_flight));
    let m = measure(left);
    let a = expected_load(left, in_flight);
    assert(a * m < (a + 1) * m) by (nonlinear_arith)
        requires
            m > 0,
    ;
}

/// Of two sampled candidates the first in the order runs at the lower share of its
/// capacity, where a placement in flight weighs as much as one Actor that runs, and a
/// capacity of zero counts as one. A placement is in flight for three seconds. Of
/// candidates at the same share, the one that was sampled first is preferred.
pub proof fn law_a_placement_in_flight_weighs_one_actor(
    before: InFlightView,
    after: InFlightView,
    candidates: Seq<PlacementCandidate>,
    first: int,
    second: int,
    now: u64,
    order: Seq<String>,
    first_flying: nat,
    second_flying: nat,
)
    requires
        decided(before, after, candidates, first, second, now, order),
        0 <= first < candidates.len(),
        0 <= second < candidates.len(),
        first != second,
        first_flying == if before.dom().contains(candidates[first].endpoint@) && now
            - before[candidates[first].endpoint@].1 < 3_000_000_000 {
            before[candidates[first].endpoint@].0 as nat
        } else {
            0
        },
        second_flying == if before.dom().contains(candidates[second].endpoint@) && now
            - before[candidates[second].endpoint@].1 < 3_000_000_000 {
            before[candidates[second].endpoint@].0 as nat
        } else {
            0
        },
    ensures
        ({
            let a = candidates[first];
            let b = candidates[second];
            let a_room = if a.max_actor_count == 0 {
                1int
            } else {
                a.max_actor_count as int
            };
            let b_room = if b.max_actor_count == 0 {
                1int
            } else {
                b.max_actor_count as int
            };
            let swapped = (b.active_actor_count + second_flying) * a_room < (a.active_actor_count
                + first_flying) * b_room;
            &&& order.len() == 2
            &&& swapped ==> order[0]@ == b.endpoint@ && order[1]@ == a.endpoint@
            &&& !swapped ==> order[0]@ == a.endpoint@ && order[1]@ == b.endpoint@
        }),
{
    let views = order.map_values(|s: String| s@);
    assert(views.len() == order.len());
    assert(views[0] == order[0]@);
    assert(views[1] == order[1]@);
}

/// A candidate that runs some Actors and is expected to get more ranks exactly like
/// one that runs them all already.
pub proof fn law_expected_actors_rank_like_running_ones(
    candidate: CandidateView,
    other: CandidateView,
    in_flight: InFlightView,
    flying: usize,
    moment: u64,
)
    requires
        candidate.endpoint != other.endpoint,
        in_flight.dom().contains(candidate.endpoint),
        in_flight[candidate.endpoint] == (flying, moment),
    ensures
        less_loaded(candidate, other, in_flight) == less_loaded(
            CandidateView { active: candidate.active + flying as nat, ..candidate },
            other,
            in_flight.remove(candidate.endpoint),
        ),
        less_loaded(other, candidate, in_flight) == less_loaded(
            other,
            CandidateView { active: candidate.active + flying as nat, ..candidate },
            in_flight.remove(candidate.endpoint),
        ),
{
}

/// A candidate with fewer Actors and no less capacity is less loaded, and the
/// comparison never holds both ways.
pub proof fn law_fewer_actors_are_less_load(
    left: CandidateView,
    right: CandidateView,
    in_flight: InFlightView,
)
    requires
        !in_flight.dom().contains(left.endpoint),
        !in_flight.dom().contains(right.endpoint),
        left.active < right.active,
        left.max >= right.max,
        right.max > 0,
    ensures
        less_loaded(left, right, in_flight),
        !less_loaded(right, left, in_flight),
{
    let (a, b, m, n) = (left.active, right.active, left.max, right.max);
    assert(a * n < b * m) by (nonlinear_arith)
        requires
            a < b,
            m >= n,
            n > 0,
    ;
}

/// A decision counts one more placement for the endpoint it prefers, as of now. What
/// counts for the others stays, and what is older than three seconds is forgotten.
pub proof fn law_decisions_are_counted(
    before: InFlightView,
    after: InFlightView,
    candidates: Seq<PlacementCandidate>,
    first: int,
    second: int,
    now: u64,
    order: Seq<String>,
    other: Seq<char>,
)
    requires
        decided(before, after, candidates, first, second, now, order),
        0 <= first < candidates.len(),
        0 <= second < candidates.len(),
    ensures
        order.len() > 0,
        ({
            let best = order[0]@;
            let counted_before = if before.dom().contains(best) && now - before[best].1
                < 3_000_000_000 {
                before[best].0
            } else {
                0
            };
            &&& after.dom().contains(best) && after[best].1 == now
            &&& counted_before < usize::MAX ==> after[best].0 == counted_before + 1
            &&& counted_before == usize::MAX ==> after[best].0 == usize::MAX
            &&& other != best ==> (after.dom().contains(other) <==> before.dom().contains(other)
                && now - before[other].1 < 3_000_000_000)
            &&& other != best && after.dom().contains(other) ==> after[other] == before[other]
        }),
        first == second ==> order.len() == 1 && order[0]@ == candidates[first].endpoint@,
{
    let views = order.map_values(|s: String| s@);
    assert(views.len() == order.len());
    assert(views[0] == order[0]@);
}

/// A placement that failed is counted no longer: one less for its endpoint if there is
/// one, and nothing changes for the others.
pub proof fn law_failed_placements_are_not_counted(
    in_flight: InFlightView,
    endpoint: Seq<char>,
    other: Seq<char>,
)
    ensures
        rolled_back(in_flight, endpoint).dom() == in_flight.dom(),
        in_flight.dom().contains(endpoint) ==> {
            &&& in_flight[endpoint].0 > 0 ==> rolled_back(in_flight, endpoint)[endpoint].0
                == in_flight[endpoint].0 - 1
            &&& in_flight[endpoint].0 == 0 ==> rolled_back(in_flight, endpoint)[endpoint].0 == 0
            &&& rolled_back(in_flight, endpoint)[endpoint].1 == in_flight[endpoint].1
        },
        other != endpoint && in_flight.dom().contains(other) ==> rolled_back(
            in_flight,
            endpoint,
        )[other] == in_flight[other],
{
    assert(rolled_back(in_flight, endpoint).dom() =~= in_flight.dom());
}

/// The strategy answers nothing if there are no candidates, the one candidate if there is
/// one, and otherwise two different ones; it names candidates only.
pub proof fn law_candidates_are_answered(
    before: P2cPlacement,
    address: AddressView,
    candidates: Seq<PlacementCandidate>,
    now: u64,
    after: P2cPlacement,
    order: Seq<String>,
    i: int,
)
    requires
        P2cPlacement::ranks(before, address, candidates, now, after, order),
    ensures
        candidates.len() == 0 ==> order.len() == 0,
        candidates.len() == 1 ==> order.len() == 1,
        candidates.len() > 1 ==> order.len() == 2,
        0 <= i < order.len() ==> exists|k: int|
            0 <= k < candidates.len() && (#[trigger] candidates[k])@.endpoint == order[i]@,
{
    if candidates.len() > 0 {
        let (first, second) = choose|first: int, second: int|
            0 <= first < candidates.len() && 0 <= second < candidates.len() && (candidates.len()
                > 1 ==> first != second) && #[trigger] decided(
                before.in_flight(),
                after.in_flight(),
                candidates,
                first,
                second,
                now,
                order,
            );
        let views = order.map_values(|s: String| s@);
        assert(views.len() == order.len());
        if 0 <= i < order.len() {
            assert(views[i] == order[i]@);
            assert(candidates[first]@.endpoint == order[i]@ || candidates[second]@.endpoint
                == order[i]@);
        }
    }
}

/// A decision counts for as long as the counting time, and not a moment longer; what still
/// counts is counted as it was.
pub proof fn law_decisions_stop_counting(in_flight: InFlightView, endpoint: Seq<char>, now: u64)
    requires
        in_flight.dom().contains(endpoint),
    ensures
        still_counting(in_flight, now).dom().contains(endpoint) <==> now < in_flight[endpoint].1
            + 3_000_000_000,
        still_counting(in_flight, now).dom().contains(endpoint) ==> still_counting(in_flight, now)[
            endpoint
        ] == in_flight[endpoint],
{
}

} // verus!
