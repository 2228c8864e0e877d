use coactor::actor::ActorAddress;
use coactor::cluster::placement::{
    P2cPlacement, PlacementCandidate, PlacementContext, PlacementStrategy, IN_FLIGHT_TTL,
};
use rand::rngs::StdRng;
use rand::SeedableRng;

fn candidate(endpoint: &str, active: usize, max: usize) -> PlacementCandidate {
    PlacementCandidate {
        endpoint: endpoint.to_owned(),
        active_actor_count: active,
        max_actor_count: max,
    }
}

fn ctx(candidates: Vec<PlacementCandidate>) -> PlacementContext {
    PlacementContext { candidates }
}

fn address() -> ActorAddress {
    ActorAddress::new("test", "one").unwrap()
}

#[test]
fn picks_less_loaded_of_two() {
    let mut placement = P2cPlacement::with_rng(StdRng::seed_from_u64(1));
    let c = ctx(vec![
        candidate("node-a", 90, 100),
        candidate("node-b", 10, 100),
    ]);
    let picked = placement.candidates(&address(), &c, 0);
    assert_eq!(picked.len(), 2);
    assert_eq!(picked[0], "node-b");
}

#[test]
fn ratio_beats_absolute_count() {
    let mut placement = P2cPlacement::with_rng(StdRng::seed_from_u64(2));
    let c = ctx(vec![
        candidate("node-big", 90, 1000),
        candidate("node-small", 9, 10),
    ]);
    let picked = placement.candidates(&address(), &c, 0);
    assert_eq!(picked[0], "node-big");
}

#[test]
fn single_candidate_is_picked() {
    let mut placement = P2cPlacement::with_rng(StdRng::seed_from_u64(3));
    let c = ctx(vec![candidate("node-a", 10, 100)]);
    let picked = placement.candidates(&address(), &c, 0);
    assert_eq!(picked, vec!["node-a"]);
}

#[test]
fn no_candidates_returns_empty() {
    let mut placement = P2cPlacement::with_rng(StdRng::seed_from_u64(4));
    let picked = placement.candidates(&address(), &ctx(Vec::new()), 0);
    assert!(picked.is_empty());
}

#[test]
fn in_flight_bookkeeping_steers_away_from_target() {
    let mut placement = P2cPlacement::with_rng(StdRng::seed_from_u64(5));
    let c = ctx(vec![
        candidate("node-a", 10, 100),
        candidate("node-b", 10, 100),
    ]);
    let first = placement.candidates(&address(), &c, 0);
    let second = placement.candidates(&address(), &c, 1);
    assert_ne!(first[0], second[0]);
}

#[test]
fn failed_placement_rolls_back_bookkeeping() {
    let mut placement = P2cPlacement::with_rng(StdRng::seed_from_u64(6));
    let c = ctx(vec![
        candidate("node-a", 10, 100),
        candidate("node-b", 10, 100),
    ]);
    let picked = placement.candidates(&address(), &c, 0);
    placement.on_placement_failed(&picked[0]);
    assert_eq!(placement.in_flight_count(&picked[0]), 0);
}

#[test]
fn decisions_are_counted_until_they_expire() {
    let mut placement = P2cPlacement::new();
    let c = ctx(vec![candidate("node-a", 10, 100)]);
    placement.candidates(&address(), &c, 0);
    placement.candidates(&address(), &c, 10);
    assert_eq!(placement.in_flight_count("node-a"), 2);
    assert_eq!(placement.in_flight_count("node-b"), 0);
    placement.candidates(&address(), &c, 10 + IN_FLIGHT_TTL - 1);
    assert_eq!(placement.in_flight_count("node-a"), 3);
    placement.candidates(&address(), &c, 10 + 2 * IN_FLIGHT_TTL);
    assert_eq!(placement.in_flight_count("node-a"), 1);
}

#[test]
fn rolling_back_an_unknown_endpoint_does_nothing() {
    let mut placement = P2cPlacement::new();
    placement.on_placement_failed("node-z");
    assert_eq!(placement.in_flight_count("node-z"), 0);
}

#[test]
fn decide_keeps_the_first_sample_on_a_tie() {
    let mut placement = P2cPlacement::new();
    let c = ctx(vec![
        candidate("node-a", 5, 10),
        candidate("node-b", 50, 100),
        candidate("node-c", 0, 0),
    ]);
    assert_eq!(placement.decide(&c, 0, 1, 0), vec!["node-a", "node-b"]);
    let mut placement = P2cPlacement::new();
    assert_eq!(placement.decide(&c, 1, 0, 0), vec!["node-b", "node-a"]);
    let mut placement = P2cPlacement::new();
    assert_eq!(placement.decide(&c, 0, 2, 0), vec!["node-c", "node-a"]);
    let mut placement = P2cPlacement::new();
    assert_eq!(placement.decide(&c, 2, 2, 0), vec!["node-c"]);
}

#[test]
fn huge_loads_are_compared_exactly() {
    let mut placement = P2cPlacement::new();
    let c = ctx(vec![
        candidate("node-a", usize::MAX, usize::MAX),
        candidate("node-b", usize::MAX - 1, usize::MAX),
    ]);
    assert_eq!(placement.decide(&c, 0, 1, 0)[0], "node-b");
}
