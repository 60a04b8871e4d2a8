//! When workers start and how long they sleep: chance spreads them out so
//! that they do not reach for the remote hosts at the same moment.

use crate::target::{clone_targets, RepoTarget};
use rand::rngs::StdRng;
use rand::seq::SliceRandom;
use rand::Rng;
use vstd::prelude::*;

verus! {

/// The random number generator of `rand` that the schedule draws from.
#[verifier::external_type_specification]
#[verifier::external_body]
pub struct ExStdRng(StdRng);

/// The shortest sleep between two cycles, in seconds.
pub const CYCLE_SLEEP_MIN: u64 = 25;

/// The bound, in seconds, that the sleep between two cycles stays below.
pub const CYCLE_SLEEP_BOUND: u64 = 35;

/// The bound, in seconds, that the delay before a worker's first cycle
/// stays below.
pub const STAGGER_BOUND: u64 = 5;

/// The time, in seconds, between the start of one worker and the next.
pub const SPAWN_SPACING_SECONDS: u64 = 3;

/// One worker to start.
#[derive(Debug)]
pub struct Spawn {
    /// The target the worker is started for.
    pub target: RepoTarget,
    /// How long the worker waits before its first cycle, in seconds.
    pub initial_delay: u64,
    /// How long to wait after starting this worker before the next is
    /// started, in seconds.
    pub spacing: u64,
}

/// The targets of a list of workers to start, in order.
pub open spec fn spawn_targets(plan: Seq<Spawn>) -> Seq<RepoTarget> {
    plan.map_values(|s: Spawn| s.target)
}

/// Calls `gen_range` of `rand` on the range from `low` up to but not
/// including `high`. Trusted: the result lies in that range. The range
/// must not be empty, or `gen_range` panics.
#[verifier::external_body]
fn random_between(rng: &mut StdRng, low: u64, high: u64) -> (n: u64)
    requires
        low < high,
    ensures
        low <= n < high,
{
    rng.gen_range(low..high)
}

/// Calls `shuffle` of `rand` on the targets. Trusted: the targets are the
/// same afterwards, each as often as before, in some order.
#[verifier::external_body]
fn shuffle(rng: &mut StdRng, targets: &mut Vec<RepoTarget>)
    ensures
        final(targets)@.to_multiset() == old(targets)@.to_multiset(),
{
    targets.shuffle(rng)
}

/// How long a worker sleeps after a cycle, in seconds.
pub fn cycle_sleep(rng: &mut StdRng) -> (seconds: u64)
    ensures
        CYCLE_SLEEP_MIN <= seconds < CYCLE_SLEEP_BOUND,
{
    random_between(rng, CYCLE_SLEEP_MIN, CYCLE_SLEEP_BOUND)
}

/// The workers to start: one for each of `credentials`, in an order left
/// to chance, each with its own delay before its first cycle.
pub fn spawn_git_workers(credentials: &Vec<RepoTarget>, rng: &mut StdRng) -> (plan: Vec<Spawn>)
    ensures
        plan.len() == credentials.len(),
        spawn_targets(plan@).to_multiset() == credentials@.to_multiset(),
        forall|i: int|
            0 <= i < plan.len() ==> (#[trigger] plan[i]).initial_delay < STAGGER_BOUND && plan[i].spacing
                == SPAWN_SPACING_SECONDS,
{
    let mut order = clone_targets(credentials);
    shuffle(rng, &mut order);
    proof {
        order@.to_multiset_ensures();
        credentials@.to_multiset_ensures();
    }
    let mut plan: Vec<Spawn> = Vec::new();
    let mut i: usize = 0;
    while i < order.len()
        invariant
            i <= order.len(),
            order.len() == credentials.len(),
            plan.len() == i,
            spawn_targets(plan@) == order@.take(i as int),
            forall|k: int|
                0 <= k < plan.len() ==> (#[trigger] plan[k]).initial_delay < STAGGER_BOUND
                    && plan[k].spacing == SPAWN_SPACING_SECONDS,
        decreases order.len() - i,
    {
        let initial_delay = random_between(rng, 0, STAGGER_BOUND);
        let spawn = Spawn {
            target: order[i].clone(),
            initial_delay,
            spacing: SPAWN_SPACING_SECONDS,
        };
        plan.push(spawn);
        assert(spawn_targets(plan@) =~= order@.take(i as int).push(order@[i as int]));
        assert(order@.take(i as int).push(order@[i as int]) =~= order@.take(i + 1));
        i = i + 1;
    }
    assert(order@.take(order.len() as int) =~= order@);
    plan
}

} // verus!
