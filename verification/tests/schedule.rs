use git_monitor::schedule::{
    cycle_sleep, spawn_git_workers, CYCLE_SLEEP_BOUND, CYCLE_SLEEP_MIN, SPAWN_SPACING_SECONDS,
    STAGGER_BOUND,
};
use git_monitor::target::{RepoTarget, Server};
use rand::rngs::StdRng;
use rand::SeedableRng;

fn target(n: u32) -> RepoTarget {
    RepoTarget {
        owner: format!("owner{}", n),
        repo: "b".to_string(),
        branch: "main".to_string(),
        server: Server::GitHub,
        token: None,
    }
}

#[test]
fn schedule_constants() {
    assert_eq!(CYCLE_SLEEP_MIN, 25);
    assert_eq!(CYCLE_SLEEP_BOUND, 35);
    assert_eq!(STAGGER_BOUND, 5);
    assert_eq!(SPAWN_SPACING_SECONDS, 3);
}

#[test]
fn cycle_sleep_stays_in_its_window() {
    let mut rng = StdRng::seed_from_u64(1);
    let mut seen = [false; 10];
    let mut n = 0;
    while n < 2000 {
        let s = cycle_sleep(&mut rng);
        assert!((25..35).contains(&s));
        seen[(s - 25) as usize] = true;
        n += 1;
    }
    assert!(seen.iter().all(|s| *s));
}

#[test]
fn one_worker_is_planned_for_each_target() {
    let mut rng = StdRng::seed_from_u64(2);
    let credentials: Vec<RepoTarget> = (0..20).map(target).collect();
    let plan = spawn_git_workers(&credentials, &mut rng);
    assert_eq!(plan.len(), 20);
    for t in &credentials {
        assert_eq!(plan.iter().filter(|s| &s.target == t).count(), 1);
    }
    for s in &plan {
        assert!(s.initial_delay < 5);
        assert_eq!(s.spacing, 3);
    }
}

#[test]
fn workers_start_in_an_order_left_to_chance() {
    let credentials: Vec<RepoTarget> = (0..20).map(target).collect();
    let mut rng = StdRng::seed_from_u64(3);
    let plan = spawn_git_workers(&credentials, &mut rng);
    let order: Vec<RepoTarget> = plan.into_iter().map(|s| s.target).collect();
    assert_ne!(order, credentials);
}

#[test]
fn no_targets_no_workers() {
    let mut rng = StdRng::seed_from_u64(4);
    assert!(spawn_git_workers(&Vec::new(), &mut rng).is_empty());
}

#[test]
fn repeated_targets_are_planned_as_often_as_they_occur() {
    let mut rng = StdRng::seed_from_u64(5);
    let credentials = vec![target(1), target(1), target(2)];
    let plan = spawn_git_workers(&credentials, &mut rng);
    assert_eq!(plan.iter().filter(|s| s.target == target(1)).count(), 2);
    assert_eq!(plan.iter().filter(|s| s.target == target(2)).count(), 1);
}
