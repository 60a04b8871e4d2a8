use git_monitor::auth::CredentialProvider;
use git_monitor::command::CommandResult;
use git_monitor::target::{RepoTarget, Server};
use git_monitor::traces::replay;
use git_monitor::worker::{repo_worker, Action, Event, Phase, SyncOutcome, Worker};

fn worker() -> Worker {
    let mut provider = CredentialProvider::new();
    provider.store("secret".to_string());
    let target = RepoTarget {
        owner: "a".to_string(),
        repo: "b".to_string(),
        branch: "main".to_string(),
        server: Server::GitHub,
        token: None,
    };
    Worker::new(target, &provider)
}

fn ran(success: bool, stdout: &str, stderr: &str) -> Event {
    Event::Ran {
        result: CommandResult::Finished {
            success,
            stdout: stdout.to_string(),
            stderr: stderr.to_string(),
        },
    }
}

fn quiet_cycle() -> Vec<Event> {
    vec![
        Event::Begin,
        Event::Probed { exists: true },
        ran(true, "/var/www/ais/5607341a\n", ""),
        ran(true, "", ""),
        ran(true, "abc\n", ""),
        ran(true, "abc\n", ""),
    ]
}

#[test]
fn replay_answers_as_the_single_steps_do() {
    let mut stepped = worker();
    let mut expected = Vec::new();
    for event in quiet_cycle() {
        expected.push(repo_worker(&mut stepped, event));
    }
    let mut replayed = worker();
    let actions = replay(&mut replayed, &quiet_cycle());
    assert_eq!(actions, expected);
    assert_eq!(replayed.phase, stepped.phase);
    assert_eq!(replayed.path, stepped.path);
}

#[test]
fn replay_of_nothing_asks_for_nothing() {
    let mut w = worker();
    assert!(replay(&mut w, &Vec::new()).is_empty());
    assert_eq!(w.phase, Phase::Idle);
}

#[test]
fn two_quiet_cycles_in_a_row_change_nothing() {
    let mut w = worker();
    let first = replay(&mut w, &quiet_cycle());
    let second = replay(&mut w, &quiet_cycle());
    assert_eq!(first, second);
    assert_eq!(first.last(), Some(&Action::Report { outcome: SyncOutcome::UpToDate }));
    for action in &first {
        if let Action::Run { command } = action {
            assert!(!command.args.contains(&"pull".to_string()));
            assert!(!command.args.contains(&"checkout".to_string()));
            assert!(!command.args.contains(&"clone".to_string()));
        }
    }
}

#[test]
fn every_cycle_ends_within_its_bound() {
    let answers = [
        ran(false, "", "fatal: detected dubious ownership"),
        ran(false, "", "fatal: Could not resolve host: x"),
        ran(true, "", ""),
        ran(true, "abc\n", ""),
        ran(true, "abd\n", ""),
    ];
    let mut pick = 0usize;
    let mut round = 0;
    while round < 200 {
        let mut w = worker();
        let mut action = repo_worker(&mut w, Event::Begin);
        let mut steps = 1;
        loop {
            pick = (pick * 7 + 3) % 11;
            let event = match action {
                Action::Report { .. } => break,
                Action::Probe { .. } => Event::Probed { exists: pick % 2 == 0 },
                Action::Own { .. } => Event::Owned { failure: None },
                Action::Pause { .. } => Event::Resumed,
                Action::Run { .. } => answers[pick % answers.len()].clone(),
            };
            action = repo_worker(&mut w, event);
            steps += 1;
            assert!(steps <= 56);
        }
        assert_eq!(w.phase, Phase::Idle);
        round += 1;
    }
}
