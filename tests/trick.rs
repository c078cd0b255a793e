use houdini::image::ImagePullPolicy;
use houdini::report::{report_file_name, Report, SystemInfo, Timestamp, TrickReport};
use houdini::status::Status;
use houdini::steps::{Host, KillContainer, RunStep, ShellCommand, SpawnContainer, Step, Wait, WaitFor};
use houdini::trick::Trick;

fn host(success: Status, failure: Status) -> Step {
    Step::Host(Host {
        script: vec![ShellCommand { command: "true".to_string(), args: vec![] }],
        failure,
        success,
    })
}

fn spawn(name: &str) -> Step {
    Step::SpawnContainer(SpawnContainer {
        name: name.to_string(),
        image: "bash".to_string(),
        image_policy: ImagePullPolicy::Never,
        cmd: Some("sleep infinity".to_string()),
        volumes: vec![],
        security: vec![],
        app_armor: None,
        privileged: false,
        failure: Status::SetupFailure,
        success: Status::Undecided,
    })
}

fn kill(name: &str) -> Step {
    Step::KillContainer(KillContainer {
        name: name.to_string(),
        failure: Status::Undecided,
        success: Status::Undecided,
    })
}

/// Runs a trick, taking the outcome of the n-th executed step from `outcomes`.
fn run(trick: Trick, outcomes: &[bool]) -> (TrickReport, Vec<String>, usize) {
    let mut run = trick.start(SystemInfo::default());
    let mut n = 0;
    loop {
        match run.next_step() {
            Some(_) => {}
            None => break,
        }
        run.record(outcomes[n]);
        n += 1;
    }
    assert!(run.is_done());
    let (report, containers) = run.finish();
    (report, containers, n)
}

#[test]
fn empty_trick_reports_undecided() {
    let trick = Trick { name: "foo".to_string(), steps: vec![] };
    let (report, containers, n) = run(trick, &[]);
    assert_eq!(report.name, "foo");
    assert_eq!(report.steps.len(), 0);
    assert_eq!(report.status, Status::Undecided);
    assert!(containers.is_empty());
    assert_eq!(n, 0);
}

#[test]
fn host_success_is_exploit_success() {
    let trick = Trick {
        name: "host".to_string(),
        steps: vec![host(Status::ExploitSuccess, Status::Undecided)],
    };
    let (report, _, _) = run(trick, &[true]);
    assert_eq!(report.status, Status::ExploitSuccess);
    assert_eq!(report.steps.len(), 1);
    assert_eq!(report.steps[0].status, Status::ExploitSuccess);
    assert!(matches!(report.steps[0].inner, Step::Host(_)));
}

#[test]
fn failed_spawn_is_setup_failure() {
    let trick = Trick {
        name: "spawn".to_string(),
        steps: vec![spawn("bash"), host(Status::ExploitSuccess, Status::ExploitFailure)],
    };
    let (report, containers, n) = run(trick, &[false]);
    assert_eq!(report.status, Status::SetupFailure);
    assert_eq!(report.steps.len(), 1);
    assert_eq!(n, 1);
    // The spawn failed, so there is no container to reap.
    assert!(containers.is_empty());
}

#[test]
fn run_stops_at_first_final_status() {
    let trick = Trick {
        name: "stop".to_string(),
        steps: vec![
            host(Status::Undecided, Status::Undecided),
            host(Status::ExploitFailure, Status::ExploitFailure),
            host(Status::ExploitSuccess, Status::ExploitSuccess),
        ],
    };
    let (report, _, n) = run(trick, &[true, true, true]);
    assert_eq!(n, 2);
    assert!(report.steps.len() < 3);
    assert_eq!(report.status, Status::ExploitFailure);
    assert!(!report.steps[0].status.is_final());
    assert!(report.steps[1].status.is_final());
}

#[test]
fn run_without_final_status_reports_every_step() {
    let trick = Trick {
        name: "all".to_string(),
        steps: vec![
            host(Status::Undecided, Status::Undecided),
            Step::Wait(Wait { for_: WaitFor::Input }),
            host(Status::Undecided, Status::ExploitFailure),
        ],
    };
    let (report, _, n) = run(trick, &[true, false, false]);
    assert_eq!(n, 3);
    assert_eq!(report.steps.len(), 3);
    assert_eq!(report.status, Status::ExploitFailure);
    for s in &report.steps[..2] {
        assert!(!s.status.is_final());
    }
}

#[test]
fn every_spawned_container_reaped_once() {
    let trick = Trick {
        name: "reap".to_string(),
        steps: vec![
            spawn("a"),
            spawn("b"),
            kill("a"),
            spawn("a"),
            host(Status::Undecided, Status::ExploitFailure),
            spawn("never"),
        ],
    };
    let (report, containers, _) = run(trick, &[true, true, true, true, false]);
    assert_eq!(report.status, Status::ExploitFailure);
    assert_eq!(containers, vec!["a".to_string(), "b".to_string()]);
}

#[test]
fn only_successful_spawns_are_reaped() {
    let quiet = |name: &str| match spawn(name) {
        Step::SpawnContainer(mut s) => {
            s.failure = Status::Undecided;
            Step::SpawnContainer(s)
        }
        other => other,
    };
    let trick = Trick { name: "mixed".to_string(), steps: vec![quiet("a"), quiet("b"), quiet("a")] };
    let (report, containers, _) = run(trick, &[false, true, true]);
    assert_eq!(report.steps.len(), 3);
    assert_eq!(containers, vec!["b".to_string(), "a".to_string()]);
}

#[test]
fn containers_known_when_run_ends_early() {
    let trick = Trick {
        name: "abort".to_string(),
        steps: vec![spawn("x"), host(Status::Undecided, Status::Undecided), spawn("y")],
    };
    let mut run = trick.start(SystemInfo::default());
    run.record(true);
    assert_eq!(run.containers(), &vec!["x".to_string()]);
    assert!(!run.is_done());
    let (report, containers) = run.finish();
    assert_eq!(report.steps.len(), 1);
    assert_eq!(containers, vec!["x".to_string()]);
}

#[test]
fn step_outcome_mapping() {
    let s = spawn("c");
    assert_eq!(s.run(true), Status::Undecided);
    assert_eq!(s.run(false), Status::SetupFailure);
    let w = Step::Wait(Wait { for_: WaitFor::Sleep { secs: 2, nanos: 0 } });
    assert_eq!(w.run(true), Status::Undecided);
    assert_eq!(w.run(false), Status::Undecided);
    assert_eq!(w.on_failure(), Status::Undecided);
}

#[test]
fn report_accumulates_tricks() {
    let date = Timestamp { secs: 1_656_000_000, nanos: 5 };
    let mut report = Report::new(date);
    assert!(report.exploits.is_empty());
    assert_eq!(report.date, date);
    let mut t = TrickReport::new("foo");
    t.set_status(Status::Skip);
    report.add(t);
    report.add(TrickReport::new("bar"));
    assert_eq!(report.exploits.len(), 2);
    assert_eq!(report.exploits[0].name, "foo");
    assert_eq!(report.exploits[0].status, Status::Skip);
    assert_eq!(report.exploits[1].status, Status::Undecided);
    assert_eq!(report.date, date);
}

#[test]
fn report_file_names() {
    assert_eq!(report_file_name(0), "report.0.json");
    assert_eq!(report_file_name(18446744073709551615), "report.18446744073709551615.json");
    assert_eq!(report_file_name(1234567), "report.1234567.json");
}

#[test]
fn run_with_outcomes_empty_trick() {
    let trick = Trick { name: "foo".to_string(), steps: vec![] };
    let (report, containers) = trick.run(SystemInfo::default(), &vec![]);
    assert_eq!(report.name, "foo");
    assert!(report.steps.is_empty());
    assert_eq!(report.status, Status::Undecided);
    assert!(containers.is_empty());
}

#[test]
fn run_with_outcomes_host_success() {
    let trick = Trick { name: "host".to_string(), steps: vec![host(Status::ExploitSuccess, Status::Undecided)] };
    let (report, _) = trick.run(SystemInfo::default(), &vec![true]);
    assert_eq!(report.status, Status::ExploitSuccess);
    assert_eq!(report.steps.len(), 1);
}

#[test]
fn run_with_outcomes_failed_spawn() {
    let trick = Trick {
        name: "spawn".to_string(),
        steps: vec![spawn("bash"), host(Status::ExploitSuccess, Status::ExploitFailure)],
    };
    let (report, containers) = trick.run(SystemInfo::default(), &vec![false, true]);
    assert_eq!(report.status, Status::SetupFailure);
    assert_eq!(report.steps.len(), 1);
    assert_eq!(report.steps[0].status, Status::SetupFailure);
    assert!(containers.is_empty());
}

#[test]
fn run_with_outcomes_reaps_successful_spawns() {
    let trick = Trick {
        name: "reap".to_string(),
        steps: vec![spawn("a"), kill("a"), spawn("b"), host(Status::Undecided, Status::ExploitFailure)],
    };
    let (report, containers) = trick.run(SystemInfo::default(), &vec![true, true, true, false]);
    assert_eq!(report.steps.len(), 4);
    assert_eq!(report.status, Status::ExploitFailure);
    assert_eq!(containers, vec!["a".to_string(), "b".to_string()]);
}
