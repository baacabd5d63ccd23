use runner_switch::models::ActiveRunner;
use runner_switch::runner::{Runner, ShellOutput};
use runner_switch::switch::{reconcile, Controller, NamedRunner, Reconcile};

fn runner(start: &str, stop: &str, check: &str) -> Runner {
    Runner {
        url: "http://127.0.0.1".to_string(),
        provides: None,
        start_script: start.to_string(),
        stop_script: stop.to_string(),
        check_script: check.to_string(),
    }
}

fn three_runners() -> Vec<NamedRunner> {
    vec![
        NamedRunner {
            name: "a".to_string(),
            runner: runner("start-a", "stop-a", "check-a"),
        },
        NamedRunner {
            name: "b".to_string(),
            runner: runner("start-b", "stop-b", "check-b"),
        },
        NamedRunner {
            name: "c".to_string(),
            runner: runner("start-c", "stop-c", "check-c"),
        },
    ]
}

#[test]
fn one_live_probe_adopts_that_runner_without_scripts() {
    let runners = three_runners();
    let results = vec![false, true, false];
    match reconcile(&runners, &results, &"a".to_string(), &None) {
        Reconcile::AlreadyActive(a) => {
            assert_eq!(a.name, "b");
            assert_eq!(a.model, None);
        }
        _ => panic!("expected the live runner to be adopted"),
    }
}

#[test]
fn two_live_probes_refuse_startup() {
    let runners = three_runners();
    let results = vec![true, false, true];
    assert!(matches!(
        reconcile(&runners, &results, &"a".to_string(), &None),
        Reconcile::MultipleActive
    ));
}

#[test]
fn no_live_probe_starts_the_default_exactly_once() {
    let runners = three_runners();
    let results = vec![false, false, false];
    match reconcile(
        &runners,
        &results,
        &"a".to_string(),
        &Some("tiny".to_string()),
    ) {
        Reconcile::StartDefault(a, call) => {
            assert_eq!(a.name, "a");
            assert_eq!(a.model, Some("tiny".to_string()));
            assert_eq!(call.script, "start-a");
            assert_eq!(call.model, Some("tiny".to_string()));
        }
        _ => panic!("expected a fallback to the default runner"),
    }
}

#[test]
fn unknown_default_is_fatal() {
    let runners = three_runners();
    let results = vec![false, false, false];
    assert!(matches!(
        reconcile(&runners, &results, &"nope".to_string(), &None),
        Reconcile::UnknownDefault
    ));
}

#[test]
fn controller_refuses_duplicate_names_and_unknown_active() {
    let mut dup = three_runners();
    dup[2].name = "a".to_string();
    assert!(Controller::new(
        dup,
        ActiveRunner {
            name: "a".to_string(),
            model: None
        }
    )
    .is_none());

    assert!(Controller::new(
        three_runners(),
        ActiveRunner {
            name: "nope".to_string(),
            model: None
        }
    )
    .is_none());

    assert!(Controller::new(
        three_runners(),
        ActiveRunner {
            name: "c".to_string(),
            model: None
        }
    )
    .is_some());
}

#[test]
fn default_with_no_checks_passing_scenario() {
    // Runners a and b whose check scripts never pass; the configured default
    // is a. Startup runs a's start call once, and a first switch to b runs
    // a's stop and then b's start.
    let runners = vec![
        NamedRunner {
            name: "a".to_string(),
            runner: runner("true", "true", "false"),
        },
        NamedRunner {
            name: "b".to_string(),
            runner: runner("true", "true", "false"),
        },
    ];
    let results = vec![false, false];
    let (active, start_call) = match reconcile(&runners, &results, &"a".to_string(), &None) {
        Reconcile::StartDefault(a, call) => (a, call),
        _ => panic!("expected a fallback to the default runner"),
    };
    assert_eq!(start_call.script, "true");
    let start_outcome = ShellOutput {
        success: true,
        stdout: String::new(),
        stderr: String::new(),
    };
    assert!(start_outcome.classify().is_ok());
    assert_eq!(active.name, "a");
    assert_eq!(active.model, None);

    let mut ctl = Controller::new(runners, active).unwrap();
    let mut updates = runner_switch::broadcast::Broadcaster::new();
    let step = ctl
        .begin_switch(&ActiveRunner {
            name: "b".to_string(),
            model: None,
        })
        .unwrap();
    assert_eq!(step.stop_call.script, "true");
    let start = step.confirm_stop(&start_outcome).unwrap();
    assert_eq!(start.start_call.script, "true");
    let now = ctl.commit_switch(&mut updates, start, &start_outcome).unwrap();
    assert_eq!(now.name, "b");
    assert_eq!(now.model, None);
    assert_eq!(ctl.list().active.name, "b");
}
