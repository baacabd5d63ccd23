use runner_switch::broadcast::Broadcaster;
use runner_switch::models::ActiveRunner;
use runner_switch::runner::{Runner, ShellOutput};
use runner_switch::switch::{Controller, NamedRunner};
use tokio::sync::broadcast::error::TryRecvError;

fn active(name: &str) -> ActiveRunner {
    ActiveRunner {
        name: name.to_string(),
        model: None,
    }
}

fn two_runners() -> Vec<NamedRunner> {
    let mk = |tag: &str| Runner {
        url: "http://127.0.0.1".to_string(),
        provides: None,
        start_script: format!("start-{tag}"),
        stop_script: format!("stop-{tag}"),
        check_script: format!("check-{tag}"),
    };
    vec![
        NamedRunner {
            name: "a".to_string(),
            runner: mk("a"),
        },
        NamedRunner {
            name: "b".to_string(),
            runner: mk("b"),
        },
    ]
}

fn ok_output() -> ShellOutput {
    ShellOutput {
        success: true,
        stdout: String::new(),
        stderr: String::new(),
    }
}

#[test]
fn publish_without_subscribers_does_not_fail() {
    let mut updates = Broadcaster::new();
    // Nobody is listening: the publish is dropped, not an error.
    let delivered = updates.publish(active("a"));
    assert!(!delivered);
}

#[test]
fn successful_switch_publishes_exactly_the_new_value() {
    let mut ctl = Controller::new(two_runners(), active("a")).unwrap();
    let mut updates = Broadcaster::new();
    let mut rx = updates.subscribe();

    let step = ctl.begin_switch(&active("b")).unwrap();
    let start = step.confirm_stop(&ok_output()).unwrap();
    ctl.commit_switch(&mut updates, start, &ok_output()).unwrap();

    let got = rx.try_recv().unwrap();
    assert_eq!(got.name, "b");
    assert_eq!(got.model, None);
    // Exactly one value was published.
    assert!(matches!(rx.try_recv(), Err(TryRecvError::Empty)));
}

#[test]
fn failed_switch_publishes_nothing() {
    let mut ctl = Controller::new(two_runners(), active("a")).unwrap();
    let mut updates = Broadcaster::new();
    let mut rx = updates.subscribe();

    let step = ctl.begin_switch(&active("b")).unwrap();
    let start = step.confirm_stop(&ok_output()).unwrap();
    let failed = ShellOutput {
        success: false,
        stdout: String::new(),
        stderr: "no".to_string(),
    };
    assert!(ctl.commit_switch(&mut updates, start, &failed).is_err());
    assert!(matches!(rx.try_recv(), Err(TryRecvError::Empty)));
}

#[test]
fn late_subscriber_sees_only_later_values() {
    let mut updates = Broadcaster::new();
    updates.publish(active("a"));

    let mut rx = updates.subscribe();
    assert!(matches!(rx.try_recv(), Err(TryRecvError::Empty)));

    updates.publish(active("b"));
    let got = rx.try_recv().unwrap();
    assert_eq!(got.name, "b");
    assert!(matches!(rx.try_recv(), Err(TryRecvError::Empty)));
}

#[test]
fn slow_subscriber_is_told_about_missed_values() {
    let mut updates = Broadcaster::new();
    let mut rx = updates.subscribe();

    // The channel holds one value in flight; the second publish pushes the
    // first out before the subscriber read it.
    updates.publish(active("a"));
    updates.publish(active("b"));

    assert!(matches!(rx.try_recv(), Err(TryRecvError::Lagged(1))));
    let got = rx.try_recv().unwrap();
    assert_eq!(got.name, "b");
}
