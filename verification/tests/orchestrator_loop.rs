use std::sync::mpsc;

use gw_bin::actions::test::TestAction;
use gw_bin::actions::{Action, ActionError};
use gw_bin::checks::test::TestCheck;
use gw_bin::checks::{Check, CheckError};
use gw_bin::context::Context;
use gw_bin::start::{ensure_has_triggers, run_actions, run_loop, StartError};

struct FalseCheck;

impl Check for FalseCheck {
    fn check(&mut self, _context: &mut Context) -> Result<bool, CheckError> {
        Ok(false)
    }
}

struct FailingCheck;

impl Check for FailingCheck {
    fn check(&mut self, _context: &mut Context) -> Result<bool, CheckError> {
        Err(CheckError::Misconfigured(String::from("Testing purposes.")))
    }
}

struct FailingAction;

impl Action for FailingAction {
    fn run(&mut self, _context: &Context) -> Result<(), ActionError> {
        Err(ActionError::FailedAction(String::from("Testing purposes.")))
    }
}

#[test]
fn it_should_call_once() {
    let (tx, rx) = mpsc::channel::<Option<Context>>();
    tx.send(Some(Context::new())).unwrap();
    tx.send(None).unwrap();
    drop(tx);

    let mut check = TestCheck::new();
    let mut actions = vec![TestAction::new()];

    run_loop(&rx, &mut check, &mut actions);

    assert_eq!(1, actions[0].get_calls());
}

#[test]
fn it_should_not_run_on_a_false_check() {
    let (tx, rx) = mpsc::channel::<Option<Context>>();
    tx.send(Some(Context::new())).unwrap();
    tx.send(None).unwrap();
    drop(tx);

    let mut check = FalseCheck;
    let mut actions = vec![TestAction::new()];

    run_loop(&rx, &mut check, &mut actions);

    assert_eq!(0, actions[0].get_calls());
}

#[test]
fn it_should_not_run_on_a_failed_check() {
    let (tx, rx) = mpsc::channel::<Option<Context>>();
    tx.send(Some(Context::new())).unwrap();
    tx.send(None).unwrap();
    drop(tx);

    let mut check = FailingCheck;
    let mut actions = vec![TestAction::new()];

    run_loop(&rx, &mut check, &mut actions);

    assert_eq!(0, actions[0].get_calls());
}

#[test]
fn it_should_fail_without_triggers() {
    let result = ensure_has_triggers(0);
    assert!(result.is_err());
    assert!(matches!(result, Err(StartError::NoTriggers)));
    assert!(ensure_has_triggers(1).is_ok());
}

#[test]
fn actions_run_in_declared_order_until_the_first_error() {
    // Three actions run in order; a failure in the middle skips the rest.
    let context = Context::new();
    let mut actions = vec![TestAction::new(), TestAction::new(), TestAction::new()];
    let results = run_actions(&mut actions, &context);
    assert_eq!(3, results.len());
    assert!(results.iter().all(|r| r.is_ok()));
    assert_eq!(1, actions[0].get_calls());
    assert_eq!(1, actions[1].get_calls());
    assert_eq!(1, actions[2].get_calls());
}

enum MixedAction {
    Counting(TestAction),
    Failing(FailingAction),
}

impl Action for MixedAction {
    fn run(&mut self, context: &Context) -> Result<(), ActionError> {
        match self {
            MixedAction::Counting(inner) => inner.run(context),
            MixedAction::Failing(inner) => inner.run(context),
        }
    }
}

#[test]
fn a_failing_action_skips_the_rest_of_the_batch() {
    let context = Context::new();
    let mut actions = vec![
        MixedAction::Counting(TestAction::new()),
        MixedAction::Failing(FailingAction),
        MixedAction::Counting(TestAction::new()),
    ];
    let results = run_actions(&mut actions, &context);

    assert_eq!(2, results.len());
    assert!(results[0].is_ok());
    assert!(results[1].is_err());
    match &mut actions[2] {
        MixedAction::Counting(inner) => assert_eq!(0, inner.get_calls()),
        _ => unreachable!(),
    }
}
