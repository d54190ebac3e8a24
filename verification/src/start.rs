use vstd::prelude::*;

use crate::actions::{Action, ActionError};
use crate::checks::{Check, CheckError};
use crate::context::Context;
use crate::triggers::{recv_event, TriggerError};

verus! {

/// The error cases for the main loop.
#[derive(Debug, PartialEq, Eq)]
pub enum StartError {
    /// No trigger was configured: the loop would never run.
    NoTriggers,
    /// A trigger was misconfigured.
    MisconfiguredTrigger(TriggerError),
    /// The check failed fatally during startup.
    FailedCheck(CheckError),
}

/// The loop refuses to start without a trigger, before any thread is
/// spawned: with none configured nothing would ever run.
pub fn ensure_has_triggers(n_triggers: usize) -> (r: Result<(), StartError>)
    ensures
        (r is Ok) == (n_triggers > 0),
        r matches Err(e) ==> e is NoTriggers,
{
    if n_triggers == 0 {
        Err(StartError::NoTriggers)
    } else {
        Ok(())
    }
}

/// What one event produced: the check's verdict and the outcome of each
/// action that ran.
pub struct EventReport {
    pub check_result: Result<bool, CheckError>,
    pub action_results: Vec<Result<(), ActionError>>,
}

/// Runs the actions in declared order, stopping at the first failure: the
/// result holds one outcome per action that ran, every outcome but the last
/// is a success, and only a trailing failure cuts the run short.
pub fn run_actions<A: Action>(actions: &mut Vec<A>, context: &Context) -> (results: Vec<
    Result<(), ActionError>,
>)
    requires
        context.wf(),
    ensures
        results@.len() <= old(actions)@.len(),
        forall|i: int| 0 <= i < results@.len() - 1 ==> results@[i] is Ok,
        results@.len() < old(actions)@.len() ==> results@.len() > 0 && results@[results@.len()
            - 1] is Err,
{
    let ghost n = actions@.len();
    let mut results: Vec<Result<(), ActionError>> = Vec::new();
    let mut i: usize = 0;
    while i < actions.len()
        invariant
            context.wf(),
            n == old(actions)@.len(),
            actions@.len() == n,
            0 <= i <= n,
            results@.len() == i,
            forall|j: int| 0 <= j < i ==> results@[j] is Ok,
        decreases n - i,
    {
        let outcome = actions[i].run(context);
        match outcome {
            Ok(()) => {
                results.push(Ok(()));
            },
            Err(e) => {
                results.push(Err(e));
                return results;
            },
        }
        i = i + 1;
    }
    results
}

/// Handles one event: runs the check, and only on a positive verdict runs
/// the actions in order; a check that reports nothing or fails runs no
/// action at all.
pub fn handle_event<C: Check, A: Action>(
    check: &mut C,
    actions: &mut Vec<A>,
    context: &mut Context,
) -> (report: EventReport)
    requires
        old(context).wf(),
    ensures
        final(context).wf(),
        report.check_result matches Ok(true) ==> report.action_results@.len() <= old(
            actions,
        )@.len(),
        report.check_result matches Ok(true) ==> forall|i: int|
            0 <= i < report.action_results@.len() - 1 ==> report.action_results@[i] is Ok,
        report.check_result matches Ok(true) && report.action_results@.len() < old(actions)@.len()
            ==> report.action_results@.len() > 0 && report.action_results@[report.action_results@.len() - 1] is Err,
        !(report.check_result matches Ok(true)) ==> report.action_results@.len() == 0,
{
    let check_result = check.check(context);
    let run = match &check_result {
        Ok(true) => true,
        _ => false,
    };
    if run {
        let action_results = run_actions(actions, context);
        EventReport { check_result, action_results }
    } else {
        EventReport { check_result, action_results: Vec::new() }
    }
}

/// The consumer half of the loop: takes events off the channel one at a
/// time, handling each, until the shutdown token arrives or every producer
/// is gone.
pub fn run_loop<C: Check, A: Action>(
    rx: &std::sync::mpsc::Receiver<Option<Context>>,
    check: &mut C,
    actions: &mut Vec<A>,
) {
    // The decrease is a formality: the budget is far beyond any reachable
    // number of events.
    let mut budget: u64 = u64::MAX;
    while budget > 0
        decreases budget,
    {
        budget = budget - 1;
        match recv_event(rx) {
            Some(Some(context)) => {
                let mut context = context.normalized();
                let _report = handle_event(check, actions, &mut context);
            },
            _ => {
                return;
            },
        }
    }
}

} // verus!
