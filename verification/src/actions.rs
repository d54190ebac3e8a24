use vstd::prelude::*;

use crate::context::Context;

/// An action to run in the background and restart a subprocess.
pub mod process;
/// An action to run a custom shell script.
pub mod script;

verus! {

/// The error cases for actions.
#[derive(Debug, PartialEq, Eq)]
pub enum ActionError {
    /// The action cannot be initialized because of a misconfiguration.
    Misconfigured(String),
    /// The action cannot run for lack of permissions.
    PermissionDenied(String),
    /// Running the action failed at runtime.
    FailedAction(String),
}

/// An action is a process that runs whenever a check reported changes.
pub trait Action {
    /// Initiate the action with the context of the current event.
    fn run(&mut self, context: &Context) -> Result<(), ActionError>
        requires
            context.wf(),
    ;
}

} // verus!
