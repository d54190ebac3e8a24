use vstd::prelude::*;

use crate::context::Context;

/// A check to fetch and fast-forward a local git repository.
pub mod git;
/// A placeholder for a filesystem watcher check.
pub mod watch;

verus! {

/// The error cases for checks.
#[derive(Debug, PartialEq, Eq)]
pub enum CheckError {
    /// The check cannot be initialized because of a misconfiguration.
    Misconfigured(String),
    /// The check cannot run for lack of permissions.
    PermissionDenied(String),
    /// The update cannot be applied because of a conflict.
    Conflict(String),
    /// Running the update failed.
    FailedUpdate(String),
}

/// A check tests whether there are changes, applies them, and reports
/// whether anything changed.
pub trait Check {
    /// Check for changes and update if necessary; `Ok(true)` means the
    /// actions should run.
    fn check(&mut self, context: &mut Context) -> (r: Result<bool, CheckError>)
        requires
            old(context).wf(),
        ensures
            final(context).wf(),
    ;
}

} // verus!
