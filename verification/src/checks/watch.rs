use vstd::prelude::*;

verus! {

/// A check that will watch a directory for changes; not yet wired to any
/// watcher, it exists as the second kind of check beside the git one.
#[derive(Debug, PartialEq, Eq)]
pub struct WatchCheck;

} // verus!
