use vstd::prelude::*;


verus! {

/// A minimal repository abstraction: somewhere changes can be checked for
/// and pulled from.
pub trait RepositoryLike where Self: Sized {
    /// Opens the repository at the given directory.
    fn open(directory: &str) -> Result<Self, String>;

    /// The directory the repository lives in.
    fn get_directory(&self) -> String;

    /// Environment entries the repository hands to commands run inside it.
    fn get_envs(&self) -> Vec<(String, String)>;

    /// Whether the upstream holds changes that could be pulled.
    fn check_for_updates(&self) -> Result<bool, String>;

    /// Pulls pending changes; the result tells whether anything changed.
    fn pull_updates(&mut self) -> Result<bool, String>;
}

} // verus!
