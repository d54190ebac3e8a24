use vstd::prelude::*;

use super::{Check, CheckError};
use crate::context::Context;
use self::repository::{annotated_id_hex, short_of, shorthash, GitRepository};

/// The credential picking for fetches.
pub mod credentials;
/// The repository engine around the git library.
pub mod repository;

pub use credentials::CredentialAuth;

verus! {

/// Whether updates are applied on every push or only on matching tags.
#[derive(Debug, Clone)]
pub enum GitTriggerArgument {
    Push,
    Tag(String),
}

impl GitTriggerArgument {
    /// A human readable form of the update policy.
    pub fn describe(&self) -> (r: String)
        ensures
            self is Push ==> r@ == "push"@,
            self matches GitTriggerArgument::Tag(p) ==> (if p@ == "*"@ {
                r@ == "tag"@
            } else {
                r@ == "tag matching \""@ + p@ + "\""@
            }),
    {
        match self {
            GitTriggerArgument::Push => "push".to_owned(),
            GitTriggerArgument::Tag(pattern) => {
                let star = "*".to_owned();
                if *pattern == star {
                    "tag".to_owned()
                } else {
                    "tag matching \"".to_owned().concat(pattern.as_str()).concat("\"")
                }
            },
        }
    }
}

/// A pattern character that globs: `*`, `?`, `[` or `{`.
pub open spec fn is_glob_char(c: char) -> bool {
    c == '*' || c == '?' || c == '[' || c == '{'
}

/// Whether a tag pattern contains any globbing; one without matches only
/// itself, which deserves a warning.
pub fn pattern_has_glob(pattern: &str) -> (r: bool)
    ensures
        r == exists|i: int| 0 <= i < pattern@.len() && is_glob_char(#[trigger] pattern@[i]),
{
    let n = pattern.unicode_len();
    let mut i: usize = 0;
    while i < n
        invariant
            n == pattern@.len(),
            0 <= i <= n,
            forall|j: int| 0 <= j < i ==> !is_glob_char(#[trigger] pattern@[j]),
        decreases n - i,
    {
        let c = pattern.get_char(i);
        if c == '*' || c == '?' || c == '[' || c == '{' {
            return true;
        }
        i = i + 1;
    }
    false
}

/// The error cases for the git check.
#[derive(Debug, PartialEq, Eq)]
pub enum GitError {
    /// The directory is not a valid git repository; the parameters are the
    /// directory and the underlying message.
    NotAGitRepository(String, String),
    /// HEAD cannot be read, probably an unborn branch or a deleted ref.
    NoHead,
    /// The repository is not on a branch.
    NotOnABranch,
    /// The current branch has no remote; the parameter is the branch.
    NoRemoteForBranch(String),
    /// There are uncommitted changes, pulling would overwrite them.
    DirtyWorkingTree,
    /// The git configuration cannot be loaded.
    ConfigLoadingFailed,
    /// The ssh configuration cannot be created.
    SshConfigFailed,
    /// The fetch failed; the parameter holds the message.
    FetchFailed(String),
    /// The branch cannot be updated: the merge analysis found a conflict.
    MergeConflict,
    /// Matching tags between the fetched commit and the branch failed.
    TagMatchingFailed,
    /// HEAD could not be set to the fetched commit; the parameter is its
    /// short hash.
    FailedSettingHead(String),
}

impl GitError {
    /// Whether the error is a misconfiguration of the repository.
    pub open spec fn is_misconfiguration(self) -> bool {
        self is NotAGitRepository || self is NoHead || self is NotOnABranch
            || self is NoRemoteForBranch
    }

    /// Whether the error is a permission problem of the configuration.
    pub open spec fn is_permission(self) -> bool {
        self is ConfigLoadingFailed || self is SshConfigFailed
    }

    /// Whether the error is a conflict with local state.
    pub open spec fn is_conflict(self) -> bool {
        self is DirtyWorkingTree || self is MergeConflict
    }

    /// The text of the error's message.
    pub open spec fn message_view(self) -> Seq<char> {
        match self {
            GitError::NotAGitRepository(dir, msg) => dir@ + " is not a valid git repository ("@
                + msg@ + ")"@,
            GitError::NoHead => "HEAD is invalid, probably points to invalid commit"@,
            GitError::NotOnABranch => {
                "repository is not on a branch, checkout or create a commit first"@
            },
            GitError::NoRemoteForBranch(branch) => "branch "@ + branch@
                + " doesn't have a remote, push your commits first"@,
            GitError::DirtyWorkingTree => "there are uncommited changes in the directory"@,
            GitError::ConfigLoadingFailed => "cannot load git config"@,
            GitError::SshConfigFailed => "cannot create ssh config"@,
            GitError::FetchFailed(msg) => "cannot fetch ("@ + msg@ + ")"@,
            GitError::MergeConflict => "cannot update branch, this is likely a merge conflict"@,
            GitError::TagMatchingFailed => {
                "failed matching tags between the new commit and the branch"@
            },
            GitError::FailedSettingHead(short) => "could not set HEAD to fetch commit "@ + short@,
        }
    }

    /// The human readable message of the error.
    pub fn message(&self) -> (r: String)
        ensures
            r@ == self.message_view(),
    {
        match self {
            GitError::NotAGitRepository(dir, msg) => dir.clone().concat(
                " is not a valid git repository (",
            ).concat(msg.as_str()).concat(")"),
            GitError::NoHead => "HEAD is invalid, probably points to invalid commit".to_owned(),
            GitError::NotOnABranch => {
                "repository is not on a branch, checkout or create a commit first".to_owned()
            },
            GitError::NoRemoteForBranch(branch) => "branch ".to_owned().concat(
                branch.as_str(),
            ).concat(" doesn't have a remote, push your commits first"),
            GitError::DirtyWorkingTree => "there are uncommited changes in the directory".to_owned(),
            GitError::ConfigLoadingFailed => "cannot load git config".to_owned(),
            GitError::SshConfigFailed => "cannot create ssh config".to_owned(),
            GitError::FetchFailed(msg) => "cannot fetch (".to_owned().concat(msg.as_str()).concat(
                ")",
            ),
            GitError::MergeConflict => {
                "cannot update branch, this is likely a merge conflict".to_owned()
            },
            GitError::TagMatchingFailed => {
                "failed matching tags between the new commit and the branch".to_owned()
            },
            GitError::FailedSettingHead(short) => "could not set HEAD to fetch commit ".to_owned()
                .concat(short.as_str()),
        }
    }

    /// Sorts the git error into the check error taxonomy, carrying the
    /// error's message text.
    pub fn into_check(self) -> (r: CheckError)
        ensures
            self.is_misconfiguration() == (r is Misconfigured),
            self.is_permission() == (r is PermissionDenied),
            self.is_conflict() == (r is Conflict),
            !(self.is_misconfiguration() || self.is_permission() || self.is_conflict()) == (
            r is FailedUpdate),
            r matches CheckError::Misconfigured(m) ==> m@ == self.message_view(),
            r matches CheckError::PermissionDenied(m) ==> m@ == self.message_view(),
            r matches CheckError::Conflict(m) ==> m@ == self.message_view(),
            r matches CheckError::FailedUpdate(m) ==> m@ == self.message_view(),
    {
        let message = self.message();
        match self {
            GitError::NotAGitRepository(_, _)
            | GitError::NoHead
            | GitError::NotOnABranch
            | GitError::NoRemoteForBranch(_) => CheckError::Misconfigured(message),
            GitError::ConfigLoadingFailed | GitError::SshConfigFailed => {
                CheckError::PermissionDenied(message)
            },
            GitError::DirtyWorkingTree | GitError::MergeConflict => CheckError::Conflict(message),
            GitError::FetchFailed(_) | GitError::FailedSettingHead(_)
            | GitError::TagMatchingFailed => CheckError::FailedUpdate(message),
        }
    }
}

/// The check learned the repository identity: every outcome except the two
/// identity errors comes after the identity was read.
pub open spec fn identity_recorded(r: Result<bool, GitError>) -> bool {
    match r {
        Ok(_) => true,
        Err(e) => !(e is NotOnABranch || e is NoRemoteForBranch),
    }
}

/// A key the check itself writes into the context.
pub open spec fn is_check_key(k: Seq<char>) -> bool {
    k == "CHECK_NAME"@ || k == "GIT_BRANCH_NAME"@ || k == "GIT_BEFORE_COMMIT_SHA"@ || k
        == "GIT_BEFORE_COMMIT_SHORT_SHA"@ || k == "GIT_REMOTE_NAME"@ || k == "GIT_REMOTE_URL"@ || k
        == "GIT_REF_TYPE"@ || k == "GIT_REF_NAME"@ || k == "GIT_COMMIT_SHA"@ || k
        == "GIT_COMMIT_SHORT_SHA"@ || k == "GIT_COMMIT_TAG_NAME"@
}

/// A check that fetches a local git repository's upstream and fast-forwards
/// the working copy when it may advance.
pub struct GitCheck {
    pub repo: GitRepository,
    pub trigger: GitTriggerArgument,
}

impl GitCheck {
    /// Opens the git repository at the given directory; failure is always a
    /// misconfiguration.
    pub fn open_inner(directory: &str, trigger: GitTriggerArgument) -> (r: Result<Self, CheckError>)
        ensures
            r matches Err(e) ==> e is Misconfigured,
            r matches Ok(c) ==> c.trigger == trigger,
    {
        match GitRepository::open(directory) {
            Ok(repo) => Ok(GitCheck { repo, trigger }),
            Err(e) => Err(e.into_check()),
        }
    }

    /// Stores explicit credentials for the coming fetches.
    pub fn set_auth(&mut self, auth: CredentialAuth) {
        self.repo.set_auth(auth);
    }

    /// Runs one check: reads the repository identity into the context,
    /// fetches, and applies the update policy.
    ///
    /// `Ok(true)` means the working copy advanced and the context describes
    /// the new commit; `Ok(false)` means there was nothing to apply and no
    /// commit keys were added.
    pub fn check_inner(&mut self, context: &mut Context) -> (r: Result<bool, GitError>)
        requires
            old(context).wf(),
        ensures
            final(context).wf(),
            old(context)@.dom().subset_of(final(context)@.dom()),
            forall|k: Seq<char>|
                old(context)@.contains_key(k) && !is_check_key(k) ==> final(context)@[k] == old(
                    context,
                )@[k],
            identity_recorded(r) ==> final(context)@.contains_key("CHECK_NAME"@) && final(context)@["CHECK_NAME"@] == "GIT"@,
            identity_recorded(r) ==> final(context)@.contains_key("GIT_BRANCH_NAME"@) && final(context)@.contains_key("GIT_BEFORE_COMMIT_SHA"@) && final(context)@.contains_key(
                "GIT_BEFORE_COMMIT_SHORT_SHA"@,
            ) && final(context)@.contains_key("GIT_REMOTE_NAME"@) && final(context)@.contains_key(
                "GIT_REMOTE_URL"@,
            ),
            identity_recorded(r) ==> final(context)@["GIT_BEFORE_COMMIT_SHORT_SHA"@] == short_of(
                final(context)@["GIT_BEFORE_COMMIT_SHA"@],
            ),
            r == Ok::<bool, GitError>(true) ==> final(context)@.contains_key("GIT_REF_TYPE"@)
                && final(context)@.contains_key("GIT_REF_NAME"@) && final(context)@.contains_key(
                "GIT_COMMIT_SHA"@,
            ) && final(context)@.contains_key("GIT_COMMIT_SHORT_SHA"@),
            r == Ok::<bool, GitError>(true) ==> final(context)@["GIT_COMMIT_SHORT_SHA"@]
                == short_of(final(context)@["GIT_COMMIT_SHA"@]),
            r == Ok::<bool, GitError>(true) && old(self).trigger is Push ==> final(context)@["GIT_REF_TYPE"@] == "branch"@,
            r == Ok::<bool, GitError>(true) && old(self).trigger is Tag ==> final(context)@["GIT_REF_TYPE"@] == "tag"@ && final(context)@.contains_key("GIT_COMMIT_TAG_NAME"@)
                && final(context)@["GIT_REF_NAME"@] == "refs/tags/"@ + final(context)@["GIT_COMMIT_TAG_NAME"@],
            r == Ok::<bool, GitError>(false) && !old(context)@.contains_key("GIT_REF_TYPE"@)
                ==> !final(context)@.contains_key("GIT_REF_TYPE"@),
            r == Ok::<bool, GitError>(false) && !old(context)@.contains_key("GIT_REF_NAME"@)
                ==> !final(context)@.contains_key("GIT_REF_NAME"@),
            r == Ok::<bool, GitError>(false) && !old(context)@.contains_key("GIT_COMMIT_SHA"@)
                ==> !final(context)@.contains_key("GIT_COMMIT_SHA"@),
            r == Ok::<bool, GitError>(false) && !old(context)@.contains_key(
                "GIT_COMMIT_SHORT_SHA"@,
            ) ==> !final(context)@.contains_key("GIT_COMMIT_SHORT_SHA"@),
            r == Ok::<bool, GitError>(false) && !old(context)@.contains_key(
                "GIT_COMMIT_TAG_NAME"@,
            ) ==> !final(context)@.contains_key("GIT_COMMIT_TAG_NAME"@),
    {
        proof {
            reveal_strlit("CHECK_NAME");
            reveal_strlit("GIT_BRANCH_NAME");
            reveal_strlit("GIT_BEFORE_COMMIT_SHA");
            reveal_strlit("GIT_BEFORE_COMMIT_SHORT_SHA");
            reveal_strlit("GIT_REMOTE_NAME");
            reveal_strlit("GIT_REMOTE_URL");
            reveal_strlit("GIT_REF_TYPE");
            reveal_strlit("GIT_REF_NAME");
            reveal_strlit("GIT_COMMIT_SHA");
            reveal_strlit("GIT_COMMIT_SHORT_SHA");
            reveal_strlit("GIT_COMMIT_TAG_NAME");
            assert("CHECK_NAME"@.len() == 10);
            assert("GIT_BRANCH_NAME"@.len() == 15);
            assert("GIT_BEFORE_COMMIT_SHA"@.len() == 21);
            assert("GIT_BEFORE_COMMIT_SHORT_SHA"@.len() == 27);
            assert("GIT_REMOTE_NAME"@.len() == 15);
            assert("GIT_REMOTE_URL"@.len() == 14);
            assert("GIT_REF_TYPE"@.len() == 12);
            assert("GIT_REF_NAME"@.len() == 12);
            assert("GIT_COMMIT_SHA"@.len() == 14);
            assert("GIT_COMMIT_SHORT_SHA"@.len() == 20);
            assert("GIT_COMMIT_TAG_NAME"@.len() == 19);
            assert("GIT_BRANCH_NAME"@[4] == 'B');
            assert("GIT_REMOTE_NAME"@[4] == 'R');
            assert("GIT_REMOTE_URL"@[4] == 'R');
            assert("GIT_COMMIT_SHA"@[4] == 'C');
            assert("GIT_REF_TYPE"@[8] == 'T');
            assert("GIT_REF_NAME"@[8] == 'N');
            assert("CHECK_NAME"@ != "GIT_BRANCH_NAME"@);
            assert("CHECK_NAME"@ != "GIT_BEFORE_COMMIT_SHA"@);
            assert("CHECK_NAME"@ != "GIT_BEFORE_COMMIT_SHORT_SHA"@);
            assert("CHECK_NAME"@ != "GIT_REMOTE_NAME"@);
            assert("CHECK_NAME"@ != "GIT_REMOTE_URL"@);
            assert("CHECK_NAME"@ != "GIT_REF_TYPE"@);
            assert("CHECK_NAME"@ != "GIT_REF_NAME"@);
            assert("CHECK_NAME"@ != "GIT_COMMIT_SHA"@);
            assert("CHECK_NAME"@ != "GIT_COMMIT_SHORT_SHA"@);
            assert("CHECK_NAME"@ != "GIT_COMMIT_TAG_NAME"@);
            assert("GIT_BRANCH_NAME"@ != "GIT_BEFORE_COMMIT_SHA"@);
            assert("GIT_BRANCH_NAME"@ != "GIT_BEFORE_COMMIT_SHORT_SHA"@);
            assert("GIT_BRANCH_NAME"@ != "GIT_REMOTE_NAME"@);
            assert("GIT_BRANCH_NAME"@ != "GIT_REMOTE_URL"@);
            assert("GIT_BRANCH_NAME"@ != "GIT_REF_TYPE"@);
            assert("GIT_BRANCH_NAME"@ != "GIT_REF_NAME"@);
            assert("GIT_BRANCH_NAME"@ != "GIT_COMMIT_SHA"@);
            assert("GIT_BRANCH_NAME"@ != "GIT_COMMIT_SHORT_SHA"@);
            assert("GIT_BRANCH_NAME"@ != "GIT_COMMIT_TAG_NAME"@);
            assert("GIT_BEFORE_COMMIT_SHA"@ != "GIT_BEFORE_COMMIT_SHORT_SHA"@);
            assert("GIT_BEFORE_COMMIT_SHA"@ != "GIT_REMOTE_NAME"@);
            assert("GIT_BEFORE_COMMIT_SHA"@ != "GIT_REMOTE_URL"@);
            assert("GIT_BEFORE_COMMIT_SHA"@ != "GIT_REF_TYPE"@);
            assert("GIT_BEFORE_COMMIT_SHA"@ != "GIT_REF_NAME"@);
            assert("GIT_BEFORE_COMMIT_SHA"@ != "GIT_COMMIT_SHA"@);
            assert("GIT_BEFORE_COMMIT_SHA"@ != "GIT_COMMIT_SHORT_SHA"@);
            assert("GIT_BEFORE_COMMIT_SHA"@ != "GIT_COMMIT_TAG_NAME"@);
            assert("GIT_BEFORE_COMMIT_SHORT_SHA"@ != "GIT_REMOTE_NAME"@);
            assert("GIT_BEFORE_COMMIT_SHORT_SHA"@ != "GIT_REMOTE_URL"@);
            assert("GIT_BEFORE_COMMIT_SHORT_SHA"@ != "GIT_REF_TYPE"@);
            assert("GIT_BEFORE_COMMIT_SHORT_SHA"@ != "GIT_REF_NAME"@);
            assert("GIT_BEFORE_COMMIT_SHORT_SHA"@ != "GIT_COMMIT_SHA"@);
            assert("GIT_BEFORE_COMMIT_SHORT_SHA"@ != "GIT_COMMIT_SHORT_SHA"@);
            assert("GIT_BEFORE_COMMIT_SHORT_SHA"@ != "GIT_COMMIT_TAG_NAME"@);
            assert("GIT_REMOTE_NAME"@ != "GIT_REMOTE_URL"@);
            assert("GIT_REMOTE_NAME"@ != "GIT_REF_TYPE"@);
            assert("GIT_REMOTE_NAME"@ != "GIT_REF_NAME"@);
            assert("GIT_REMOTE_NAME"@ != "GIT_COMMIT_SHA"@);
            assert("GIT_REMOTE_NAME"@ != "GIT_COMMIT_SHORT_SHA"@);
            assert("GIT_REMOTE_NAME"@ != "GIT_COMMIT_TAG_NAME"@);
            assert("GIT_REMOTE_URL"@ != "GIT_REF_TYPE"@);
            assert("GIT_REMOTE_URL"@ != "GIT_REF_NAME"@);
            assert("GIT_REMOTE_URL"@ != "GIT_COMMIT_SHA"@);
            assert("GIT_REMOTE_URL"@ != "GIT_COMMIT_SHORT_SHA"@);
            assert("GIT_REMOTE_URL"@ != "GIT_COMMIT_TAG_NAME"@);
            assert("GIT_REF_TYPE"@ != "GIT_REF_NAME"@);
            assert("GIT_REF_TYPE"@ != "GIT_COMMIT_SHA"@);
            assert("GIT_REF_TYPE"@ != "GIT_COMMIT_SHORT_SHA"@);
            assert("GIT_REF_TYPE"@ != "GIT_COMMIT_TAG_NAME"@);
            assert("GIT_REF_NAME"@ != "GIT_COMMIT_SHA"@);
            assert("GIT_REF_NAME"@ != "GIT_COMMIT_SHORT_SHA"@);
            assert("GIT_REF_NAME"@ != "GIT_COMMIT_TAG_NAME"@);
            assert("GIT_COMMIT_SHA"@ != "GIT_COMMIT_SHORT_SHA"@);
            assert("GIT_COMMIT_SHA"@ != "GIT_COMMIT_TAG_NAME"@);
            assert("GIT_COMMIT_SHORT_SHA"@ != "GIT_COMMIT_TAG_NAME"@);
        }
        let info = match self.repo.get_repository_information() {
            Ok(info) => info,
            Err(e) => {
                return Err(e);
            },
        };
        context.insert("CHECK_NAME", "GIT".to_owned());
        context.insert("GIT_BRANCH_NAME", info.branch_name.clone());
        context.insert("GIT_BEFORE_COMMIT_SHA", info.commit_sha.clone());
        context.insert("GIT_BEFORE_COMMIT_SHORT_SHA", info.commit_short_sha.clone());
        context.insert("GIT_REMOTE_NAME", info.remote_name.clone());
        context.insert("GIT_REMOTE_URL", info.remote_url.clone());
        let fetch_commit = match self.repo.fetch() {
            Ok(commit) => commit,
            Err(e) => {
                return Err(e);
            },
        };
        let updatable = match self.repo.check_if_updatable(&fetch_commit) {
            Ok(updatable) => updatable,
            Err(e) => {
                return Err(e);
            },
        };
        if !updatable {
            return Ok(false);
        }
        match &self.trigger {
            GitTriggerArgument::Push => {
                let commit_hex = annotated_id_hex(&fetch_commit);
                match self.repo.pull(commit_hex.as_str()) {
                    Ok(()) => {
                    },
                    Err(e) => {
                        return Err(e);
                    },
                }
                context.insert("GIT_REF_TYPE", "branch".to_owned());
                context.insert("GIT_REF_NAME", info.ref_name.clone());
                let short = shorthash(commit_hex.as_str());
                context.insert("GIT_COMMIT_SHA", commit_hex);
                context.insert("GIT_COMMIT_SHORT_SHA", short);
                Ok(true)
            },
            GitTriggerArgument::Tag(pattern) => {
                let commit_hex = annotated_id_hex(&fetch_commit);
                let mut tags = match self.repo.find_tags(commit_hex.as_str(), pattern.as_str()) {
                    Ok(tags) => tags,
                    Err(e) => {
                        return Err(e);
                    },
                };
                match tags.pop() {
                    Some((tag_name, tag_commit)) => {
                        match self.repo.pull(tag_commit.as_str()) {
                            Ok(()) => {
                            },
                            Err(e) => {
                                return Err(e);
                            },
                        }
                        context.insert("GIT_REF_TYPE", "tag".to_owned());
                        let ref_name = "refs/tags/".to_owned().concat(tag_name.as_str());
                        context.insert("GIT_REF_NAME", ref_name);
                        let short = shorthash(tag_commit.as_str());
                        context.insert("GIT_COMMIT_SHA", tag_commit);
                        context.insert("GIT_COMMIT_SHORT_SHA", short);
                        context.insert("GIT_COMMIT_TAG_NAME", tag_name);
                        Ok(true)
                    },
                    None => Ok(false),
                }
            },
        }
    }
}

impl Check for GitCheck {
    /// Fetches and applies changes from the remote repository; `Ok(true)`
    /// means the working copy advanced.
    fn check(&mut self, context: &mut Context) -> (r: Result<bool, CheckError>) {
        match self.check_inner(context) {
            Ok(updated) => Ok(updated),
            Err(e) => Err(e.into_check()),
        }
    }
}

} // verus!
