use vstd::prelude::*;

use super::credentials::{CredentialAuth, CredentialHandler};
use super::GitError;
use crate::command::words_view;

verus! {

#[verifier::external_type_specification]
#[verifier::external_body]
pub struct ExRepository(git2::Repository);

#[verifier::external_type_specification]
#[verifier::external_body]
pub struct ExAnnotatedCommit<'a>(git2::AnnotatedCommit<'a>);

#[verifier::external_type_specification]
#[verifier::external_body]
pub struct ExReference<'a>(git2::Reference<'a>);

#[verifier::external_type_specification]
#[verifier::external_body]
pub struct ExRemote<'a>(git2::Remote<'a>);

/// The identity of the repository: where HEAD is and which upstream the
/// current branch follows.
#[derive(Debug)]
pub struct GitRepositoryInformation {
    pub ref_name: String,
    pub branch_name: String,
    pub commit_sha: String,
    pub commit_short_sha: String,
    pub remote_name: String,
    pub remote_url: String,
}

/// The short form of a commit hash: its first seven characters; a hash
/// shorter than that is kept whole.
pub open spec fn short_of(sha: Seq<char>) -> Seq<char> {
    if sha.len() >= 7 {
        sha.subrange(0, 7)
    } else {
        sha
    }
}

/// Returns the seven character short form of a commit hash.
pub fn shorthash(sha: &str) -> (r: String)
    ensures
        r@ == short_of(sha@),
{
    let n = sha.unicode_len();
    if n >= 7 {
        sha.substring_char(0, 7).to_owned()
    } else {
        sha.to_owned()
    }
}

/// A directory opened as a git repository, together with the explicit
/// credentials to fetch with.
pub struct GitRepository {
    pub repo: git2::Repository,
    pub auth: Option<CredentialAuth>,
}

// ------------------------------------------------------------------
// Trusted wrappers around the git library.
// ------------------------------------------------------------------

/// Relies on git2::Repository::open.
#[verifier::external_body]
fn repo_open(directory: &str) -> Result<git2::Repository, git2::Error> {
    git2::Repository::open(directory)
}

/// Relies on git2::Error::message, trimmed of surrounding whitespace.
#[verifier::external_body]
fn git_error_message(e: &git2::Error) -> String {
    e.message().trim().to_string()
}

/// Relies on git2::Repository::head, git2::Reference::name,
/// git2::Reference::shorthand, git2::Reference::peel_to_commit and the hex
/// form of git2::Oid: the qualified ref name, the short branch name and the
/// commit hash of HEAD; `None` when any of them is missing.
#[verifier::external_body]
fn head_info(repo: &git2::Repository) -> Option<(String, String, String)> {
    let head = repo.head().ok()?;
    let ref_name = head.name().ok()?.to_string();
    let branch_name = head.shorthand().ok()?.to_string();
    let commit_sha = head.peel_to_commit().ok()?.id().to_string();
    Some((ref_name, branch_name, commit_sha))
}

/// Relies on git2::Repository::branch_upstream_remote, git2::Buf::as_str,
/// git2::Repository::find_remote and git2::Remote::url: the name and URL of
/// the branch's configured upstream; `None` when the branch has none.
#[verifier::external_body]
fn branch_remote_info(repo: &git2::Repository, ref_name: &str) -> Option<(String, String)> {
    let buf = repo.branch_upstream_remote(ref_name).ok()?;
    let remote_name = buf.as_str().ok()?.to_string();
    let remote = repo.find_remote(&remote_name).ok()?;
    let remote_url = remote.url().ok()?.to_string();
    Some((remote_name, remote_url))
}

/// Relies on git2::Config::open_default.
#[verifier::external_body]
fn config_open_default() -> Result<git2::Config, git2::Error> {
    git2::Config::open_default()
}

/// Relies on git2::Repository::find_remote.
#[verifier::external_body]
fn find_remote<'a>(repo: &'a git2::Repository, name: &str) -> Result<git2::Remote<'a>, git2::Error> {
    repo.find_remote(name)
}

/// Relies on git2::Remote::fetch with git2::RemoteCallbacks::credentials and
/// git2::FetchOptions::download_tags set to automatic; the closure handed to
/// the library only converts the allowed credential classes to plain flags
/// and calls the verified credential handler.
#[verifier::external_body]
fn remote_fetch(remote: &mut git2::Remote, branch: &str, handler: CredentialHandler<'_>) -> Result<
    (),
    git2::Error,
> {
    let mut ch = handler;
    let mut cb = git2::RemoteCallbacks::new();
    cb.credentials(move |url, username, allowed| {
        let user = username.map(|u| u.to_string());
        let u = allowed.contains(git2::CredentialType::USERNAME);
        let s = allowed.contains(git2::CredentialType::SSH_KEY);
        let p = allowed.contains(git2::CredentialType::USER_PASS_PLAINTEXT);
        let d = allowed.contains(git2::CredentialType::DEFAULT);
        ch.try_next_credential(url, user, u, s, p, d)
    });
    let mut opts = git2::FetchOptions::new();
    opts.remote_callbacks(cb);
    opts.download_tags(git2::AutotagOption::Auto);
    remote.fetch(&[branch], Some(&mut opts), None)
}

/// Relies on git2::Repository::find_reference and
/// git2::Repository::reference_to_annotated_commit.
#[verifier::external_body]
fn find_annotated<'a>(repo: &'a git2::Repository, refname: &str) -> Result<
    git2::AnnotatedCommit<'a>,
    git2::Error,
> {
    let reference = repo.find_reference(refname)?;
    repo.reference_to_annotated_commit(&reference)
}

/// Relies on git2::AnnotatedCommit::id and the hex form of git2::Oid.
#[verifier::external_body]
pub(crate) fn annotated_id_hex(commit: &git2::AnnotatedCommit<'_>) -> String {
    commit.id().to_string()
}

/// Relies on git2::Repository::merge_analysis and the four tests of
/// git2::MergeAnalysis: the fast-forward, up-to-date, unborn and normal
/// flags of the analysis, in that order.
#[verifier::external_body]
fn merge_analysis_flags(repo: &git2::Repository, commit: &git2::AnnotatedCommit<'_>) -> Result<
    (bool, bool, bool, bool),
    git2::Error,
> {
    let (analysis, _) = repo.merge_analysis(&[commit])?;
    Ok((
        analysis.is_fast_forward(),
        analysis.is_up_to_date(),
        analysis.is_unborn(),
        analysis.is_normal(),
    ))
}

/// Relies on git2::Repository::tag_names: the names of the tags matching
/// the glob pattern; a name that is not valid text is left out.
#[verifier::external_body]
fn tag_names_matching(repo: &git2::Repository, pattern: &str) -> Result<Vec<String>, git2::Error> {
    Ok(repo.tag_names(Some(pattern))?.iter().flatten().flatten().map(|name| name.to_string()).collect())
}

/// Relies on git2::Repository::find_reference, git2::Reference::peel_to_commit
/// and the hex form of git2::Oid: the commit hash a reference points to.
#[verifier::external_body]
fn reference_target_hex(repo: &git2::Repository, refname: &str) -> Option<String> {
    let reference = repo.find_reference(refname).ok()?;
    let commit = reference.peel_to_commit().ok()?;
    Some(commit.id().to_string())
}

/// Which step of walking the history failed.
#[derive(Debug, PartialEq, Eq, Structural)]
pub enum WalkFailure {
    /// The walk could not be created or the commit hash not parsed.
    Setup,
    /// The starting commit cannot be walked from: it is not on this branch.
    Push,
    /// An entry of the walk could not be read.
    Step,
}

/// Relies on git2::Repository::revwalk, git2::Revwalk::push, git2::Oid::from_str
/// and the walk's iteration: the commit hashes reachable from the given
/// commit, most recent first.
#[verifier::external_body]
fn revwalk_hexes(repo: &git2::Repository, from_hex: &str) -> Result<Vec<String>, WalkFailure> {
    let mut walk = repo.revwalk().map_err(|_| WalkFailure::Setup)?;
    let oid = git2::Oid::from_str(from_hex).map_err(|_| WalkFailure::Setup)?;
    walk.push(oid).map_err(|_| WalkFailure::Push)?;
    let mut out: Vec<String> = Vec::new();
    for item in walk {
        match item {
            Ok(oid) => out.push(oid.to_string()),
            Err(_) => {
                return Err(WalkFailure::Step);
            },
        }
    }
    Ok(out)
}

/// Relies on git2::Repository::statuses with git2::StatusOptions and
/// git2::Statuses::is_empty: whether the working tree has no status entries,
/// with ignored files included or not as asked.
#[verifier::external_body]
fn statuses_empty(repo: &git2::Repository, include_ignored: bool) -> Result<bool, git2::Error> {
    let mut opts = git2::StatusOptions::new();
    opts.include_ignored(include_ignored);
    Ok(repo.statuses(Some(&mut opts))?.is_empty())
}

/// Relies on git2::Repository::find_reference.
#[verifier::external_body]
fn find_reference<'a>(repo: &'a git2::Repository, refname: &str) -> Result<
    git2::Reference<'a>,
    git2::Error,
> {
    repo.find_reference(refname)
}

/// Relies on git2::Reference::set_target and git2::Oid::from_str: moves the
/// reference to the given commit with the given reflog message.
#[verifier::external_body]
fn reference_set_target(
    reference: &mut git2::Reference<'_>,
    hex: &str,
    message: &str,
) -> Result<(), git2::Error> {
    let oid = git2::Oid::from_str(hex)?;
    reference.set_target(oid, message)?;
    Ok(())
}

/// Relies on git2::Repository::set_head.
#[verifier::external_body]
fn repo_set_head(repo: &git2::Repository, refname: &str) -> Result<(), git2::Error> {
    repo.set_head(refname)
}

/// Relies on git2::Repository::checkout_head with a forced
/// git2::build::CheckoutBuilder.
#[verifier::external_body]
fn checkout_head_force(repo: &git2::Repository) -> Result<(), git2::Error> {
    repo.checkout_head(Some(git2::build::CheckoutBuilder::default().force()))
}

/// Relies on dirs::home_dir and std::path::Path::exists: the full path of
/// the given file under the user's home directory, if that file exists.
#[verifier::external_body]
fn home_key_path(relative: &str) -> Option<String> {
    let path = dirs::home_dir().unwrap_or(std::path::PathBuf::from("~")).join(relative);
    if path.exists() {
        path.to_str().map(|p| p.to_string())
    } else {
        None
    }
}

// ------------------------------------------------------------------
// The pure core of the tag walk.
// ------------------------------------------------------------------

/// The view of a sequence of string pairs.
pub open spec fn pairs_view(s: Seq<(String, String)>) -> Seq<(Seq<char>, Seq<char>)> {
    s.map_values(|p: (String, String)| (p.0@, p.1@))
}

/// The name of the last tag entry among the first `n` pointing at the
/// given commit; entries are (commit, name) pairs, and a commit carrying
/// several matching tags keeps the one listed last.
pub open spec fn tag_name_upto(
    tags: Seq<(Seq<char>, Seq<char>)>,
    hex: Seq<char>,
    n: int,
) -> Option<Seq<char>>
    decreases n,
{
    if n <= 0 || n > tags.len() {
        None
    } else if tags[n - 1].0 == hex {
        Some(tags[n - 1].1)
    } else {
        tag_name_upto(tags, hex, n - 1)
    }
}

/// The name of the tag pointing at the given commit, the last entry
/// winning.
pub open spec fn tag_name_of(tags: Seq<(Seq<char>, Seq<char>)>, hex: Seq<char>) -> Option<
    Seq<char>,
> {
    tag_name_upto(tags, hex, tags.len() as int)
}

/// The (name, commit) pairs of tagged commits encountered walking from
/// position `i` until the head commit (exclusive) or the end of the walk,
/// in walk order, that is most recent first.
pub open spec fn matched_from(
    walk: Seq<Seq<char>>,
    head: Seq<char>,
    tags: Seq<(Seq<char>, Seq<char>)>,
    i: int,
) -> Seq<(Seq<char>, Seq<char>)>
    decreases walk.len() - i,
{
    if i < 0 || i >= walk.len() || walk[i] == head {
        Seq::empty()
    } else {
        let rest = matched_from(walk, head, tags, i + 1);
        match tag_name_of(tags, walk[i]) {
            Some(name) => seq![(name, walk[i])] + rest,
            None => rest,
        }
    }
}

/// The tags found between the fetched commit and the head, in chronological
/// order: the walk runs from most recent backwards, so the matches are
/// reversed on return.
pub open spec fn matched_tags_in(
    walk: Seq<Seq<char>>,
    head: Seq<char>,
    tags: Seq<(Seq<char>, Seq<char>)>,
) -> Seq<(Seq<char>, Seq<char>)> {
    matched_from(walk, head, tags, 0).reverse()
}

/// The matches collected before position `i`, in walk order; meaningful
/// while the head was not yet seen.
spec fn matched_upto(
    walk: Seq<Seq<char>>,
    head: Seq<char>,
    tags: Seq<(Seq<char>, Seq<char>)>,
    i: int,
) -> Seq<(Seq<char>, Seq<char>)>
    decreases i,
{
    if i <= 0 {
        Seq::empty()
    } else {
        let prev = matched_upto(walk, head, tags, i - 1);
        match tag_name_of(tags, walk[i - 1]) {
            Some(name) => prev.push((name, walk[i - 1])),
            None => prev,
        }
    }
}

/// Splitting the matches at a position the head has not been seen before.
proof fn lemma_matched_split(
    walk: Seq<Seq<char>>,
    head: Seq<char>,
    tags: Seq<(Seq<char>, Seq<char>)>,
    i: int,
)
    requires
        0 <= i <= walk.len(),
        forall|j: int| 0 <= j < i ==> walk[j] != head,
    ensures
        matched_from(walk, head, tags, 0) == matched_upto(walk, head, tags, i) + matched_from(
            walk,
            head,
            tags,
            i,
        ),
    decreases i,
{
    if i == 0 {
        assert(matched_upto(walk, head, tags, 0) + matched_from(walk, head, tags, 0)
            =~= matched_from(walk, head, tags, 0));
    } else {
        lemma_matched_split(walk, head, tags, i - 1);
        let upto = matched_upto(walk, head, tags, i - 1);
        match tag_name_of(tags, walk[i - 1]) {
            Some(name) => {
                assert(matched_from(walk, head, tags, i - 1) == seq![(name, walk[i - 1])]
                    + matched_from(walk, head, tags, i));
                assert(upto + (seq![(name, walk[i - 1])] + matched_from(walk, head, tags, i))
                    =~= upto.push((name, walk[i - 1])) + matched_from(walk, head, tags, i));
            },
            None => {
                assert(matched_from(walk, head, tags, i - 1) == matched_from(walk, head, tags, i));
            },
        }
    }
}

/// Looks a commit up among the (commit, name) tag entries, the last entry
/// winning.
fn lookup_tag(tag_commits: &Vec<(String, String)>, hex: &str) -> (r: Option<String>)
    ensures
        match r {
            Some(name) => tag_name_of(pairs_view(tag_commits@), hex@) == Some(name@),
            None => tag_name_of(pairs_view(tag_commits@), hex@) is None,
        },
{
    let owned = hex.to_owned();
    let mut n: usize = tag_commits.len();
    while n > 0
        invariant
            owned@ == hex@,
            0 <= n <= tag_commits@.len(),
            tag_name_of(pairs_view(tag_commits@), hex@) == tag_name_upto(
                pairs_view(tag_commits@),
                hex@,
                n as int,
            ),
        decreases n,
    {
        n = n - 1;
        if tag_commits[n].0 == owned {
            return Some(tag_commits[n].1.clone());
        }
    }
    None
}

/// Registers, walking the history from the fetched commit down to the
/// current head, every commit a matching tag points to; the result is in
/// chronological order.
pub fn collect_matched_tags(
    walk: &Vec<String>,
    head_hex: &str,
    tag_commits: &Vec<(String, String)>,
) -> (r: Vec<(String, String)>)
    ensures
        pairs_view(r@) == matched_tags_in(words_view(walk@), head_hex@, pairs_view(tag_commits@)),
{
    let ghost w = words_view(walk@);
    let ghost tags = pairs_view(tag_commits@);
    let head_owned = head_hex.to_owned();
    let mut found: Vec<(String, String)> = Vec::new();
    let mut i: usize = 0;
    let mut stopped: bool = false;
    while i < walk.len() && !stopped
        invariant
            w == words_view(walk@),
            tags == pairs_view(tag_commits@),
            head_owned@ == head_hex@,
            0 <= i <= w.len(),
            !stopped ==> forall|j: int| 0 <= j < i ==> w[j] != head_hex@,
            !stopped ==> pairs_view(found@) == matched_upto(w, head_hex@, tags, i as int),
            stopped ==> pairs_view(found@) == matched_from(w, head_hex@, tags, 0),
        decreases w.len() - i + (if stopped { 0int } else { 1int }),
    {
        let current = &walk[i];
        if *current == head_owned {
            proof {
                lemma_matched_split(w, head_hex@, tags, i as int);
                assert(matched_from(w, head_hex@, tags, i as int) =~= Seq::empty());
                assert(matched_upto(w, head_hex@, tags, i as int) + Seq::empty() =~= matched_upto(
                    w,
                    head_hex@,
                    tags,
                    i as int,
                ));
            }
            stopped = true;
        } else {
            match lookup_tag(tag_commits, current.as_str()) {
                Some(name) => {
                    found.push((name, current.clone()));
                },
                None => {
                },
            }
            proof {
                assert(pairs_view(found@) =~= matched_upto(w, head_hex@, tags, i + 1));
            }
            i = i + 1;
        }
    }
    proof {
        if !stopped {
            lemma_matched_split(w, head_hex@, tags, w.len() as int);
            assert(matched_from(w, head_hex@, tags, w.len() as int) =~= Seq::empty());
            assert(matched_upto(w, head_hex@, tags, w.len() as int) + Seq::empty()
                =~= matched_upto(w, head_hex@, tags, w.len() as int));
        }
    }
    let ghost all = matched_from(w, head_hex@, tags, 0);
    let mut out: Vec<(String, String)> = Vec::new();
    let mut j: usize = found.len();
    while j > 0
        invariant
            pairs_view(found@) == all,
            0 <= j <= found@.len(),
            pairs_view(out@) =~= all.subrange(j as int, all.len() as int).reverse(),
        decreases j,
    {
        let ghost prev = out@;
        j = j - 1;
        out.push((found[j].0.clone(), found[j].1.clone()));
        proof {
            let told = all.subrange(j + 1, all.len() as int).reverse();
            let t = all.subrange(j as int, all.len() as int).reverse();
            assert(pairs_view(prev) =~= told);
            assert(told.len() == all.len() - j - 1);
            assert(t.len() == all.len() - j);
            assert(prev.len() == all.len() - j - 1);
            assert(out@ =~= prev.push(out@.last()));
            assert forall|k: int| 0 <= k < t.len() implies pairs_view(out@)[k] == t[k] by {
                assert(t[k] == all[all.len() - 1 - k]);
                if k < t.len() - 1 {
                    assert(pairs_view(out@)[k] == pairs_view(prev)[k]);
                    assert(told[k] == all[all.len() - 1 - k]);
                } else {
                    assert(pairs_view(out@)[k] == (found@[j as int].0@, found@[j as int].1@));
                    assert(pairs_view(found@)[j as int] == all[j as int]);
                }
            }
            assert(pairs_view(out@) =~= t);
        }
    }
    proof {
        assert(all.subrange(0, all.len() as int) =~= all);
        assert(pairs_view(out@) =~= all.reverse());
    }
    out
}

// ------------------------------------------------------------------
// The repository engine.
// ------------------------------------------------------------------

impl GitRepository {
    /// Opens a directory as a git repository; an unusable directory or a
    /// repository without branch or upstream fails right here, so that a
    /// misconfiguration surfaces before the first trigger.
    pub fn open(directory: &str) -> (r: Result<Self, GitError>)
        ensures
            r matches Err(e) ==> e is NotAGitRepository || e is NotOnABranch || e
                is NoRemoteForBranch,
    {
        let repo = match repo_open(directory) {
            Ok(repo) => repo,
            Err(e) => {
                return Err(
                    GitError::NotAGitRepository(directory.to_owned(), git_error_message(&e)),
                );
            },
        };
        let git_repo = GitRepository { repo, auth: None };
        match git_repo.get_repository_information() {
            Ok(_) => Ok(git_repo),
            Err(e) => Err(e),
        }
    }

    /// Stores explicit credentials for the coming fetches.
    pub fn set_auth(&mut self, auth: CredentialAuth)
        ensures
            final(self).auth == Some(auth),
    {
        self.auth = Some(auth);
    }

    /// Reads the identity of the repository: branch, head commit and
    /// upstream; a missing piece is a misconfiguration.
    pub fn get_repository_information(&self) -> (r: Result<GitRepositoryInformation, GitError>)
        ensures
            r matches Ok(info) ==> info.commit_short_sha@ == short_of(info.commit_sha@),
            r matches Err(e) ==> e is NotOnABranch || e is NoRemoteForBranch,
    {
        let (ref_name, branch_name, commit_sha) = match head_info(&self.repo) {
            Some(info) => info,
            None => {
                return Err(GitError::NotOnABranch);
            },
        };
        let (remote_name, remote_url) = match branch_remote_info(&self.repo, ref_name.as_str()) {
            Some(info) => info,
            None => {
                return Err(GitError::NoRemoteForBranch(branch_name));
            },
        };
        let commit_short_sha = shorthash(commit_sha.as_str());
        Ok(
            GitRepositoryInformation {
                ref_name,
                branch_name,
                commit_sha,
                commit_short_sha,
                remote_name,
                remote_url,
            },
        )
    }

    /// Fetches the current branch from its upstream, downloading tags
    /// automatically, and returns the commit that `FETCH_HEAD` points to.
    pub fn fetch(&self) -> (r: Result<git2::AnnotatedCommit<'_>, GitError>)
        ensures
            r matches Err(e) ==> e is NotOnABranch || e is NoRemoteForBranch
                || e is ConfigLoadingFailed || e is FetchFailed,
    {
        let info = match self.get_repository_information() {
            Ok(info) => info,
            Err(e) => {
                return Err(e);
            },
        };
        let cfg = match config_open_default() {
            Ok(cfg) => cfg,
            Err(_) => {
                return Err(GitError::ConfigLoadingFailed);
            },
        };
        let mut candidates: Vec<String> = Vec::new();
        match &self.auth {
            Some(CredentialAuth::Ssh(path)) => {
                candidates.push(path.clone());
            },
            _ => {
                let names = default_key_names();
                let mut i: usize = 0;
                while i < names.len()
                    decreases names@.len() - i,
                {
                    match home_key_path(names[i].as_str()) {
                        Some(path) => candidates.push(path),
                        None => {
                        },
                    }
                    i = i + 1;
                }
            },
        }
        let handler = CredentialHandler::new(cfg, self.auth.as_ref(), candidates);
        let mut remote = match find_remote(&self.repo, info.remote_name.as_str()) {
            Ok(remote) => remote,
            Err(_) => {
                return Err(GitError::NoRemoteForBranch(info.branch_name));
            },
        };
        match remote_fetch(&mut remote, info.branch_name.as_str(), handler) {
            Ok(()) => {
            },
            Err(e) => {
                return Err(GitError::FetchFailed(git_error_message(&e)));
            },
        }
        match find_annotated(&self.repo, "FETCH_HEAD") {
            Ok(commit) => Ok(commit),
            Err(e) => Err(GitError::FetchFailed(git_error_message(&e))),
        }
    }

    /// Decides from the merge analysis whether the fetched commit can be
    /// applied: only a fast-forward is applied, an up-to-date repository
    /// needs nothing, and everything else is a conflict.
    pub fn check_if_updatable(&self, fetch_commit: &git2::AnnotatedCommit<'_>) -> (r: Result<
        bool,
        GitError,
    >)
        ensures
            r matches Err(e) ==> e is MergeConflict,
    {
        let (is_fast_forward, is_up_to_date, _is_unborn, _is_normal) = match merge_analysis_flags(
            &self.repo,
            fetch_commit,
        ) {
            Ok(flags) => flags,
            Err(_) => {
                return Err(GitError::MergeConflict);
            },
        };
        classify_merge_analysis(is_fast_forward, is_up_to_date)
    }

    /// Walks the history from the fetched commit down to the current head
    /// and returns every (tag name, commit) pair whose tag matches the
    /// pattern, in chronological order.
    pub fn find_tags(&self, last_commit_hex: &str, pattern: &str) -> (r: Result<
        Vec<(String, String)>,
        GitError,
    >)
        ensures
            r matches Err(e) ==> e is NotOnABranch || e is NoRemoteForBranch || e is FetchFailed
                || e is TagMatchingFailed,
    {
        let info = match self.get_repository_information() {
            Ok(info) => info,
            Err(e) => {
                return Err(e);
            },
        };
        let walk = match revwalk_hexes(&self.repo, last_commit_hex) {
            Ok(walk) => walk,
            Err(WalkFailure::Push) => {
                return Err(GitError::FetchFailed("fetched commit is not on this branch".to_owned()));
            },
            Err(_) => {
                return Err(GitError::TagMatchingFailed);
            },
        };
        let names = match tag_names_matching(&self.repo, pattern) {
            Ok(names) => names,
            Err(_) => {
                return Err(GitError::TagMatchingFailed);
            },
        };
        let mut tag_commits: Vec<(String, String)> = Vec::new();
        let mut i: usize = 0;
        while i < names.len()
            decreases names@.len() - i,
        {
            let refname = "refs/tags/".to_owned().concat(names[i].as_str());
            match reference_target_hex(&self.repo, refname.as_str()) {
                Some(hex) => tag_commits.push((hex, names[i].clone())),
                None => {
                },
            }
            i = i + 1;
        }
        Ok(collect_matched_tags(&walk, info.commit_sha.as_str(), &tag_commits))
    }

    /// Fast-forwards the current branch to the given commit and checks it
    /// out, refusing to touch a dirty working tree.
    pub fn pull(&self, commit_hex: &str) -> (r: Result<(), GitError>)
        ensures
            r matches Err(e) ==> e is NotOnABranch || e is NoRemoteForBranch
                || e is DirtyWorkingTree || e is FailedSettingHead,
            r matches Err(e) ==> (e matches GitError::FailedSettingHead(s) ==> s@ == short_of(
                commit_hex@,
            )),
    {
        let info = match self.get_repository_information() {
            Ok(info) => info,
            Err(e) => {
                return Err(e);
            },
        };
        let clean = match statuses_empty(&self.repo, false) {
            Ok(clean) => clean,
            Err(_) => {
                return Err(GitError::DirtyWorkingTree);
            },
        };
        match pull_guard(clean) {
            Ok(()) => {
            },
            Err(e) => {
                return Err(e);
            },
        }
        let fetch_short = shorthash(commit_hex);
        let message = "Fast-Forward: Setting ".to_owned().concat(info.ref_name.as_str()).concat(
            " to id: ",
        ).concat(commit_hex);
        let mut branch_ref = match find_reference(&self.repo, info.ref_name.as_str()) {
            Ok(reference) => reference,
            Err(_) => {
                return Err(GitError::NotOnABranch);
            },
        };
        match reference_set_target(&mut branch_ref, commit_hex, message.as_str()) {
            Ok(()) => {
            },
            Err(_) => {
                return Err(GitError::FailedSettingHead(fetch_short));
            },
        }
        match repo_set_head(&self.repo, info.ref_name.as_str()) {
            Ok(()) => {
            },
            Err(_) => {
                return Err(GitError::FailedSettingHead(fetch_short));
            },
        }
        match checkout_head_force(&self.repo) {
            Ok(()) => Ok(()),
            Err(_) => Err(GitError::FailedSettingHead(fetch_short)),
        }
    }
}

/// The default private key files tried under `~/.ssh` when no key was
/// supplied.
fn default_key_names() -> (r: Vec<String>)
    ensures
        r@.len() == 6,
        r@[0]@ == ".ssh/id_dsa"@,
        r@[1]@ == ".ssh/id_ecdsa"@,
        r@[2]@ == ".ssh/id_ecdsa_sk"@,
        r@[3]@ == ".ssh/id_ed25519"@,
        r@[4]@ == ".ssh/id_ed25519_sk"@,
        r@[5]@ == ".ssh/id_rsa"@,
{
    let mut names: Vec<String> = Vec::new();
    names.push(".ssh/id_dsa".to_owned());
    names.push(".ssh/id_ecdsa".to_owned());
    names.push(".ssh/id_ecdsa_sk".to_owned());
    names.push(".ssh/id_ed25519".to_owned());
    names.push(".ssh/id_ed25519_sk".to_owned());
    names.push(".ssh/id_rsa".to_owned());
    names
}

/// The dirty working tree rule: a working tree with any status entry other
/// than ignored refuses the update, so that local changes are never
/// overwritten; nothing is moved on a refusal.
pub fn pull_guard(working_tree_clean: bool) -> (r: Result<(), GitError>)
    ensures
        working_tree_clean == (r is Ok),
        r matches Err(e) ==> e is DirtyWorkingTree,
{
    if working_tree_clean {
        Ok(())
    } else {
        Err(GitError::DirtyWorkingTree)
    }
}

/// The update decision over the merge analysis flags: only a fast-forward
/// reports an update, up-to-date reports none, anything else is a conflict.
pub fn classify_merge_analysis(is_fast_forward: bool, is_up_to_date: bool) -> (r: Result<
    bool,
    GitError,
>)
    ensures
        is_fast_forward ==> r == Ok::<bool, GitError>(true),
        !is_fast_forward && is_up_to_date ==> r == Ok::<bool, GitError>(false),
        !is_fast_forward && !is_up_to_date ==> (r matches Err(e) && e is MergeConflict),
{
    if is_fast_forward {
        Ok(true)
    } else if is_up_to_date {
        Ok(false)
    } else {
        Err(GitError::MergeConflict)
    }
}

} // verus!
