use vstd::prelude::*;

verus! {

#[verifier::external_type_specification]
#[verifier::external_body]
pub struct ExGitError(git2::Error);

#[verifier::external_type_specification]
#[verifier::external_body]
pub struct ExConfig(git2::Config);

#[verifier::external_type_specification]
#[verifier::external_body]
pub struct ExCred(git2::Cred);

/// Explicit credentials supplied by the caller: an SSH key path, or an
/// HTTPS username and token.
#[derive(Debug)]
pub enum CredentialAuth {
    Ssh(String),
    Https(String, String),
}

/// Relies on git2::Cred::username.
#[verifier::external_body]
fn cred_username(username: &str) -> Result<git2::Cred, git2::Error> {
    git2::Cred::username(username)
}

/// Relies on git2::Cred::ssh_key_from_agent.
#[verifier::external_body]
fn cred_ssh_from_agent(username: &str) -> Result<git2::Cred, git2::Error> {
    git2::Cred::ssh_key_from_agent(username)
}

/// Relies on git2::Cred::ssh_key: a key used without passphrase.
#[verifier::external_body]
fn cred_ssh_key(username: &str, key_path: &str) -> Result<git2::Cred, git2::Error> {
    git2::Cred::ssh_key(username, None, std::path::Path::new(key_path), None)
}

/// Relies on git2::Cred::userpass_plaintext.
#[verifier::external_body]
fn cred_userpass(username: &str, password: &str) -> Result<git2::Cred, git2::Error> {
    git2::Cred::userpass_plaintext(username, password)
}

/// Relies on git2::Cred::credential_helper: the credential configured with
/// `credential.helper` in the git configuration.
#[verifier::external_body]
fn cred_from_helper(cfg: &git2::Config, url: &str, username: Option<&String>) -> Result<
    git2::Cred,
    git2::Error,
> {
    git2::Cred::credential_helper(cfg, url, username.map(|u| u.as_str()))
}

/// Relies on git2::Cred::default.
#[verifier::external_body]
fn cred_default() -> Result<git2::Cred, git2::Error> {
    git2::Cred::default()
}

/// Relies on git2::Error::from_str: an error carrying the given message.
#[verifier::external_body]
fn git_error_of(message: &str) -> git2::Error {
    git2::Error::from_str(message)
}

/// A stateful picker of fetch credentials.
///
/// The fetch library keeps asking for credentials until it is given a reason
/// to stop, so every class of credential is attempted a bounded number of
/// times: the attempt counters only ever grow, and an exhausted class yields
/// an error.
pub struct CredentialHandler<'a> {
    pub username_attempts_count: usize,
    pub username_candidates: Vec<String>,
    pub ssh_attempts_count: usize,
    pub ssh_key_candidates: Vec<String>,
    pub cred_helper_bad: Option<bool>,
    pub https_attempted: bool,
    pub auth: Option<&'a CredentialAuth>,
    pub cfg: git2::Config,
}

impl<'a> CredentialHandler<'a> {
    /// The caller supplied explicit HTTPS credentials.
    pub open spec fn has_https_auth(self) -> bool {
        self.auth matches Some(a) && a is Https
    }

    /// Creates a handler over the git configuration, the caller's explicit
    /// credentials, and the SSH keys to try.
    pub fn new(cfg: git2::Config, auth: Option<&'a CredentialAuth>, ssh_key_candidates: Vec<String>)
        -> (r: CredentialHandler<'a>)
        ensures
            r.username_attempts_count == 0,
            r.ssh_attempts_count == 0,
            r.cred_helper_bad is None,
            !r.https_attempted,
            r.username_candidates@.len() == 1 && r.username_candidates@[0]@ == "git"@,
            r.ssh_key_candidates == ssh_key_candidates,
            r.auth == auth,
    {
        let mut username_candidates: Vec<String> = Vec::new();
        username_candidates.push("git".to_owned());
        CredentialHandler {
            username_attempts_count: 0,
            username_candidates,
            ssh_attempts_count: 0,
            ssh_key_candidates,
            cred_helper_bad: None,
            https_attempted: false,
            auth,
            cfg,
        }
    }

    /// Picks the next candidate credential given the allowed classes.
    ///
    /// Each class is single-pass: usernames are yielded in order and then
    /// exhausted; SSH tries the agent once and then each candidate key once;
    /// explicit HTTPS credentials are used once; the platform credential
    /// helper is asked exactly once, remembering failure; after all that only
    /// the default credential or a terminal failure remains.
    pub fn try_next_credential(
        &mut self,
        url: &str,
        username: Option<String>,
        allow_username: bool,
        allow_ssh: bool,
        allow_plaintext: bool,
        allow_default: bool,
    ) -> (r: Result<git2::Cred, git2::Error>)
        requires
            old(self).username_attempts_count < usize::MAX,
            old(self).ssh_attempts_count < usize::MAX,
        ensures
            allow_username ==> final(self).username_attempts_count == old(
                self,
            ).username_attempts_count + 1,
            allow_username && old(self).username_attempts_count >= old(
                self,
            ).username_candidates@.len() ==> r is Err,
            allow_username ==> final(self).ssh_attempts_count == old(self).ssh_attempts_count,
            !allow_username && allow_ssh ==> final(self).ssh_attempts_count == old(
                self,
            ).ssh_attempts_count + 1,
            !allow_username && allow_ssh && old(self).ssh_attempts_count >= 1 + old(
                self,
            ).ssh_key_candidates@.len() ==> r is Err,
            !allow_username && !allow_ssh ==> final(self).username_attempts_count == old(
                self,
            ).username_attempts_count && final(self).ssh_attempts_count == old(
                self,
            ).ssh_attempts_count,
            !allow_username && !allow_ssh && allow_plaintext && old(self).has_https_auth() && !old(
                self,
            ).https_attempted ==> final(self).https_attempted,
            !allow_username && !allow_ssh && allow_plaintext && !old(self).has_https_auth() && old(
                self,
            ).cred_helper_bad is None ==> final(self).cred_helper_bad is Some,
            !allow_username && !allow_ssh && !allow_plaintext && !allow_default ==> r is Err
                && *final(self) == *old(self),
            !allow_username && !allow_ssh && allow_plaintext && old(self).has_https_auth() && old(
                self,
            ).https_attempted && !allow_default ==> r is Err && *final(self) == *old(self),
            !allow_username && !allow_ssh && allow_plaintext && !old(self).has_https_auth() && old(
                self,
            ).cred_helper_bad is Some && !allow_default ==> r is Err && *final(self) == *old(self),
    {
        if allow_username {
            let idx = self.username_attempts_count;
            self.username_attempts_count = idx + 1;
            if idx < self.username_candidates.len() {
                return cred_username(self.username_candidates[idx].as_str());
            }
            return Err(git_error_of("no more username to try"));
        }
        if allow_ssh {
            self.ssh_attempts_count = self.ssh_attempts_count + 1;
            let user = match &username {
                Some(u) => u.clone(),
                None => "git".to_owned(),
            };
            if self.ssh_attempts_count == 1 {
                return cred_ssh_from_agent(user.as_str());
            }
            let candidate_idx = self.ssh_attempts_count - 2;
            if candidate_idx < self.ssh_key_candidates.len() {
                return cred_ssh_key(user.as_str(), self.ssh_key_candidates[candidate_idx].as_str());
            }
            return Err(git_error_of("failed authentication for repository"));
        }
        if allow_plaintext {
            let is_https = match self.auth {
                Some(CredentialAuth::Https(_, _)) => true,
                _ => false,
            };
            if is_https {
                if !self.https_attempted {
                    self.https_attempted = true;
                    match self.auth {
                        Some(CredentialAuth::Https(user, token)) => {
                            return cred_userpass(user.as_str(), token.as_str());
                        },
                        _ => {
                        },
                    }
                }
            } else if self.cred_helper_bad.is_none() {
                let r = cred_from_helper(&self.cfg, url, username.as_ref());
                self.cred_helper_bad = Some(r.is_err());
                return r;
            }
        }
        if allow_default {
            return cred_default();
        }
        Err(git_error_of("no valid authentication available"))
    }
}

} // verus!
