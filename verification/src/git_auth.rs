//! Git authentication: rules a credential payload must meet, and the opening
//! of a stored credential into what the git transport is handed.

use vstd::prelude::*;

use crate::credentials::{open_failure, opened_secret, CredentialCipher, CredentialError};
use crate::config::AppConfig;
use crate::models::{GitAuthType, GitCredential, GitPlatform, GitRepo};
use crate::text::is_blank;

verus! {

/// What the git transport authenticates with.
#[derive(Debug, Clone, PartialEq, Eq)]
pub enum ResolvedGitAuth {
    Token { username: String, token: String },
    Basic { username: String, password: String },
    Ssh { username: String, key_path: String },
}

/// Why a credential payload is refused or a stored credential cannot be used.
#[derive(Debug, Clone, PartialEq, Eq)]
pub enum GitAuthError {
    TokenRequired,
    UsernameRequired,
    PasswordRequired,
    SshKeyPathRequired,
    CredentialNotFound(i64),
    MissingToken,
    MissingUsername,
    MissingPassword,
    MissingSshKeyPath,
    Credential(CredentialError),
}

pub open spec fn git_auth_error_message(e: GitAuthError) -> Seq<char> {
    match e {
        GitAuthError::TokenRequired => "token auth requires token"@,
        GitAuthError::UsernameRequired => "basic auth requires username"@,
        GitAuthError::PasswordRequired => "basic auth requires password"@,
        GitAuthError::SshKeyPathRequired => "ssh auth requires ssh_key_path"@,
        GitAuthError::CredentialNotFound(id) => "git credential "@ + crate::text::signed_decimal(id as int) + " not found"@,
        GitAuthError::MissingToken => "git token credential is missing token"@,
        GitAuthError::MissingUsername => "git basic credential is missing username"@,
        GitAuthError::MissingPassword => "git basic credential is missing password"@,
        GitAuthError::MissingSshKeyPath => "git ssh credential is missing ssh_key_path"@,
        GitAuthError::Credential(c) => crate::credentials::credential_error_message(c),
    }
}

impl GitAuthError {
    /// The error as it is reported.
    pub fn message(&self) -> (r: String)
        ensures
            r@ == git_auth_error_message(*self),
    {
        match self {
            GitAuthError::TokenRequired => "token auth requires token".to_owned(),
            GitAuthError::UsernameRequired => "basic auth requires username".to_owned(),
            GitAuthError::PasswordRequired => "basic auth requires password".to_owned(),
            GitAuthError::SshKeyPathRequired => "ssh auth requires ssh_key_path".to_owned(),
            GitAuthError::CredentialNotFound(id) => {
                let n = crate::text::signed_decimal_string(*id);
                crate::text::concat3("git credential ", n.as_str(), " not found")
            },
            GitAuthError::MissingToken => "git token credential is missing token".to_owned(),
            GitAuthError::MissingUsername => "git basic credential is missing username".to_owned(),
            GitAuthError::MissingPassword => "git basic credential is missing password".to_owned(),
            GitAuthError::MissingSshKeyPath => "git ssh credential is missing ssh_key_path".to_owned(),
            GitAuthError::Credential(c) => c.message(),
        }
    }
}

/// The value if it is present and not blank.
pub open spec fn nonblank(v: Option<Seq<char>>) -> Option<Seq<char>> {
    match v {
        Some(s) => if is_blank(s) { None } else { Some(s) },
        None => None,
    }
}

pub open spec fn opt_view(v: Option<String>) -> Option<Seq<char>> {
    match v {
        Some(s) => Some(s@),
        None => None,
    }
}

pub open spec fn opt_str_view(v: Option<&str>) -> Option<Seq<char>> {
    match v {
        Some(s) => Some(s@),
        None => None,
    }
}

/// The required fields of a credential payload that are missing or blank, in
/// the order they are checked.
pub open spec fn payload_problem(
    auth_type: GitAuthType,
    username: Option<Seq<char>>,
    token: Option<Seq<char>>,
    password: Option<Seq<char>>,
    ssh_key_path: Option<Seq<char>>,
) -> Option<GitAuthError> {
    match auth_type {
        GitAuthType::Token => if nonblank(token) is None { Some(GitAuthError::TokenRequired) } else { None },
        GitAuthType::Basic => {
            if nonblank(username) is None {
                Some(GitAuthError::UsernameRequired)
            } else if nonblank(password) is None {
                Some(GitAuthError::PasswordRequired)
            } else {
                None
            }
        },
        GitAuthType::Ssh => if nonblank(ssh_key_path) is None { Some(GitAuthError::SshKeyPathRequired) } else { None },
    }
}

/// The value if it is present and not blank.
fn nonblank_str(v: Option<&str>) -> (r: bool)
    ensures
        r == (nonblank(opt_str_view(v)) is Some),
{
    match v {
        Some(s) => !crate::text::blank(s),
        None => false,
    }
}

/// Checks that a credential payload carries what its authentication type needs:
/// a token, a username and a password, or an SSH key path.
pub fn validate_git_credential_payload(
    auth_type: GitAuthType,
    platform: GitPlatform,
    username: Option<&str>,
    token: Option<&str>,
    password: Option<&str>,
    ssh_key_path: Option<&str>,
) -> (r: Result<(), GitAuthError>)
    ensures
        match payload_problem(
            auth_type,
            opt_str_view(username),
            opt_str_view(token),
            opt_str_view(password),
            opt_str_view(ssh_key_path),
        ) {
            Some(e) => r == Err::<(), GitAuthError>(e),
            None => r is Ok,
        },
{
    match auth_type {
        GitAuthType::Token => {
            if !nonblank_str(token) {
                return Err(GitAuthError::TokenRequired);
            }
        },
        GitAuthType::Basic => {
            if !nonblank_str(username) {
                return Err(GitAuthError::UsernameRequired);
            }
            if !nonblank_str(password) {
                return Err(GitAuthError::PasswordRequired);
            }
        },
        GitAuthType::Ssh => {
            if !nonblank_str(ssh_key_path) {
                return Err(GitAuthError::SshKeyPathRequired);
            }
        },
    }
    Ok(())
}

pub open spec fn token_username(platform: GitPlatform) -> Seq<char> {
    match platform {
        GitPlatform::Github => "x-access-token"@,
        _ => "oauth2"@,
    }
}

/// The username a token is sent with when the credential names none.
pub fn default_token_username(platform: GitPlatform) -> (r: &'static str)
    ensures
        r@ == token_username(platform),
{
    match platform {
        GitPlatform::Github => "x-access-token",
        GitPlatform::Gitlab | GitPlatform::Gitee | GitPlatform::Other => "oauth2",
    }
}

/// The present, non-blank value of an optional string.
fn nonblank_string(v: Option<String>) -> (r: Option<String>)
    ensures
        opt_view(r) == nonblank(opt_view(v)),
{
    match v {
        Some(s) => if crate::text::blank(s.as_str()) { None } else { Some(s) },
        None => None,
    }
}

/// What a stored credential opens to under `key`: the resolved authentication
/// with secrets opened, or the reason it cannot be used.
pub open spec fn opened_auth_ok(key: Seq<u8>, c: GitCredential, auth: ResolvedGitAuth) -> bool {
    match c.auth_type {
        GitAuthType::Token => {
            &&& c.token matches Some(t)
            &&& auth matches ResolvedGitAuth::Token { username, token }
            &&& opened_secret(key, t@) == Some(token@)
            &&& username@ == match nonblank(opt_view(c.username)) {
                Some(u) => u,
                None => token_username(c.platform),
            }
        },
        GitAuthType::Basic => {
            &&& nonblank(opt_view(c.username)) matches Some(u)
            &&& c.password matches Some(p)
            &&& auth matches ResolvedGitAuth::Basic { username, password }
            &&& username@ == u
            &&& opened_secret(key, p@) == Some(password@)
        },
        GitAuthType::Ssh => {
            &&& nonblank(opt_view(c.ssh_key_path)) matches Some(k)
            &&& auth matches ResolvedGitAuth::Ssh { username, key_path }
            &&& key_path@ == k
            &&& username@ == match nonblank(opt_view(c.username)) {
                Some(u) => u,
                None => "git"@,
            }
        },
    }
}

/// The reason a stored credential cannot be opened under `key`, if any.
pub open spec fn opened_auth_problem(key: Seq<u8>, c: GitCredential) -> Option<GitAuthError> {
    match c.auth_type {
        GitAuthType::Token => match c.token {
            None => Some(GitAuthError::MissingToken),
            Some(t) => if opened_secret(key, t@) is None { Some(GitAuthError::Credential(open_failure(key, t@))) } else { None },
        },
        GitAuthType::Basic => {
            if nonblank(opt_view(c.username)) is None {
                Some(GitAuthError::MissingUsername)
            } else {
                match c.password {
                    None => Some(GitAuthError::MissingPassword),
                    Some(p) => if opened_secret(key, p@) is None { Some(GitAuthError::Credential(open_failure(key, p@))) } else { None },
                }
            }
        },
        GitAuthType::Ssh => if nonblank(opt_view(c.ssh_key_path)) is None { Some(GitAuthError::MissingSshKeyPath) } else { None },
    }
}

/// The user name a stored credential carries when it is set and not blank.
pub open spec fn given_username(c: GitCredential) -> Option<Seq<char>> {
    match c.username {
        Some(u) => if is_blank(u@) { None } else { Some(u@) },
        None => None,
    }
}

/// What an opened credential is, by its type: an SSH credential goes as its
/// key path with the given user name or else `git`, whatever the platform;
/// a token goes with the given user name or else `x-access-token` on GitHub
/// and `oauth2` elsewhere; basic authentication goes with the given user
/// name and the opened password.
pub proof fn lemma_opened_auth_usernames(key: Seq<u8>, c: GitCredential, auth: ResolvedGitAuth)
    requires
        opened_auth_ok(key, c, auth),
    ensures
        c.auth_type == GitAuthType::Ssh ==> match auth {
            ResolvedGitAuth::Ssh { username, key_path } => {
                &&& username@ == (match given_username(c) { Some(u) => u, None => seq!['g', 'i', 't'] })
                &&& match c.ssh_key_path { Some(k) => key_path@ == k@ && !is_blank(k@), None => false }
            },
            _ => false,
        },
        c.auth_type == GitAuthType::Token ==> match auth {
            ResolvedGitAuth::Token { username, token } => {
                &&& username@ == (match given_username(c) {
                    Some(u) => u,
                    None => if c.platform == GitPlatform::Github { seq!['x', '-', 'a', 'c', 'c', 'e', 's', 's', '-', 't', 'o', 'k', 'e', 'n'] } else { seq!['o', 'a', 'u', 't', 'h', '2'] },
                })
                &&& match c.token { Some(t) => opened_secret(key, t@) == Some(token@), None => false }
            },
            _ => false,
        },
        c.auth_type == GitAuthType::Basic ==> match auth {
            ResolvedGitAuth::Basic { username, password } => {
                &&& given_username(c) == Some(username@)
                &&& match c.password { Some(p) => opened_secret(key, p@) == Some(password@), None => false }
            },
            _ => false,
        },
{
    reveal_strlit("git");
    reveal_strlit("x-access-token");
    reveal_strlit("oauth2");
    assert("git"@ =~= seq!['g', 'i', 't']);
    assert("x-access-token"@ =~= seq!['x', '-', 'a', 'c', 'c', 'e', 's', 's', '-', 't', 'o', 'k', 'e', 'n']);
    assert("oauth2"@ =~= seq!['o', 'a', 'u', 't', 'h', '2']);
}

/// Opens a stored credential: secrets are decrypted, a token without username
/// gets the platform's default one, an SSH key without username gets `git`.
pub fn decrypt_git_credential(cipher: &CredentialCipher, credential: GitCredential) -> (r: Result<ResolvedGitAuth, GitAuthError>)
    ensures
        match r {
            Ok(auth) => opened_auth_problem(cipher.key(), credential) is None
                && opened_auth_ok(cipher.key(), credential, auth),
            Err(e) => opened_auth_problem(cipher.key(), credential) == Some(e),
        },
        (credential.auth_type == GitAuthType::Ssh && given_username(credential) is None && r is Ok) ==> match r {
            Ok(ResolvedGitAuth::Ssh { username, key_path: _ }) => username@ == seq!['g', 'i', 't'],
            _ => false,
        },
{
    let ghost c = credential;
    match credential.auth_type {
        GitAuthType::Token => {
            let sealed = match credential.token {
                Some(t) => t,
                None => return Err(GitAuthError::MissingToken),
            };
            let token = match cipher.decrypt(sealed.as_str()) {
                Ok(p) => p,
                Err(e) => return Err(GitAuthError::Credential(e)),
            };
            let username = match nonblank_string(credential.username) {
                Some(u) => u,
                None => default_token_username(credential.platform).to_owned(),
            };
            Ok(ResolvedGitAuth::Token { username, token })
        },
        GitAuthType::Basic => {
            let username = match nonblank_string(credential.username) {
                Some(u) => u,
                None => return Err(GitAuthError::MissingUsername),
            };
            let sealed = match credential.password {
                Some(p) => p,
                None => return Err(GitAuthError::MissingPassword),
            };
            let password = match cipher.decrypt(sealed.as_str()) {
                Ok(p) => p,
                Err(e) => return Err(GitAuthError::Credential(e)),
            };
            Ok(ResolvedGitAuth::Basic { username, password })
        },
        GitAuthType::Ssh => {
            let key_path = match nonblank_string(credential.ssh_key_path) {
                Some(k) => k,
                None => return Err(GitAuthError::MissingSshKeyPath),
            };
            let username = match nonblank_string(credential.username) {
                Some(u) => u,
                None => "git".to_owned(),
            };
            proof {
                reveal_strlit("git");
                assert("git"@ =~= seq!['g', 'i', 't']);
            }
            Ok(ResolvedGitAuth::Ssh { username, key_path })
        },
    }
}

/// The first credential with the given id.
pub open spec fn find_credential(cs: Seq<GitCredential>, id: i64) -> Option<GitCredential>
    decreases cs.len(),
{
    if cs.len() == 0 {
        None
    } else {
        match find_credential(cs.drop_last(), id) {
            Some(c) => Some(c),
            None => if cs.last().id == id { Some(cs.last()) } else { None },
        }
    }
}

/// Whether `r` is what resolving the authentication of `repo` gives, with the
/// stored credentials `cs` and the configured key text `key_hex`: nothing
/// when the repository names no credential; an error when the credential is
/// missing or the key is unusable; otherwise the credential opened with the key.
pub open spec fn repo_auth_outcome(
    key_hex: Seq<char>,
    repo: GitRepo,
    cs: Seq<GitCredential>,
    r: Result<Option<ResolvedGitAuth>, GitAuthError>,
) -> bool {
    match repo.credential_id {
        None => r == Ok::<Option<ResolvedGitAuth>, GitAuthError>(None),
        Some(id) => match find_credential(cs, id) {
            None => r == Err::<Option<ResolvedGitAuth>, GitAuthError>(GitAuthError::CredentialNotFound(id)),
            Some(c) => match crate::credentials::hex_decoded(crate::text::trim(key_hex)) {
                None => r == Err::<Option<ResolvedGitAuth>, GitAuthError>(
                    GitAuthError::Credential(CredentialError::InvalidKeyHex),
                ),
                Some(k) => if k.len() != 32 {
                    r == Err::<Option<ResolvedGitAuth>, GitAuthError>(
                        GitAuthError::Credential(CredentialError::InvalidKeyLength),
                    )
                } else {
                    match r {
                        Ok(Some(auth)) => opened_auth_problem(k, c) is None && opened_auth_ok(k, c, auth),
                        Ok(None) => false,
                        Err(e) => opened_auth_problem(k, c) == Some(e),
                    }
                },
            },
        },
    }
}

proof fn lemma_find_credential_prefix(cs: Seq<GitCredential>, id: i64, k: int)
    requires
        0 <= k <= cs.len(),
        find_credential(cs.take(k), id) is Some,
    ensures
        find_credential(cs, id) == find_credential(cs.take(k), id),
    decreases cs.len() - k,
{
    if k < cs.len() {
        assert(cs.take(k + 1).drop_last() =~= cs.take(k));
        lemma_find_credential_prefix(cs, id, k + 1);
    } else {
        assert(cs.take(k) =~= cs);
    }
}

fn find_credential_in(credentials: &Vec<GitCredential>, id: i64) -> (r: Option<GitCredential>)
    ensures
        r == find_credential(credentials@, id),
{
    let mut i: usize = 0;
    while i < credentials.len()
        invariant
            i <= credentials.len(),
            find_credential(credentials@.take(i as int), id) is None,
        decreases credentials.len() - i,
    {
        proof {
            assert(credentials@.take(i + 1).drop_last() =~= credentials@.take(i as int));
        }
        if credentials[i].id == id {
            let c = credentials[i].copied();
            proof {
                assert(credentials@.take(i + 1).last() == credentials@[i as int]);
                lemma_find_credential_prefix(credentials@, id, i + 1);
            }
            return Some(c);
        }
        i = i + 1;
    }
    assert(credentials@.take(credentials.len() as int) =~= credentials@);
    None
}

/// The authentication of a repository, from the stored credentials and the
/// configured key.
pub fn resolve_repo_auth(
    config: &AppConfig,
    repo: &GitRepo,
    credentials: &Vec<GitCredential>,
) -> (r: Result<Option<ResolvedGitAuth>, GitAuthError>)
    ensures
        repo_auth_outcome(config.credentials.encryption_key@, *repo, credentials@, r),
{
    let credential_id = match repo.credential_id {
        Some(id) => id,
        None => return Ok(None),
    };
    let credential = match find_credential_in(credentials, credential_id) {
        Some(c) => c,
        None => return Err(GitAuthError::CredentialNotFound(credential_id)),
    };
    let cipher = match CredentialCipher::from_hex_key(config.credentials.encryption_key.as_str()) {
        Ok(c) => c,
        Err(e) => return Err(GitAuthError::Credential(e)),
    };
    let auth = decrypt_git_credential(&cipher, credential)?;
    Ok(Some(auth))
}

/// The authentication of the repository checked out at a local path;
/// `repo` is the repository stored under that path, if any.
pub fn resolve_repo_auth_by_local_path(
    config: &AppConfig,
    repo: Option<GitRepo>,
    credentials: &Vec<GitCredential>,
) -> (r: Result<Option<ResolvedGitAuth>, GitAuthError>)
    ensures
        match repo {
            None => r == Ok::<Option<ResolvedGitAuth>, GitAuthError>(None),
            Some(g) => repo_auth_outcome(config.credentials.encryption_key@, g, credentials@, r),
        },
{
    match repo {
        Some(g) => resolve_repo_auth(config, &g, credentials),
        None => Ok(None),
    }
}

/// The authentication of a repository found by local path, or else by URL;
/// `by_path` and `by_url` are the repositories stored under them, if any.
pub fn resolve_repo_auth_by_url_or_path(
    config: &AppConfig,
    by_path: Option<GitRepo>,
    by_url: Option<GitRepo>,
    credentials: &Vec<GitCredential>,
) -> (r: Result<Option<ResolvedGitAuth>, GitAuthError>)
    ensures
        match (by_path, by_url) {
            (Some(g), _) => repo_auth_outcome(config.credentials.encryption_key@, g, credentials@, r),
            (None, Some(g)) => repo_auth_outcome(config.credentials.encryption_key@, g, credentials@, r),
            (None, None) => r == Ok::<Option<ResolvedGitAuth>, GitAuthError>(None),
        },
{
    let repo = match by_path {
        Some(g) => Some(g),
        None => by_url,
    };
    match repo {
        Some(g) => resolve_repo_auth(config, &g, credentials),
        None => Ok(None),
    }
}

/// Name of the authentication mode, as written to the logs.
pub open spec fn auth_mode_name(auth: Option<ResolvedGitAuth>) -> Seq<char> {
    match auth {
        Some(ResolvedGitAuth::Token { .. }) => "token"@,
        Some(ResolvedGitAuth::Basic { .. }) => "basic"@,
        Some(ResolvedGitAuth::Ssh { .. }) => "ssh"@,
        None => "credential-helper"@,
    }
}

/// The authentication mode used for a git operation.
pub fn auth_mode_label(auth: Option<&ResolvedGitAuth>) -> (r: &'static str)
    ensures
        r@ == auth_mode_name(match auth { Some(a) => Some(*a), None => None }),
{
    match auth {
        Some(ResolvedGitAuth::Token { .. }) => "token",
        Some(ResolvedGitAuth::Basic { .. }) => "basic",
        Some(ResolvedGitAuth::Ssh { .. }) => "ssh",
        None => "credential-helper",
    }
}

} // verus!
