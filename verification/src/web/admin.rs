//! The administration endpoints: what each request must satisfy, how
//! credential payloads are normalised, checked and sealed, and how stored
//! records are shown.

use vstd::prelude::*;
use vstd::utf8::encode_utf8;

use crate::credentials::{hex_decoded, opened_secret, CredentialCipher, CredentialError, AES_GCM_MAX_PLAINTEXT};
use crate::git_auth::{opt_view, payload_problem, git_auth_error_message};
use crate::models::{
    model_error_message, parse_git_auth_type, parse_git_platform, GitAuthType, GitCredential, GitPlatform, ModelError,
    NewGitCredential, UpdateGitCredential, TaskType,
};
use crate::text::{is_blank, trim};
use crate::cron::{cron_error_message, next_fire, CronError};
use crate::models::{
    definition_status_name, git_auth_type_name, git_platform_name, task_status_name, task_type_name, GitRepo, Task,
    TaskDefinition, TaskRun, TaskRunStats, User,
};
use crate::mcp::{GitCloneOutput, GitPullOutput};
use crate::time::{rfc3339_instant, rfc3339_of};
use crate::web::{ApiError, BAD_REQUEST, INTERNAL_SERVER_ERROR, NOT_FOUND};

verus! {

/// Figures of the dashboard.
#[derive(Debug, Clone)]
pub struct AdminDashboardResponse {
    pub repo_count: i64,
    pub task_count: i64,
    pub user_count: i64,
    pub today_executed_count: i64,
    pub recent_runs: Vec<AdminTaskRunResponse>,
}

/// A page of task definitions.
#[derive(Debug, Clone)]
pub struct AdminTaskListResponse {
    pub total: i64,
    pub page: usize,
    pub page_size: usize,
    pub items: Vec<AdminTaskResponse>,
}

/// What a repository synchronisation did.
#[derive(Debug, Clone, PartialEq, Eq)]
pub struct RepoSyncResponse {
    pub action: String,
    pub branch: String,
    pub updated: bool,
    pub head: Option<String>,
}

/// A repository as shown.
#[derive(Debug, Clone)]
pub struct AdminRepoResponse {
    pub id: i64,
    pub name: String,
    pub repo_url: String,
    pub branch: String,
    pub local_path: String,
    pub review_cron: Option<String>,
    pub credential_id: Option<i64>,
    pub credential_name: Option<String>,
    pub last_commit: Option<String>,
    pub enabled: bool,
    pub created_at: String,
    pub updated_at: String,
}

/// A credential as shown: secrets only as whether they are set.
#[derive(Debug, Clone)]
pub struct AdminCredentialResponse {
    pub id: i64,
    pub name: String,
    pub platform: String,
    pub auth_type: String,
    pub username: Option<String>,
    pub ssh_key_path: Option<String>,
    pub has_token: bool,
    pub has_password: bool,
    pub created_at: String,
    pub updated_at: String,
}

/// A user as shown.
#[derive(Debug, Clone)]
pub struct AdminUserResponse {
    pub id: i64,
    pub email: String,
    pub display_name: String,
    pub avatar_url: Option<String>,
    pub activated_at: Option<String>,
    pub created_at: String,
    pub updated_at: String,
}

/// A task definition as shown, with its run figures.
#[derive(Debug, Clone)]
pub struct AdminTaskResponse {
    pub id: i64,
    pub name: String,
    pub task_type: String,
    pub repo_id: Option<i64>,
    pub repo_name: Option<String>,
    pub prompt: String,
    pub cron_expr: Option<String>,
    pub status: String,
    pub last_run_at: Option<String>,
    pub last_run_status: Option<String>,
    pub next_run_at: Option<String>,
    pub total_runs: i64,
    pub created_at: String,
    pub updated_at: String,
}

/// A task run as shown.
#[derive(Debug, Clone)]
pub struct AdminTaskRunResponse {
    pub id: i64,
    pub task_id: i64,
    pub task_name: String,
    pub repo_name: Option<String>,
    pub scheduled_at: String,
    pub started_at: Option<String>,
    pub finished_at: Option<String>,
    pub status: String,
    pub result: Option<String>,
    pub log: Option<String>,
    pub retry_count: i64,
    pub created_at: String,
}

/// A page of task runs.
#[derive(Debug, Clone)]
pub struct AdminTaskRunListResponse {
    pub total: i64,
    pub page: usize,
    pub page_size: usize,
    pub items: Vec<AdminTaskRunResponse>,
}

/// A repository to register.
#[derive(Debug, Clone)]
pub struct CreateRepoRequest {
    pub name: String,
    pub repo_url: String,
    pub branch: String,
    pub local_path: String,
    pub review_cron: Option<String>,
    pub credential_id: Option<i64>,
    pub enabled: bool,
}

/// New values of a repository.
#[derive(Debug, Clone)]
pub struct UpdateRepoRequest {
    pub name: String,
    pub repo_url: String,
    pub branch: String,
    pub local_path: String,
    pub review_cron: Option<String>,
    pub credential_id: Option<i64>,
    pub enabled: bool,
}

/// A credential to store; secrets in the clear.
#[derive(Debug, Clone)]
pub struct CreateCredentialRequest {
    pub name: String,
    pub platform: String,
    pub auth_type: String,
    pub token: Option<String>,
    pub username: Option<String>,
    pub password: Option<String>,
    pub ssh_key_path: Option<String>,
}

/// New values of a credential; a secret left out keeps the stored one.
#[derive(Debug, Clone)]
pub struct UpdateCredentialRequest {
    pub name: String,
    pub platform: String,
    pub auth_type: String,
    pub token: Option<String>,
    pub username: Option<String>,
    pub password: Option<String>,
    pub ssh_key_path: Option<String>,
}

/// A user to create.
#[derive(Debug, Clone)]
pub struct CreateUserRequest {
    pub email: String,
    pub display_name: String,
}

/// New values of a user.
#[derive(Debug, Clone)]
pub struct UpdateUserRequest {
    pub email: String,
    pub display_name: String,
}

/// A task to create.
#[derive(Debug, Clone)]
pub struct CreateTaskRequest {
    pub name: String,
    pub task_type: String,
    pub repo_id: Option<i64>,
    pub prompt: String,
    pub cron_expr: Option<String>,
    pub scheduled_at: Option<String>,
}

/// New values of a task.
#[derive(Debug, Clone)]
pub struct UpdateTaskRequest {
    pub name: String,
    pub task_type: String,
    pub repo_id: Option<i64>,
    pub prompt: String,
    pub cron_expr: Option<String>,
    pub scheduled_at: Option<String>,
}

/// Filters and page of the task list.
#[derive(Debug, Clone)]
pub struct ListTasksQuery {
    pub status: Option<String>,
    pub task_type: Option<String>,
    pub page: usize,
    pub page_size: usize,
}

/// Page of the runs of one task.
#[derive(Debug, Clone)]
pub struct ListTaskRunsQuery {
    pub page: usize,
    pub page_size: usize,
}

/// Filters and page of the run list.
#[derive(Debug, Clone)]
pub struct ListRunsQuery {
    pub status: Option<String>,
    pub task_id: Option<i64>,
    pub page: usize,
    pub page_size: usize,
}

/// A repository is enabled unless the request says otherwise.
pub fn default_true() -> (r: bool)
    ensures
        r,
{
    true
}

/// The branch of a repository registered without one.
pub fn default_branch() -> (r: String)
    ensures
        r@ == "main"@,
{
    "main".to_owned()
}

/// An optional text field as stored: trimmed, and absent when blank.
pub open spec fn normalized(v: Option<Seq<char>>) -> Option<Seq<char>> {
    match v {
        Some(s) => if is_blank(s) { None } else { Some(trim(s)) },
        None => None,
    }
}

/// Normalises an optional text field.
pub fn normalize_optional(value: Option<String>) -> (r: Option<String>)
    ensures
        opt_view(r) == normalized(opt_view(value)),
{
    match value {
        Some(v) => {
            let t = crate::text::trimmed(v.as_str());
            if crate::text::blank(v.as_str()) {
                None
            } else {
                Some(t)
            }
        },
        None => None,
    }
}

/// A request error carrying the message of a rejected name.
pub fn bad_request_from(error: &ModelError) -> (r: ApiError)
    ensures
        r.status == BAD_REQUEST,
        r.message@ == model_error_message(*error),
{
    let m = error.message();
    ApiError { status: BAD_REQUEST, message: m }
}

/// Reads a platform name, surrounding whitespace ignored.
pub fn parse_platform(input: &str) -> (r: Result<GitPlatform, ApiError>)
    ensures
        match parse_git_platform(trim(input@)) {
            Some(p) => r == Ok::<GitPlatform, ApiError>(p),
            None => r matches Err(e) && e.status == BAD_REQUEST
                && e.message@ == "unsupported git platform: "@ + trim(input@),
        },
{
    let t = crate::text::trimmed(input);
    match GitPlatform::from_db(t.as_str()) {
        Ok(p) => Ok(p),
        Err(e) => Err(bad_request_from(&e)),
    }
}

/// Reads an authentication type name, surrounding whitespace ignored.
pub fn parse_auth_type(input: &str) -> (r: Result<GitAuthType, ApiError>)
    ensures
        match parse_git_auth_type(trim(input@)) {
            Some(a) => r == Ok::<GitAuthType, ApiError>(a),
            None => r matches Err(e) && e.status == BAD_REQUEST
                && e.message@ == "unsupported git auth type: "@ + trim(input@),
        },
{
    let t = crate::text::trimmed(input);
    match GitAuthType::from_db(t.as_str()) {
        Ok(a) => Ok(a),
        Err(e) => Err(bad_request_from(&e)),
    }
}

/// The key that a configured key text gives, when it is usable.
pub open spec fn usable_key(key_hex: Seq<char>) -> Option<Seq<u8>> {
    match hex_decoded(trim(key_hex)) {
        Some(k) => if k.len() == 32 { Some(k) } else { None },
        None => None,
    }
}

/// Why a configured key text is unusable.
pub open spec fn key_problem(key_hex: Seq<char>) -> CredentialError {
    if hex_decoded(trim(key_hex)) is None {
        CredentialError::InvalidKeyHex
    } else {
        CredentialError::InvalidKeyLength
    }
}

/// The error answers that come before any secret is sealed: a bad platform
/// or authentication type (400), then an unusable key (500).
pub open spec fn payload_setup_error(key_hex: Seq<char>, platform: Seq<char>, auth_type: Seq<char>) -> Option<(u16, Seq<char>)> {
    if parse_git_platform(trim(platform)) is None {
        Some((BAD_REQUEST, "unsupported git platform: "@ + trim(platform)))
    } else if parse_git_auth_type(trim(auth_type)) is None {
        Some((BAD_REQUEST, "unsupported git auth type: "@ + trim(auth_type)))
    } else if usable_key(key_hex) is None {
        Some((INTERNAL_SERVER_ERROR, crate::credentials::credential_error_message(key_problem(key_hex))))
    } else {
        None
    }
}

/// `out` holds `input` sealed under `k`.
pub open spec fn seals(k: Seq<u8>, input: Seq<char>, out: Option<String>) -> bool {
    match out {
        Some(t) => opened_secret(k, t@) == Some(input) && !is_blank(t@),
        None => false,
    }
}

/// A failure to seal a secret.
pub open spec fn is_seal_failure(e: ApiError) -> bool {
    e.status == INTERNAL_SERVER_ERROR && e.message@ == "failed to encrypt credential secret"@
}

/// A secret too long to be sealed: its UTF-8 encoding exceeds what AES-GCM accepts.
pub open spec fn too_long_to_seal(secret: Seq<char>) -> bool {
    encode_utf8(secret).len() > AES_GCM_MAX_PLAINTEXT
}

/// The secret a request brings for its authentication type is too long to be sealed.
pub open spec fn secret_too_long(token: Option<Seq<char>>, password: Option<Seq<char>>, a: GitAuthType) -> bool {
    match a {
        GitAuthType::Token => token matches Some(t) && too_long_to_seal(t),
        GitAuthType::Basic => password matches Some(pw) && too_long_to_seal(pw),
        GitAuthType::Ssh => false,
    }
}

fn opt_str(v: &Option<String>) -> (r: Option<&str>)
    ensures
        crate::git_auth::opt_str_view(r) == opt_view(*v),
{
    match v {
        Some(s) => Some(s.as_str()),
        None => None,
    }
}

fn seal(cipher: &CredentialCipher, plaintext: &str) -> (r: Result<String, ApiError>)
    ensures
        match r {
            Ok(t) => opened_secret(cipher.key(), t@) == Some(plaintext@) && !is_blank(t@),
            Err(e) => is_seal_failure(e) && too_long_to_seal(plaintext@),
        },
{
    match cipher.encrypt(plaintext) {
        Ok(t) => Ok(t),
        Err(e) => Err(ApiError { status: INTERNAL_SERVER_ERROR, message: e.message() }),
    }
}

fn cipher_for(key_hex: &str) -> (r: Result<CredentialCipher, ApiError>)
    ensures
        match r {
            Ok(c) => usable_key(key_hex@) == Some(c.key()),
            Err(e) => usable_key(key_hex@) is None && e.status == INTERNAL_SERVER_ERROR
                && e.message@ == crate::credentials::credential_error_message(key_problem(key_hex@)),
        },
{
    match CredentialCipher::from_hex_key(key_hex) {
        Ok(c) => Ok(c),
        Err(e) => Err(ApiError { status: INTERNAL_SERVER_ERROR, message: e.message() }),
    }
}

/// Whether `c` is the credential stored for the creation request `req`:
/// optional fields normalised, and only the secret of its type kept, sealed.
pub open spec fn new_credential_fits(k: Seq<u8>, req: CreateCredentialRequest, p: GitPlatform, a: GitAuthType, c: NewGitCredential) -> bool {
    &&& c.name == req.name
    &&& c.platform == p
    &&& c.auth_type == a
    &&& opt_view(c.username) == normalized(opt_view(req.username))
    &&& match a {
        GitAuthType::Token => match normalized(opt_view(req.token)) {
            Some(t) => seals(k, t, c.token) && c.password is None && c.ssh_key_path is None,
            None => false,
        },
        GitAuthType::Basic => match normalized(opt_view(req.password)) {
            Some(pw) => c.token is None && seals(k, pw, c.password) && c.ssh_key_path is None,
            None => false,
        },
        GitAuthType::Ssh => c.token is None && c.password is None
            && opt_view(c.ssh_key_path) == normalized(opt_view(req.ssh_key_path)),
    }
}

/// What is missing from a creation request for its authentication type.
pub open spec fn new_credential_problem(req: CreateCredentialRequest, a: GitAuthType) -> Option<crate::git_auth::GitAuthError> {
    payload_problem(
        a,
        normalized(opt_view(req.username)),
        normalized(opt_view(req.token)),
        normalized(opt_view(req.password)),
        normalized(opt_view(req.ssh_key_path)),
    )
}

/// The credential to store for a creation request, under the configured key.
pub fn build_new_credential_payload(encryption_key: &str, request: CreateCredentialRequest) -> (r: Result<NewGitCredential, ApiError>)
    ensures
        match payload_setup_error(encryption_key@, request.platform@, request.auth_type@) {
            Some((status, message)) => r matches Err(e) && e.status == status && e.message@ == message,
            None => {
                let p = parse_git_platform(trim(request.platform@)).unwrap();
                let a = parse_git_auth_type(trim(request.auth_type@)).unwrap();
                let k = usable_key(encryption_key@).unwrap();
                match new_credential_problem(request, a) {
                    Some(pe) => r matches Err(e) && e.status == BAD_REQUEST && e.message@ == git_auth_error_message(pe),
                    None => match r {
                        Ok(c) => new_credential_fits(k, request, p, a, c),
                        Err(e) => is_seal_failure(e)
                            && secret_too_long(normalized(opt_view(request.token)), normalized(opt_view(request.password)), a),
                    },
                }
            },
        },
{
    let platform = parse_platform(request.platform.as_str())?;
    let auth_type = parse_auth_type(request.auth_type.as_str())?;
    let cipher = cipher_for(encryption_key)?;
    let ghost k = cipher.key();
    let username = normalize_optional(request.username);
    let token = normalize_optional(request.token);
    let password = normalize_optional(request.password);
    let ssh_key_path = normalize_optional(request.ssh_key_path);
    match crate::git_auth::validate_git_credential_payload(
        auth_type,
        platform,
        opt_str(&username),
        opt_str(&token),
        opt_str(&password),
        opt_str(&ssh_key_path),
    ) {
        Ok(()) => {},
        Err(e) => {
            let m = e.message();
            return Err(ApiError { status: BAD_REQUEST, message: m });
        },
    }
    let (sealed_token, sealed_password, key_path) = match auth_type {
        GitAuthType::Token => {
            let t = match &token {
                Some(t) => seal(&cipher, t.as_str())?,
                None => return Err(ApiError::new(BAD_REQUEST, "token auth requires token")),
            };
            (Some(t), None, None)
        },
        GitAuthType::Basic => {
            let pw = match &password {
                Some(pw) => seal(&cipher, pw.as_str())?,
                None => return Err(ApiError::new(BAD_REQUEST, "basic auth requires password")),
            };
            (None, Some(pw), None)
        },
        GitAuthType::Ssh => (None, None, ssh_key_path),
    };
    Ok(NewGitCredential {
        name: request.name,
        platform,
        auth_type,
        token: sealed_token,
        username,
        password: sealed_password,
        ssh_key_path: key_path,
    })
}

/// Whether `stored` holds what the payload `c` put in the store.
pub open spec fn stores(c: NewGitCredential, stored: GitCredential) -> bool {
    &&& stored.name == c.name
    &&& stored.platform == c.platform
    &&& stored.auth_type == c.auth_type
    &&& stored.token == c.token
    &&& stored.username == c.username
    &&& stored.password == c.password
    &&& stored.ssh_key_path == c.ssh_key_path
}

/// A credential stored from an accepted creation request opens, under the
/// same key, to what the request gave: its token, its user name and
/// password, or its SSH key path.
pub proof fn lemma_created_credential_opens(
    k: Seq<u8>,
    req: CreateCredentialRequest,
    p: GitPlatform,
    a: GitAuthType,
    c: NewGitCredential,
    stored: GitCredential,
    auth: crate::git_auth::ResolvedGitAuth,
)
    requires
        new_credential_problem(req, a) is None,
        new_credential_fits(k, req, p, a, c),
        stores(c, stored),
    ensures
        crate::git_auth::opened_auth_problem(k, stored) is None,
        crate::git_auth::opened_auth_ok(k, stored, auth) ==> match auth {
            crate::git_auth::ResolvedGitAuth::Token { username: _, token } => normalized(opt_view(req.token)) == Some(token@),
            crate::git_auth::ResolvedGitAuth::Basic { username, password } => normalized(opt_view(req.username)) == Some(username@)
                && normalized(opt_view(req.password)) == Some(password@),
            crate::git_auth::ResolvedGitAuth::Ssh { username: _, key_path } => normalized(opt_view(req.ssh_key_path)) == Some(key_path@),
        },
{
    let u = normalized(opt_view(req.username));
    if let Some(x) = u {
        crate::text::lemma_trim_idempotent(x);
    }
    if let Some(x) = normalized(opt_view(req.ssh_key_path)) {
        crate::text::lemma_trim_idempotent(x);
    }
}

/// A secret of an update: the new one sealed, or the stored one kept.
pub open spec fn sealed_or_kept(k: Seq<u8>, input: Option<Seq<char>>, stored: Option<String>, out: Option<String>) -> bool {
    match input {
        Some(x) => seals(k, x, out),
        None => out == stored,
    }
}

/// Whether `c` is what the update request `req` stores over `existing`.
pub open spec fn updated_credential_fits(
    k: Seq<u8>,
    req: UpdateCredentialRequest,
    existing: GitCredential,
    p: GitPlatform,
    a: GitAuthType,
    c: UpdateGitCredential,
) -> bool {
    &&& c.name == req.name
    &&& c.platform == p
    &&& c.auth_type == a
    &&& opt_view(c.username) == normalized(opt_view(req.username))
    &&& match a {
        GitAuthType::Token => sealed_or_kept(k, normalized(opt_view(req.token)), existing.token, c.token)
            && c.password is None && c.ssh_key_path is None,
        GitAuthType::Basic => c.token is None
            && sealed_or_kept(k, normalized(opt_view(req.password)), existing.password, c.password)
            && c.ssh_key_path is None,
        GitAuthType::Ssh => c.token is None && c.password is None
            && opt_view(c.ssh_key_path) == normalized(opt_view(req.ssh_key_path)),
    }
}

/// What is missing from an update for its authentication type, the stored
/// secret standing in for one the update leaves out (a sealed secret is
/// never blank).
pub open spec fn updated_credential_problem(req: UpdateCredentialRequest, existing: GitCredential, a: GitAuthType) -> Option<crate::git_auth::GitAuthError> {
    let u = normalized(opt_view(req.username));
    match a {
        GitAuthType::Token => match normalized(opt_view(req.token)) {
            Some(_) => None,
            None => payload_problem(a, u, opt_view(existing.token), None, None),
        },
        GitAuthType::Basic => match normalized(opt_view(req.password)) {
            Some(_) => if crate::git_auth::nonblank(u) is None {
                Some(crate::git_auth::GitAuthError::UsernameRequired)
            } else {
                None
            },
            None => payload_problem(a, u, None, opt_view(existing.password), None),
        },
        GitAuthType::Ssh => payload_problem(a, u, None, None, normalized(opt_view(req.ssh_key_path))),
    }
}

/// The values to store for an update of `existing`, under the configured key.
pub fn build_updated_credential_payload(
    encryption_key: &str,
    request: UpdateCredentialRequest,
    existing: &GitCredential,
) -> (r: Result<UpdateGitCredential, ApiError>)
    ensures
        match payload_setup_error(encryption_key@, request.platform@, request.auth_type@) {
            Some((status, message)) => r matches Err(e) && e.status == status && e.message@ == message,
            None => {
                let p = parse_git_platform(trim(request.platform@)).unwrap();
                let a = parse_git_auth_type(trim(request.auth_type@)).unwrap();
                let k = usable_key(encryption_key@).unwrap();
                match updated_credential_problem(request, *existing, a) {
                    Some(pe) => r matches Err(e) && ((e.status == BAD_REQUEST && e.message@ == git_auth_error_message(pe))
                        || (is_seal_failure(e)
                            && secret_too_long(normalized(opt_view(request.token)), normalized(opt_view(request.password)), a))),
                    None => match r {
                        Ok(c) => updated_credential_fits(k, request, *existing, p, a, c),
                        Err(e) => is_seal_failure(e)
                            && secret_too_long(normalized(opt_view(request.token)), normalized(opt_view(request.password)), a),
                    },
                }
            },
        },
{
    let platform = parse_platform(request.platform.as_str())?;
    let auth_type = parse_auth_type(request.auth_type.as_str())?;
    let cipher = cipher_for(encryption_key)?;
    let username = normalize_optional(request.username);
    let ssh_key_path = normalize_optional(request.ssh_key_path);
    let token_input = normalize_optional(request.token);
    let password_input = normalize_optional(request.password);
    let (token, password, key_path) = match auth_type {
        GitAuthType::Token => {
            let token = match &token_input {
                Some(t) => Some(seal(&cipher, t.as_str())?),
                None => crate::text::clone_opt(&existing.token),
            };
            match crate::git_auth::validate_git_credential_payload(
                auth_type,
                platform,
                opt_str(&username),
                opt_str(&token),
                None,
                None,
            ) {
                Ok(()) => {},
                Err(e) => {
                    let m = e.message();
                    return Err(ApiError { status: BAD_REQUEST, message: m });
                },
            }
            (token, None, None)
        },
        GitAuthType::Basic => {
            let password = match &password_input {
                Some(pw) => Some(seal(&cipher, pw.as_str())?),
                None => crate::text::clone_opt(&existing.password),
            };
            match crate::git_auth::validate_git_credential_payload(
                auth_type,
                platform,
                opt_str(&username),
                None,
                opt_str(&password),
                None,
            ) {
                Ok(()) => {},
                Err(e) => {
                    let m = e.message();
                    return Err(ApiError { status: BAD_REQUEST, message: m });
                },
            }
            (None, password, None)
        },
        GitAuthType::Ssh => {
            match crate::git_auth::validate_git_credential_payload(
                auth_type,
                platform,
                opt_str(&username),
                None,
                None,
                opt_str(&ssh_key_path),
            ) {
                Ok(()) => {},
                Err(e) => {
                    let m = e.message();
                    return Err(ApiError { status: BAD_REQUEST, message: m });
                },
            }
            (None, None, ssh_key_path)
        },
    };
    Ok(UpdateGitCredential { name: request.name, platform, auth_type, token, username, password, ssh_key_path: key_path })
}

/// Whether a task type works on a repository.
pub fn is_repository_task(task_type: TaskType) -> (r: bool)
    ensures
        r == (task_type == TaskType::GitReview || task_type == TaskType::TestGen),
{
    match task_type {
        TaskType::GitReview | TaskType::TestGen => true,
        TaskType::Custom => false,
    }
}

/// Checks the repository of a task: a repository task names one, and it
/// exists. `repo` is what the store holds under `repo_id`; it is only read
/// for repository tasks.
pub fn validate_task_repo(task_type: TaskType, repo_id: Option<i64>, repo: Option<&GitRepo>) -> (r: Result<(), ApiError>)
    ensures
        if task_type == TaskType::GitReview || task_type == TaskType::TestGen {
            match repo_id {
                None => r matches Err(e) && e.status == BAD_REQUEST && e.message@ == "repo_id is required for repository tasks"@,
                Some(_) => match repo {
                    None => r matches Err(e) && e.status == BAD_REQUEST && e.message@ == "repository not found"@,
                    Some(_) => r is Ok,
                },
            }
        } else {
            r is Ok
        },
{
    if is_repository_task(task_type) {
        if repo_id.is_none() {
            return Err(ApiError::new(BAD_REQUEST, "repo_id is required for repository tasks"));
        }
        if repo.is_none() {
            return Err(ApiError::new(BAD_REQUEST, "repository not found"));
        }
    }
    Ok(())
}

/// Checks the credential of a repository: when one is named, it exists.
/// `credential` is what the store holds under `credential_id`.
pub fn validate_repo_credential(credential_id: Option<i64>, credential: Option<&GitCredential>) -> (r: Result<(), ApiError>)
    ensures
        match (credential_id, credential) {
            (Some(_), None) => r matches Err(e) && e.status == BAD_REQUEST && e.message@ == "credential not found"@,
            _ => r is Ok,
        },
{
    if credential_id.is_some() && credential.is_none() {
        return Err(ApiError::new(BAD_REQUEST, "credential not found"));
    }
    Ok(())
}

/// Checks a cron field at `now`: when it is given, it must parse and fire
/// again; the error names the field.
pub fn validate_cron_field(expr: Option<&str>, field: &str, now: i64) -> (r: Result<(), ApiError>)
    ensures
        match expr {
            None => r is Ok,
            Some(x) => match next_fire(x@, now) {
                Ok(Some(_)) => r is Ok,
                Ok(None) => r matches Err(e) && e.status == BAD_REQUEST
                    && e.message@ == "invalid "@ + field@ + ": "@ + cron_error_message(CronError::NoFutureSchedule),
                Err(m) => r matches Err(e) && e.status == BAD_REQUEST && e.message@ == "invalid "@ + field@ + ": "@ + m,
            },
        },
{
    match expr {
        None => Ok(()),
        Some(x) => match crate::cron::next_run_from_cron(x, now) {
            Ok(_) => Ok(()),
            Err(e) => {
                let m = e.message();
                let mut message = "invalid ".to_owned();
                message.append(field);
                message.append(": ");
                message.append(m.as_str());
                Err(ApiError { status: BAD_REQUEST, message })
            },
        },
    }
}

/// When the first run of a task is due: the given time, else the next
/// firing of its cron expression after `now`, else `now`.
pub fn resolve_task_schedule(cron_expr: Option<&str>, scheduled_at: Option<&str>, now: i64) -> (r: Result<i64, ApiError>)
    ensures
        match scheduled_at {
            Some(raw) => match rfc3339_instant(raw@) {
                Some(t) => r == Ok::<i64, ApiError>(t),
                None => r matches Err(e) && e.status == BAD_REQUEST && e.message@ == "invalid scheduled_at datetime"@,
            },
            None => match cron_expr {
                Some(x) => match next_fire(x@, now) {
                    Ok(Some(t)) => r == Ok::<i64, ApiError>(t),
                    Ok(None) => r matches Err(e) && e.status == BAD_REQUEST
                        && e.message@ == cron_error_message(CronError::NoFutureSchedule),
                    Err(m) => r matches Err(e) && e.status == BAD_REQUEST && e.message@ == m,
                },
                None => r == Ok::<i64, ApiError>(now),
            },
        },
{
    if let Some(raw) = scheduled_at {
        return match crate::time::parse_rfc3339(raw) {
            Some(t) => Ok(t),
            None => Err(ApiError::new(BAD_REQUEST, "invalid scheduled_at datetime")),
        };
    }
    if let Some(x) = cron_expr {
        return match crate::cron::next_run_from_cron(x, now) {
            Ok(t) => Ok(t),
            Err(e) => Err(ApiError { status: BAD_REQUEST, message: e.message() }),
        };
    }
    Ok(now)
}

/// The name recorded for `id` in a list of (id, name) pairs; a later pair
/// wins over an earlier one with the same id.
pub open spec fn name_of(names: Seq<(i64, String)>, id: i64) -> Option<String>
    decreases names.len(),
{
    if names.len() == 0 {
        None
    } else if names.last().0 == id {
        Some(names.last().1)
    } else {
        name_of(names.drop_last(), id)
    }
}

/// Looks up the name recorded for an id.
pub fn lookup_name(names: &Vec<(i64, String)>, id: i64) -> (r: Option<String>)
    ensures
        r == name_of(names@, id),
{
    let mut i: usize = names.len();
    assert(names@.take(i as int) =~= names@);
    while i > 0
        invariant
            i <= names.len(),
            name_of(names@, id) == name_of(names@.take(i as int), id),
        decreases i,
    {
        proof {
            assert(names@.take(i as int).drop_last() =~= names@.take(i - 1));
        }
        if names[i - 1].0 == id {
            return Some(names[i - 1].1.clone());
        }
        i = i - 1;
    }
    None
}

/// The name of the entity an optional id refers to.
pub open spec fn optional_name(names: Seq<(i64, String)>, id: Option<i64>) -> Option<String> {
    match id {
        Some(i) => name_of(names, i),
        None => None,
    }
}

fn lookup_optional_name(names: &Vec<(i64, String)>, id: Option<i64>) -> (r: Option<String>)
    ensures
        r == optional_name(names@, id),
{
    match id {
        Some(i) => lookup_name(names, i),
        None => None,
    }
}

fn format_optional_time(t: Option<i64>) -> (r: Option<String>)
    ensures
        match t {
            Some(x) => r matches Some(s) && s@ == rfc3339_of(x),
            None => r is None,
        },
{
    match t {
        Some(x) => Some(crate::time::format_rfc3339(x)),
        None => None,
    }
}

/// How a repository is shown, with the name of its credential.
pub fn repo_to_response(repo: GitRepo, credential_names: &Vec<(i64, String)>) -> (r: AdminRepoResponse)
    ensures
        r.id == repo.id,
        r.name == repo.name,
        r.repo_url == repo.repo_url,
        r.branch == repo.branch,
        r.local_path == repo.local_path,
        r.review_cron == repo.review_cron,
        r.credential_id == repo.credential_id,
        r.credential_name == optional_name(credential_names@, repo.credential_id),
        r.last_commit == repo.last_commit,
        r.enabled == repo.enabled,
        r.created_at@ == rfc3339_of(repo.created_at),
        r.updated_at@ == rfc3339_of(repo.updated_at),
{
    let credential_name = lookup_optional_name(credential_names, repo.credential_id);
    AdminRepoResponse {
        id: repo.id,
        name: repo.name,
        repo_url: repo.repo_url,
        branch: repo.branch,
        local_path: repo.local_path,
        review_cron: repo.review_cron,
        credential_id: repo.credential_id,
        credential_name,
        last_commit: repo.last_commit,
        enabled: repo.enabled,
        created_at: crate::time::format_rfc3339(repo.created_at),
        updated_at: crate::time::format_rfc3339(repo.updated_at),
    }
}

/// How a credential is shown: its secrets only as whether they are set.
pub fn credential_to_response(credential: GitCredential) -> (r: AdminCredentialResponse)
    ensures
        r.id == credential.id,
        r.name == credential.name,
        r.platform@ == git_platform_name(credential.platform),
        r.auth_type@ == git_auth_type_name(credential.auth_type),
        r.username == credential.username,
        r.ssh_key_path == credential.ssh_key_path,
        r.has_token == credential.token is Some,
        r.has_password == credential.password is Some,
        r.created_at@ == rfc3339_of(credential.created_at),
        r.updated_at@ == rfc3339_of(credential.updated_at),
{
    AdminCredentialResponse {
        id: credential.id,
        name: credential.name,
        platform: credential.platform.as_str().to_owned(),
        auth_type: credential.auth_type.as_str().to_owned(),
        username: credential.username,
        ssh_key_path: credential.ssh_key_path,
        has_token: credential.token.is_some(),
        has_password: credential.password.is_some(),
        created_at: crate::time::format_rfc3339(credential.created_at),
        updated_at: crate::time::format_rfc3339(credential.updated_at),
    }
}

/// How a user is shown.
pub fn user_to_response(user: User) -> (r: AdminUserResponse)
    ensures
        r.id == user.id,
        r.email == user.email,
        r.display_name == user.display_name,
        r.avatar_url == user.avatar_url,
        match user.activated_at {
            Some(t) => r.activated_at matches Some(s) && s@ == rfc3339_of(t),
            None => r.activated_at is None,
        },
        r.created_at@ == rfc3339_of(user.created_at),
        r.updated_at@ == rfc3339_of(user.updated_at),
{
    AdminUserResponse {
        id: user.id,
        email: user.email,
        display_name: user.display_name,
        avatar_url: user.avatar_url,
        activated_at: format_optional_time(user.activated_at),
        created_at: crate::time::format_rfc3339(user.created_at),
        updated_at: crate::time::format_rfc3339(user.updated_at),
    }
}

/// How a task definition is shown, with its run figures and the name of its repository.
pub fn task_to_response(task: TaskDefinition, stats: TaskRunStats, repo_names: &Vec<(i64, String)>) -> (r: AdminTaskResponse)
    ensures
        r.id == task.id,
        r.name == task.name,
        r.task_type@ == task_type_name(task.task_type),
        r.repo_id == task.repo_id,
        r.repo_name == optional_name(repo_names@, task.repo_id),
        r.prompt == task.prompt,
        r.cron_expr == task.cron_expr,
        r.status@ == definition_status_name(task.status),
        match stats.last_run_at {
            Some(t) => r.last_run_at matches Some(s) && s@ == rfc3339_of(t),
            None => r.last_run_at is None,
        },
        match stats.last_run_status {
            Some(st) => r.last_run_status matches Some(s) && s@ == task_status_name(st),
            None => r.last_run_status is None,
        },
        match stats.next_run_at {
            Some(t) => r.next_run_at matches Some(s) && s@ == rfc3339_of(t),
            None => r.next_run_at is None,
        },
        r.total_runs == stats.total_runs,
        r.created_at@ == rfc3339_of(task.created_at),
        r.updated_at@ == rfc3339_of(task.updated_at),
{
    let repo_name = lookup_optional_name(repo_names, task.repo_id);
    AdminTaskResponse {
        id: task.id,
        name: task.name,
        task_type: task.task_type.as_str().to_owned(),
        repo_id: task.repo_id,
        repo_name,
        prompt: task.prompt,
        cron_expr: task.cron_expr,
        status: task.status.as_str().to_owned(),
        last_run_at: format_optional_time(stats.last_run_at),
        last_run_status: match stats.last_run_status {
            Some(st) => Some(st.as_str().to_owned()),
            None => None,
        },
        next_run_at: format_optional_time(stats.next_run_at),
        total_runs: stats.total_runs,
        created_at: crate::time::format_rfc3339(task.created_at),
        updated_at: crate::time::format_rfc3339(task.updated_at),
    }
}

/// The definition recorded for an id; a later one wins over an earlier one
/// with the same id.
pub open spec fn definition_of(defs: Seq<TaskDefinition>, id: i64) -> Option<TaskDefinition>
    decreases defs.len(),
{
    if defs.len() == 0 {
        None
    } else if defs.last().id == id {
        Some(defs.last())
    } else {
        definition_of(defs.drop_last(), id)
    }
}

fn lookup_definition(defs: &Vec<TaskDefinition>, id: i64) -> (r: Option<&TaskDefinition>)
    ensures
        match r {
            Some(d) => definition_of(defs@, id) == Some(*d),
            None => definition_of(defs@, id) is None,
        },
{
    let mut i: usize = defs.len();
    assert(defs@.take(i as int) =~= defs@);
    while i > 0
        invariant
            i <= defs.len(),
            definition_of(defs@, id) == definition_of(defs@.take(i as int), id),
        decreases i,
    {
        proof {
            assert(defs@.take(i as int).drop_last() =~= defs@.take(i - 1));
        }
        if defs[i - 1].id == id {
            return Some(&defs[i - 1]);
        }
        i = i - 1;
    }
    None
}

/// Whether `r` shows the run with the times, status and outputs it has.
pub open spec fn shows_run_fields(
    r: AdminTaskRunResponse,
    scheduled_at: i64,
    started_at: Option<i64>,
    finished_at: Option<i64>,
    status: crate::models::TaskStatus,
    result: Option<String>,
    log: Option<String>,
    retry_count: i64,
    created_at: i64,
) -> bool {
    &&& r.scheduled_at@ == rfc3339_of(scheduled_at)
    &&& match started_at {
        Some(t) => r.started_at matches Some(s) && s@ == rfc3339_of(t),
        None => r.started_at is None,
    }
    &&& match finished_at {
        Some(t) => r.finished_at matches Some(s) && s@ == rfc3339_of(t),
        None => r.finished_at is None,
    }
    &&& r.status@ == task_status_name(status)
    &&& r.result == result
    &&& r.log == log
    &&& r.retry_count == retry_count
    &&& r.created_at@ == rfc3339_of(created_at)
}

/// How a run is shown, with its definition's name and repository; a run
/// whose definition is not among `task_defs` is an error.
pub fn task_run_to_response(
    run: TaskRun,
    task_defs: &Vec<TaskDefinition>,
    repo_names: &Vec<(i64, String)>,
) -> (r: Result<AdminTaskRunResponse, ApiError>)
    ensures
        match definition_of(task_defs@, run.task_id) {
            None => r matches Err(e) && e.status == NOT_FOUND && e.message@ == "task definition not found"@,
            Some(d) => r matches Ok(resp) && resp.id == run.id && resp.task_id == run.task_id
                && resp.task_name == d.name && resp.repo_name == optional_name(repo_names@, d.repo_id)
                && shows_run_fields(resp, run.scheduled_at, run.started_at, run.finished_at, run.status, run.result, run.log, run.retry_count, run.created_at),
        },
{
    let task = match lookup_definition(task_defs, run.task_id) {
        Some(d) => d,
        None => return Err(ApiError::new(NOT_FOUND, "task definition not found")),
    };
    let repo_name = lookup_optional_name(repo_names, task.repo_id);
    Ok(AdminTaskRunResponse {
        id: run.id,
        task_id: run.task_id,
        task_name: task.name.clone(),
        repo_name,
        scheduled_at: crate::time::format_rfc3339(run.scheduled_at),
        started_at: format_optional_time(run.started_at),
        finished_at: format_optional_time(run.finished_at),
        status: run.status.as_str().to_owned(),
        result: run.result,
        log: run.log,
        retry_count: run.retry_count,
        created_at: crate::time::format_rfc3339(run.created_at),
    })
}

/// How a run joined with its definition is shown.
pub fn execution_to_run_response(task: Task, repo_names: &Vec<(i64, String)>) -> (r: AdminTaskRunResponse)
    ensures
        r.id == task.id,
        r.task_id == task.task_id,
        r.task_name == task.name,
        r.repo_name == optional_name(repo_names@, task.repo_id),
        shows_run_fields(r, task.scheduled_at, task.started_at, task.finished_at, task.status, task.result, task.log, task.retry_count, task.created_at),
{
    let repo_name = lookup_optional_name(repo_names, task.repo_id);
    AdminTaskRunResponse {
        id: task.id,
        task_id: task.task_id,
        task_name: task.name,
        repo_name,
        scheduled_at: crate::time::format_rfc3339(task.scheduled_at),
        started_at: format_optional_time(task.started_at),
        finished_at: format_optional_time(task.finished_at),
        status: task.status.as_str().to_owned(),
        result: task.result,
        log: task.log,
        retry_count: task.retry_count,
        created_at: crate::time::format_rfc3339(task.created_at),
    }
}

/// What a sync reports after pulling an existing checkout.
pub fn pulled_response(output: GitPullOutput) -> (r: RepoSyncResponse)
    ensures
        r.action@ == "pulled"@,
        r.branch == output.branch,
        r.updated == output.updated,
        r.head == output.head,
{
    RepoSyncResponse { action: "pulled".to_owned(), branch: output.branch, updated: output.updated, head: output.head }
}

/// What a sync reports after cloning: a fresh clone always counts as updated.
pub fn cloned_response(output: GitCloneOutput) -> (r: RepoSyncResponse)
    ensures
        r.action@ == "cloned"@,
        r.branch == output.branch,
        r.updated,
        r.head == output.head,
{
    RepoSyncResponse { action: "cloned".to_owned(), branch: output.branch, updated: true, head: output.head }
}

/// The clone of a repository that a sync makes when it has no checkout yet.
pub fn sync_clone_args(repo: &GitRepo) -> (r: crate::mcp::GitCloneArgs)
    ensures
        r.url == repo.repo_url,
        r.path == repo.local_path,
        r.branch == Some(repo.branch),
{
    crate::mcp::GitCloneArgs { url: repo.repo_url.clone(), path: repo.local_path.clone(), branch: Some(repo.branch.clone()) }
}

} // verus!
