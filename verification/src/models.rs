//! Records kept by the scheduler and the names under which enums are stored.
//!
//! Instants are nanoseconds since the Unix epoch, UTC.

use vstd::prelude::*;
use vstd::string::*;

use crate::cron::{next_fire, next_run_from_cron, CronError};
use crate::text::concat2;

verus! {

/// What a task does when it runs.
#[derive(Debug, Clone, Copy, PartialEq, Eq, Structural)]
pub enum TaskType {
    GitReview,
    TestGen,
    Custom,
}

/// Whether a task definition still produces runs.
#[derive(Debug, Clone, Copy, PartialEq, Eq, Structural)]
pub enum TaskDefinitionStatus {
    Active,
    Paused,
}

/// The state of one run of a task.
#[derive(Debug, Clone, Copy, PartialEq, Eq, Structural)]
pub enum TaskStatus {
    Pending,
    Running,
    Done,
    Failed,
    Cancelled,
}

/// Role carried by an authenticated user.
#[derive(Debug, Clone, Copy, PartialEq, Eq, Structural)]
pub enum UserRole {
    SuperAdmin,
    User,
}

/// Hosting platform of a git credential.
#[derive(Debug, Clone, Copy, PartialEq, Eq, Structural)]
pub enum GitPlatform {
    Github,
    Gitee,
    Gitlab,
    Other,
}

/// How a git credential authenticates.
#[derive(Debug, Clone, Copy, PartialEq, Eq, Structural)]
pub enum GitAuthType {
    Token,
    Ssh,
    Basic,
}

/// A stored name that matches no variant; it carries the rejected text.
#[derive(Debug, Clone, PartialEq, Eq)]
pub enum ModelError {
    UnsupportedTaskType(String),
    UnsupportedTaskDefinitionStatus(String),
    UnsupportedTaskStatus(String),
    UnsupportedGitPlatform(String),
    UnsupportedGitAuthType(String),
}

pub open spec fn task_type_name(t: TaskType) -> Seq<char> {
    match t {
        TaskType::GitReview => "git_review"@,
        TaskType::TestGen => "test_gen"@,
        TaskType::Custom => "custom"@,
    }
}

pub open spec fn parse_task_type(s: Seq<char>) -> Option<TaskType> {
    if s == "git_review"@ {
        Some(TaskType::GitReview)
    } else if s == "test_gen"@ {
        Some(TaskType::TestGen)
    } else if s == "custom"@ {
        Some(TaskType::Custom)
    } else {
        None
    }
}

pub open spec fn definition_status_name(t: TaskDefinitionStatus) -> Seq<char> {
    match t {
        TaskDefinitionStatus::Active => "active"@,
        TaskDefinitionStatus::Paused => "paused"@,
    }
}

pub open spec fn parse_definition_status(s: Seq<char>) -> Option<TaskDefinitionStatus> {
    if s == "active"@ {
        Some(TaskDefinitionStatus::Active)
    } else if s == "paused"@ {
        Some(TaskDefinitionStatus::Paused)
    } else {
        None
    }
}

pub open spec fn task_status_name(t: TaskStatus) -> Seq<char> {
    match t {
        TaskStatus::Pending => "pending"@,
        TaskStatus::Running => "running"@,
        TaskStatus::Done => "done"@,
        TaskStatus::Failed => "failed"@,
        TaskStatus::Cancelled => "cancelled"@,
    }
}

pub open spec fn parse_task_status(s: Seq<char>) -> Option<TaskStatus> {
    if s == "pending"@ {
        Some(TaskStatus::Pending)
    } else if s == "running"@ {
        Some(TaskStatus::Running)
    } else if s == "done"@ {
        Some(TaskStatus::Done)
    } else if s == "failed"@ {
        Some(TaskStatus::Failed)
    } else if s == "cancelled"@ {
        Some(TaskStatus::Cancelled)
    } else {
        None
    }
}

pub open spec fn user_role_name(t: UserRole) -> Seq<char> {
    match t {
        UserRole::SuperAdmin => "superAdmin"@,
        UserRole::User => "user"@,
    }
}

pub open spec fn git_platform_name(t: GitPlatform) -> Seq<char> {
    match t {
        GitPlatform::Github => "github"@,
        GitPlatform::Gitee => "gitee"@,
        GitPlatform::Gitlab => "gitlab"@,
        GitPlatform::Other => "other"@,
    }
}

pub open spec fn parse_git_platform(s: Seq<char>) -> Option<GitPlatform> {
    if s == "github"@ {
        Some(GitPlatform::Github)
    } else if s == "gitee"@ {
        Some(GitPlatform::Gitee)
    } else if s == "gitlab"@ {
        Some(GitPlatform::Gitlab)
    } else if s == "other"@ {
        Some(GitPlatform::Other)
    } else {
        None
    }
}

pub open spec fn git_auth_type_name(t: GitAuthType) -> Seq<char> {
    match t {
        GitAuthType::Token => "token"@,
        GitAuthType::Ssh => "ssh"@,
        GitAuthType::Basic => "basic"@,
    }
}

pub open spec fn parse_git_auth_type(s: Seq<char>) -> Option<GitAuthType> {
    if s == "token"@ {
        Some(GitAuthType::Token)
    } else if s == "ssh"@ {
        Some(GitAuthType::Ssh)
    } else if s == "basic"@ {
        Some(GitAuthType::Basic)
    } else {
        None
    }
}

impl TaskType {
    /// The name under which the task type is stored.
    pub fn as_str(self) -> (r: &'static str)
        ensures
            r@ == task_type_name(self),
    {
        match self {
            TaskType::GitReview => "git_review",
            TaskType::TestGen => "test_gen",
            TaskType::Custom => "custom",
        }
    }

    /// Reads a task type given on the command line; the names are those of `from_db`.
    pub fn from_cli(input: &str) -> (r: Result<Self, ModelError>)
        ensures
            match r {
                Ok(t) => parse_task_type(input@) == Some(t),
                Err(e) => parse_task_type(input@) is None && (e matches ModelError::UnsupportedTaskType(s) && s@ == input@),
            },
    {
        Self::from_db(input)
    }

    /// Reads a stored task type name.
    pub fn from_db(input: &str) -> (r: Result<Self, ModelError>)
        ensures
            match r {
                Ok(t) => parse_task_type(input@) == Some(t),
                Err(e) => parse_task_type(input@) is None && (e matches ModelError::UnsupportedTaskType(s) && s@ == input@),
            },
    {
        if crate::text::str_eq(input, "git_review") {
            Ok(TaskType::GitReview)
        } else if crate::text::str_eq(input, "test_gen") {
            Ok(TaskType::TestGen)
        } else if crate::text::str_eq(input, "custom") {
            Ok(TaskType::Custom)
        } else {
            Err(ModelError::UnsupportedTaskType(input.to_owned()))
        }
    }
}

impl TaskDefinitionStatus {
    /// The name under which the definition status is stored.
    pub fn as_str(self) -> (r: &'static str)
        ensures
            r@ == definition_status_name(self),
    {
        match self {
            TaskDefinitionStatus::Active => "active",
            TaskDefinitionStatus::Paused => "paused",
        }
    }

    /// Reads a stored definition status name.
    pub fn from_db(input: &str) -> (r: Result<Self, ModelError>)
        ensures
            match r {
                Ok(t) => parse_definition_status(input@) == Some(t),
                Err(e) => parse_definition_status(input@) is None && (e matches ModelError::UnsupportedTaskDefinitionStatus(s) && s@ == input@),
            },
    {
        if crate::text::str_eq(input, "active") {
            Ok(TaskDefinitionStatus::Active)
        } else if crate::text::str_eq(input, "paused") {
            Ok(TaskDefinitionStatus::Paused)
        } else {
            Err(ModelError::UnsupportedTaskDefinitionStatus(input.to_owned()))
        }
    }
}

impl TaskStatus {
    /// The name under which the run status is stored.
    pub fn as_str(self) -> (r: &'static str)
        ensures
            r@ == task_status_name(self),
    {
        match self {
            TaskStatus::Pending => "pending",
            TaskStatus::Running => "running",
            TaskStatus::Done => "done",
            TaskStatus::Failed => "failed",
            TaskStatus::Cancelled => "cancelled",
        }
    }

    /// Reads a stored run status name.
    pub fn from_db(input: &str) -> (r: Result<Self, ModelError>)
        ensures
            match r {
                Ok(t) => parse_task_status(input@) == Some(t),
                Err(e) => parse_task_status(input@) is None && (e matches ModelError::UnsupportedTaskStatus(s) && s@ == input@),
            },
    {
        if crate::text::str_eq(input, "pending") {
            Ok(TaskStatus::Pending)
        } else if crate::text::str_eq(input, "running") {
            Ok(TaskStatus::Running)
        } else if crate::text::str_eq(input, "done") {
            Ok(TaskStatus::Done)
        } else if crate::text::str_eq(input, "failed") {
            Ok(TaskStatus::Failed)
        } else if crate::text::str_eq(input, "cancelled") {
            Ok(TaskStatus::Cancelled)
        } else {
            Err(ModelError::UnsupportedTaskStatus(input.to_owned()))
        }
    }
}

impl UserRole {
    /// The name under which the role appears in tokens.
    pub fn as_str(self) -> (r: &'static str)
        ensures
            r@ == user_role_name(self),
    {
        match self {
            UserRole::SuperAdmin => "superAdmin",
            UserRole::User => "user",
        }
    }
}

impl GitPlatform {
    /// The name under which the platform is stored.
    pub fn as_str(self) -> (r: &'static str)
        ensures
            r@ == git_platform_name(self),
    {
        match self {
            GitPlatform::Github => "github",
            GitPlatform::Gitee => "gitee",
            GitPlatform::Gitlab => "gitlab",
            GitPlatform::Other => "other",
        }
    }

    /// Reads a stored platform name.
    pub fn from_db(input: &str) -> (r: Result<Self, ModelError>)
        ensures
            match r {
                Ok(t) => parse_git_platform(input@) == Some(t),
                Err(e) => parse_git_platform(input@) is None && (e matches ModelError::UnsupportedGitPlatform(s) && s@ == input@),
            },
    {
        if crate::text::str_eq(input, "github") {
            Ok(GitPlatform::Github)
        } else if crate::text::str_eq(input, "gitee") {
            Ok(GitPlatform::Gitee)
        } else if crate::text::str_eq(input, "gitlab") {
            Ok(GitPlatform::Gitlab)
        } else if crate::text::str_eq(input, "other") {
            Ok(GitPlatform::Other)
        } else {
            Err(ModelError::UnsupportedGitPlatform(input.to_owned()))
        }
    }
}

impl GitAuthType {
    /// The name under which the authentication type is stored.
    pub fn as_str(self) -> (r: &'static str)
        ensures
            r@ == git_auth_type_name(self),
    {
        match self {
            GitAuthType::Token => "token",
            GitAuthType::Ssh => "ssh",
            GitAuthType::Basic => "basic",
        }
    }

    /// Reads a stored authentication type name.
    pub fn from_db(input: &str) -> (r: Result<Self, ModelError>)
        ensures
            match r {
                Ok(t) => parse_git_auth_type(input@) == Some(t),
                Err(e) => parse_git_auth_type(input@) is None && (e matches ModelError::UnsupportedGitAuthType(s) && s@ == input@),
            },
    {
        if crate::text::str_eq(input, "token") {
            Ok(GitAuthType::Token)
        } else if crate::text::str_eq(input, "ssh") {
            Ok(GitAuthType::Ssh)
        } else if crate::text::str_eq(input, "basic") {
            Ok(GitAuthType::Basic)
        } else {
            Err(ModelError::UnsupportedGitAuthType(input.to_owned()))
        }
    }
}

pub open spec fn model_error_message(e: ModelError) -> Seq<char> {
    match e {
        ModelError::UnsupportedTaskType(s) => "unsupported task type: "@ + s@,
        ModelError::UnsupportedTaskDefinitionStatus(s) => "unsupported task definition status: "@ + s@,
        ModelError::UnsupportedTaskStatus(s) => "unsupported task status: "@ + s@,
        ModelError::UnsupportedGitPlatform(s) => "unsupported git platform: "@ + s@,
        ModelError::UnsupportedGitAuthType(s) => "unsupported git auth type: "@ + s@,
    }
}

impl ModelError {
    /// The human-readable message of the error.
    pub fn message(&self) -> (r: String)
        ensures
            r@ == model_error_message(*self),
    {
        match self {
            ModelError::UnsupportedTaskType(s) => concat2("unsupported task type: ", s.as_str()),
            ModelError::UnsupportedTaskDefinitionStatus(s) => concat2(
                "unsupported task definition status: ",
                s.as_str(),
            ),
            ModelError::UnsupportedTaskStatus(s) => concat2("unsupported task status: ", s.as_str()),
            ModelError::UnsupportedGitPlatform(s) => concat2("unsupported git platform: ", s.as_str()),
            ModelError::UnsupportedGitAuthType(s) => concat2("unsupported git auth type: ", s.as_str()),
        }
    }
}

/// The names stored for each enum value, written out, and what reading a
/// stored text gives: exactly these names are read, each as its own value,
/// and any other text is refused.
pub proof fn lemma_stored_names(s: Seq<char>)
    ensures
        task_type_name(TaskType::GitReview) == seq!['g', 'i', 't', '_', 'r', 'e', 'v', 'i', 'e', 'w'],
        task_type_name(TaskType::TestGen) == seq!['t', 'e', 's', 't', '_', 'g', 'e', 'n'],
        task_type_name(TaskType::Custom) == seq!['c', 'u', 's', 't', 'o', 'm'],
        s == seq!['g', 'i', 't', '_', 'r', 'e', 'v', 'i', 'e', 'w'] ==> parse_task_type(s) == Some(TaskType::GitReview),
        s == seq!['t', 'e', 's', 't', '_', 'g', 'e', 'n'] ==> parse_task_type(s) == Some(TaskType::TestGen),
        s == seq!['c', 'u', 's', 't', 'o', 'm'] ==> parse_task_type(s) == Some(TaskType::Custom),
        (s != seq!['g', 'i', 't', '_', 'r', 'e', 'v', 'i', 'e', 'w'] && s != seq!['t', 'e', 's', 't', '_', 'g', 'e', 'n'] && s != seq!['c', 'u', 's', 't', 'o', 'm']) ==> parse_task_type(s) is None,
        definition_status_name(TaskDefinitionStatus::Active) == seq!['a', 'c', 't', 'i', 'v', 'e'],
        definition_status_name(TaskDefinitionStatus::Paused) == seq!['p', 'a', 'u', 's', 'e', 'd'],
        s == seq!['a', 'c', 't', 'i', 'v', 'e'] ==> parse_definition_status(s) == Some(TaskDefinitionStatus::Active),
        s == seq!['p', 'a', 'u', 's', 'e', 'd'] ==> parse_definition_status(s) == Some(TaskDefinitionStatus::Paused),
        (s != seq!['a', 'c', 't', 'i', 'v', 'e'] && s != seq!['p', 'a', 'u', 's', 'e', 'd']) ==> parse_definition_status(s) is None,
        task_status_name(TaskStatus::Pending) == seq!['p', 'e', 'n', 'd', 'i', 'n', 'g'],
        task_status_name(TaskStatus::Running) == seq!['r', 'u', 'n', 'n', 'i', 'n', 'g'],
        task_status_name(TaskStatus::Done) == seq!['d', 'o', 'n', 'e'],
        task_status_name(TaskStatus::Failed) == seq!['f', 'a', 'i', 'l', 'e', 'd'],
        task_status_name(TaskStatus::Cancelled) == seq!['c', 'a', 'n', 'c', 'e', 'l', 'l', 'e', 'd'],
        s == seq!['p', 'e', 'n', 'd', 'i', 'n', 'g'] ==> parse_task_status(s) == Some(TaskStatus::Pending),
        s == seq!['r', 'u', 'n', 'n', 'i', 'n', 'g'] ==> parse_task_status(s) == Some(TaskStatus::Running),
        s == seq!['d', 'o', 'n', 'e'] ==> parse_task_status(s) == Some(TaskStatus::Done),
        s == seq!['f', 'a', 'i', 'l', 'e', 'd'] ==> parse_task_status(s) == Some(TaskStatus::Failed),
        s == seq!['c', 'a', 'n', 'c', 'e', 'l', 'l', 'e', 'd'] ==> parse_task_status(s) == Some(TaskStatus::Cancelled),
        (s != seq!['p', 'e', 'n', 'd', 'i', 'n', 'g'] && s != seq!['r', 'u', 'n', 'n', 'i', 'n', 'g'] && s != seq!['d', 'o', 'n', 'e'] && s != seq!['f', 'a', 'i', 'l', 'e', 'd'] && s != seq!['c', 'a', 'n', 'c', 'e', 'l', 'l', 'e', 'd']) ==> parse_task_status(s) is None,
        git_platform_name(GitPlatform::Github) == seq!['g', 'i', 't', 'h', 'u', 'b'],
        git_platform_name(GitPlatform::Gitee) == seq!['g', 'i', 't', 'e', 'e'],
        git_platform_name(GitPlatform::Gitlab) == seq!['g', 'i', 't', 'l', 'a', 'b'],
        git_platform_name(GitPlatform::Other) == seq!['o', 't', 'h', 'e', 'r'],
        s == seq!['g', 'i', 't', 'h', 'u', 'b'] ==> parse_git_platform(s) == Some(GitPlatform::Github),
        s == seq!['g', 'i', 't', 'e', 'e'] ==> parse_git_platform(s) == Some(GitPlatform::Gitee),
        s == seq!['g', 'i', 't', 'l', 'a', 'b'] ==> parse_git_platform(s) == Some(GitPlatform::Gitlab),
        s == seq!['o', 't', 'h', 'e', 'r'] ==> parse_git_platform(s) == Some(GitPlatform::Other),
        (s != seq!['g', 'i', 't', 'h', 'u', 'b'] && s != seq!['g', 'i', 't', 'e', 'e'] && s != seq!['g', 'i', 't', 'l', 'a', 'b'] && s != seq!['o', 't', 'h', 'e', 'r']) ==> parse_git_platform(s) is None,
        git_auth_type_name(GitAuthType::Token) == seq!['t', 'o', 'k', 'e', 'n'],
        git_auth_type_name(GitAuthType::Ssh) == seq!['s', 's', 'h'],
        git_auth_type_name(GitAuthType::Basic) == seq!['b', 'a', 's', 'i', 'c'],
        s == seq!['t', 'o', 'k', 'e', 'n'] ==> parse_git_auth_type(s) == Some(GitAuthType::Token),
        s == seq!['s', 's', 'h'] ==> parse_git_auth_type(s) == Some(GitAuthType::Ssh),
        s == seq!['b', 'a', 's', 'i', 'c'] ==> parse_git_auth_type(s) == Some(GitAuthType::Basic),
        (s != seq!['t', 'o', 'k', 'e', 'n'] && s != seq!['s', 's', 'h'] && s != seq!['b', 'a', 's', 'i', 'c']) ==> parse_git_auth_type(s) is None,
        user_role_name(UserRole::SuperAdmin) == seq!['s', 'u', 'p', 'e', 'r', 'A', 'd', 'm', 'i', 'n'],
        user_role_name(UserRole::User) == seq!['u', 's', 'e', 'r'],
{
    reveal_strlit("git_review");
    assert("git_review"@ =~= seq!['g', 'i', 't', '_', 'r', 'e', 'v', 'i', 'e', 'w']);
    reveal_strlit("test_gen");
    assert("test_gen"@ =~= seq!['t', 'e', 's', 't', '_', 'g', 'e', 'n']);
    reveal_strlit("custom");
    assert("custom"@ =~= seq!['c', 'u', 's', 't', 'o', 'm']);
    reveal_strlit("active");
    assert("active"@ =~= seq!['a', 'c', 't', 'i', 'v', 'e']);
    reveal_strlit("paused");
    assert("paused"@ =~= seq!['p', 'a', 'u', 's', 'e', 'd']);
    reveal_strlit("pending");
    assert("pending"@ =~= seq!['p', 'e', 'n', 'd', 'i', 'n', 'g']);
    reveal_strlit("running");
    assert("running"@ =~= seq!['r', 'u', 'n', 'n', 'i', 'n', 'g']);
    reveal_strlit("done");
    assert("done"@ =~= seq!['d', 'o', 'n', 'e']);
    reveal_strlit("failed");
    assert("failed"@ =~= seq!['f', 'a', 'i', 'l', 'e', 'd']);
    reveal_strlit("cancelled");
    assert("cancelled"@ =~= seq!['c', 'a', 'n', 'c', 'e', 'l', 'l', 'e', 'd']);
    reveal_strlit("github");
    assert("github"@ =~= seq!['g', 'i', 't', 'h', 'u', 'b']);
    reveal_strlit("gitee");
    assert("gitee"@ =~= seq!['g', 'i', 't', 'e', 'e']);
    reveal_strlit("gitlab");
    assert("gitlab"@ =~= seq!['g', 'i', 't', 'l', 'a', 'b']);
    reveal_strlit("other");
    assert("other"@ =~= seq!['o', 't', 'h', 'e', 'r']);
    reveal_strlit("token");
    assert("token"@ =~= seq!['t', 'o', 'k', 'e', 'n']);
    reveal_strlit("ssh");
    assert("ssh"@ =~= seq!['s', 's', 'h']);
    reveal_strlit("basic");
    assert("basic"@ =~= seq!['b', 'a', 's', 'i', 'c']);
    reveal_strlit("superAdmin");
    assert("superAdmin"@ =~= seq!['s', 'u', 'p', 'e', 'r', 'A', 'd', 'm', 'i', 'n']);
    reveal_strlit("user");
    assert("user"@ =~= seq!['u', 's', 'e', 'r']);
    assert(seq!['g', 'i', 't', '_', 'r', 'e', 'v', 'i', 'e', 'w'] != seq!['t', 'e', 's', 't', '_', 'g', 'e', 'n']) by { assert(seq!['g', 'i', 't', '_', 'r', 'e', 'v', 'i', 'e', 'w'].len() != seq!['t', 'e', 's', 't', '_', 'g', 'e', 'n'].len()); }
    assert(seq!['g', 'i', 't', '_', 'r', 'e', 'v', 'i', 'e', 'w'] != seq!['c', 'u', 's', 't', 'o', 'm']) by { assert(seq!['g', 'i', 't', '_', 'r', 'e', 'v', 'i', 'e', 'w'].len() != seq!['c', 'u', 's', 't', 'o', 'm'].len()); }
    assert(seq!['t', 'e', 's', 't', '_', 'g', 'e', 'n'] != seq!['c', 'u', 's', 't', 'o', 'm']) by { assert(seq!['t', 'e', 's', 't', '_', 'g', 'e', 'n'].len() != seq!['c', 'u', 's', 't', 'o', 'm'].len()); }
    assert(seq!['a', 'c', 't', 'i', 'v', 'e'] != seq!['p', 'a', 'u', 's', 'e', 'd']) by { assert(seq!['a', 'c', 't', 'i', 'v', 'e'][0] != seq!['p', 'a', 'u', 's', 'e', 'd'][0]); }
    assert(seq!['p', 'e', 'n', 'd', 'i', 'n', 'g'] != seq!['r', 'u', 'n', 'n', 'i', 'n', 'g']) by { assert(seq!['p', 'e', 'n', 'd', 'i', 'n', 'g'][0] != seq!['r', 'u', 'n', 'n', 'i', 'n', 'g'][0]); }
    assert(seq!['p', 'e', 'n', 'd', 'i', 'n', 'g'] != seq!['d', 'o', 'n', 'e']) by { assert(seq!['p', 'e', 'n', 'd', 'i', 'n', 'g'].len() != seq!['d', 'o', 'n', 'e'].len()); }
    assert(seq!['p', 'e', 'n', 'd', 'i', 'n', 'g'] != seq!['f', 'a', 'i', 'l', 'e', 'd']) by { assert(seq!['p', 'e', 'n', 'd', 'i', 'n', 'g'].len() != seq!['f', 'a', 'i', 'l', 'e', 'd'].len()); }
    assert(seq!['p', 'e', 'n', 'd', 'i', 'n', 'g'] != seq!['c', 'a', 'n', 'c', 'e', 'l', 'l', 'e', 'd']) by { assert(seq!['p', 'e', 'n', 'd', 'i', 'n', 'g'].len() != seq!['c', 'a', 'n', 'c', 'e', 'l', 'l', 'e', 'd'].len()); }
    assert(seq!['r', 'u', 'n', 'n', 'i', 'n', 'g'] != seq!['d', 'o', 'n', 'e']) by { assert(seq!['r', 'u', 'n', 'n', 'i', 'n', 'g'].len() != seq!['d', 'o', 'n', 'e'].len()); }
    assert(seq!['r', 'u', 'n', 'n', 'i', 'n', 'g'] != seq!['f', 'a', 'i', 'l', 'e', 'd']) by { assert(seq!['r', 'u', 'n', 'n', 'i', 'n', 'g'].len() != seq!['f', 'a', 'i', 'l', 'e', 'd'].len()); }
    assert(seq!['r', 'u', 'n', 'n', 'i', 'n', 'g'] != seq!['c', 'a', 'n', 'c', 'e', 'l', 'l', 'e', 'd']) by { assert(seq!['r', 'u', 'n', 'n', 'i', 'n', 'g'].len() != seq!['c', 'a', 'n', 'c', 'e', 'l', 'l', 'e', 'd'].len()); }
    assert(seq!['d', 'o', 'n', 'e'] != seq!['f', 'a', 'i', 'l', 'e', 'd']) by { assert(seq!['d', 'o', 'n', 'e'].len() != seq!['f', 'a', 'i', 'l', 'e', 'd'].len()); }
    assert(seq!['d', 'o', 'n', 'e'] != seq!['c', 'a', 'n', 'c', 'e', 'l', 'l', 'e', 'd']) by { assert(seq!['d', 'o', 'n', 'e'].len() != seq!['c', 'a', 'n', 'c', 'e', 'l', 'l', 'e', 'd'].len()); }
    assert(seq!['f', 'a', 'i', 'l', 'e', 'd'] != seq!['c', 'a', 'n', 'c', 'e', 'l', 'l', 'e', 'd']) by { assert(seq!['f', 'a', 'i', 'l', 'e', 'd'].len() != seq!['c', 'a', 'n', 'c', 'e', 'l', 'l', 'e', 'd'].len()); }
    assert(seq!['g', 'i', 't', 'h', 'u', 'b'] != seq!['g', 'i', 't', 'e', 'e']) by { assert(seq!['g', 'i', 't', 'h', 'u', 'b'].len() != seq!['g', 'i', 't', 'e', 'e'].len()); }
    assert(seq!['g', 'i', 't', 'h', 'u', 'b'] != seq!['g', 'i', 't', 'l', 'a', 'b']) by { assert(seq!['g', 'i', 't', 'h', 'u', 'b'][3] != seq!['g', 'i', 't', 'l', 'a', 'b'][3]); }
    assert(seq!['g', 'i', 't', 'h', 'u', 'b'] != seq!['o', 't', 'h', 'e', 'r']) by { assert(seq!['g', 'i', 't', 'h', 'u', 'b'].len() != seq!['o', 't', 'h', 'e', 'r'].len()); }
    assert(seq!['g', 'i', 't', 'e', 'e'] != seq!['g', 'i', 't', 'l', 'a', 'b']) by { assert(seq!['g', 'i', 't', 'e', 'e'].len() != seq!['g', 'i', 't', 'l', 'a', 'b'].len()); }
    assert(seq!['g', 'i', 't', 'e', 'e'] != seq!['o', 't', 'h', 'e', 'r']) by { assert(seq!['g', 'i', 't', 'e', 'e'][0] != seq!['o', 't', 'h', 'e', 'r'][0]); }
    assert(seq!['g', 'i', 't', 'l', 'a', 'b'] != seq!['o', 't', 'h', 'e', 'r']) by { assert(seq!['g', 'i', 't', 'l', 'a', 'b'].len() != seq!['o', 't', 'h', 'e', 'r'].len()); }
    assert(seq!['t', 'o', 'k', 'e', 'n'] != seq!['s', 's', 'h']) by { assert(seq!['t', 'o', 'k', 'e', 'n'].len() != seq!['s', 's', 'h'].len()); }
    assert(seq!['t', 'o', 'k', 'e', 'n'] != seq!['b', 'a', 's', 'i', 'c']) by { assert(seq!['t', 'o', 'k', 'e', 'n'][0] != seq!['b', 'a', 's', 'i', 'c'][0]); }
    assert(seq!['s', 's', 'h'] != seq!['b', 'a', 's', 'i', 'c']) by { assert(seq!['s', 's', 'h'].len() != seq!['b', 'a', 's', 'i', 'c'].len()); }
    assert(seq!['s', 'u', 'p', 'e', 'r', 'A', 'd', 'm', 'i', 'n'] != seq!['u', 's', 'e', 'r']) by { assert(seq!['s', 'u', 'p', 'e', 'r', 'A', 'd', 'm', 'i', 'n'].len() != seq!['u', 's', 'e', 'r'].len()); }
}

/// Reading the stored name of a task type gives the task type back.
pub proof fn lemma_task_type_round_trip(t: TaskType)
    ensures
        parse_task_type(task_type_name(t)) == Some(t),
{
    reveal_strlit("git_review");
    reveal_strlit("test_gen");
    reveal_strlit("custom");
    assert("git_review"@.len() != "test_gen"@.len());
    assert("git_review"@.len() != "custom"@.len());
    assert("test_gen"@.len() != "custom"@.len());
}

/// Reading the stored name of a definition status gives the status back.
pub proof fn lemma_definition_status_round_trip(t: TaskDefinitionStatus)
    ensures
        parse_definition_status(definition_status_name(t)) == Some(t),
{
    reveal_strlit("active");
    reveal_strlit("paused");
    assert("active"@[0] != "paused"@[0]);
}

/// Reading the stored name of a run status gives the status back.
pub proof fn lemma_task_status_round_trip(t: TaskStatus)
    ensures
        parse_task_status(task_status_name(t)) == Some(t),
{
    reveal_strlit("pending");
    reveal_strlit("running");
    reveal_strlit("done");
    reveal_strlit("failed");
    reveal_strlit("cancelled");
    assert("pending"@[0] != "running"@[0]);
    assert("pending"@.len() != "done"@.len());
    assert("pending"@.len() != "failed"@.len());
    assert("pending"@.len() != "cancelled"@.len());
    assert("running"@.len() != "done"@.len());
    assert("running"@.len() != "failed"@.len());
    assert("running"@.len() != "cancelled"@.len());
    assert("done"@.len() != "failed"@.len());
    assert("done"@.len() != "cancelled"@.len());
    assert("failed"@.len() != "cancelled"@.len());
}

/// Reading the stored name of a platform gives the platform back.
pub proof fn lemma_git_platform_round_trip(t: GitPlatform)
    ensures
        parse_git_platform(git_platform_name(t)) == Some(t),
{
    reveal_strlit("github");
    reveal_strlit("gitee");
    reveal_strlit("gitlab");
    reveal_strlit("other");
    assert("github"@[3] != "gitee"@[3]);
    assert("github"@[3] != "gitlab"@[3]);
    assert("github"@[0] != "other"@[0]);
    assert("gitee"@.len() != "gitlab"@.len());
    assert("gitee"@[0] != "other"@[0]);
    assert("gitlab"@[0] != "other"@[0]);
}

/// Reading the stored name of an authentication type gives the type back.
pub proof fn lemma_git_auth_type_round_trip(t: GitAuthType)
    ensures
        parse_git_auth_type(git_auth_type_name(t)) == Some(t),
{
    reveal_strlit("token");
    reveal_strlit("ssh");
    reveal_strlit("basic");
    assert("token"@.len() != "ssh"@.len());
    assert("token"@[0] != "basic"@[0]);
    assert("ssh"@.len() != "basic"@.len());
}

} // verus!

verus! {

/// A task to create; the first run is due at `scheduled_at`.
#[derive(Debug, Clone)]
pub struct NewTask {
    pub name: String,
    pub task_type: TaskType,
    pub repo_id: Option<i64>,
    pub prompt: String,
    pub cron_expr: Option<String>,
    pub scheduled_at: i64,
}

/// New values for a task definition; a replacement run is due at `scheduled_at`.
#[derive(Debug, Clone)]
pub struct UpdateTask {
    pub name: String,
    pub task_type: TaskType,
    pub repo_id: Option<i64>,
    pub prompt: String,
    pub cron_expr: Option<String>,
    pub scheduled_at: i64,
}

/// A stored task definition.
#[derive(Debug, Clone)]
pub struct TaskDefinition {
    pub id: i64,
    pub name: String,
    pub task_type: TaskType,
    pub repo_id: Option<i64>,
    pub prompt: String,
    pub cron_expr: Option<String>,
    pub status: TaskDefinitionStatus,
    pub created_at: i64,
    pub updated_at: i64,
}

/// One stored run of a task definition.
#[derive(Debug, Clone)]
pub struct TaskRun {
    pub id: i64,
    pub task_id: i64,
    pub scheduled_at: i64,
    pub started_at: Option<i64>,
    pub finished_at: Option<i64>,
    pub status: TaskStatus,
    pub result: Option<String>,
    pub log: Option<String>,
    pub retry_count: i64,
    pub created_at: i64,
}

/// Run figures of one task definition.
#[derive(Debug, Clone)]
pub struct TaskRunStats {
    pub last_run_at: Option<i64>,
    pub last_run_status: Option<TaskStatus>,
    pub next_run_at: Option<i64>,
    pub total_runs: i64,
}

/// A run together with the definition it belongs to.
#[derive(Debug, Clone)]
pub struct Task {
    pub id: i64,
    pub task_id: i64,
    pub name: String,
    pub task_type: TaskType,
    pub repo_id: Option<i64>,
    pub prompt: String,
    pub cron_expr: Option<String>,
    pub scheduled_at: i64,
    pub started_at: Option<i64>,
    pub finished_at: Option<i64>,
    pub status: TaskStatus,
    pub result: Option<String>,
    pub log: Option<String>,
    pub retry_count: i64,
    pub created_at: i64,
}

impl Task {
    /// The firing of the run's cron expression that follows the run's own
    /// scheduled time; `None` for a one-shot run, which has no expression.
    pub fn next_scheduled_at(&self) -> (r: Result<Option<i64>, CronError>)
        ensures
            match self.cron_expr {
                None => r == Ok::<Option<i64>, CronError>(None),
                Some(e) => match r {
                    Ok(Some(t)) => next_fire(e@, self.scheduled_at) == Ok::<Option<i64>, Seq<char>>(Some(t))
                        && t > self.scheduled_at,
                    Ok(None) => false,
                    Err(CronError::Invalid(m)) => next_fire(e@, self.scheduled_at) == Err::<Option<i64>, Seq<char>>(m@),
                    Err(CronError::NoFutureSchedule) => next_fire(e@, self.scheduled_at) == Ok::<Option<i64>, Seq<char>>(None),
                },
            },
    {
        match &self.cron_expr {
            None => Ok(None),
            Some(expr) => match next_run_from_cron(expr.as_str(), self.scheduled_at) {
                Ok(t) => Ok(Some(t)),
                Err(e) => Err(e),
            },
        }
    }
}

/// A repository to register.
#[derive(Debug, Clone)]
pub struct NewGitRepo {
    pub name: String,
    pub repo_url: String,
    pub branch: String,
    pub local_path: String,
    pub review_cron: Option<String>,
    pub credential_id: Option<i64>,
    pub enabled: bool,
}

/// New values for a registered repository.
#[derive(Debug, Clone)]
pub struct UpdateGitRepo {
    pub name: String,
    pub repo_url: String,
    pub branch: String,
    pub local_path: String,
    pub review_cron: Option<String>,
    pub credential_id: Option<i64>,
    pub enabled: bool,
}

/// A registered repository.
#[derive(Debug, Clone)]
pub struct GitRepo {
    pub id: i64,
    pub name: String,
    pub repo_url: String,
    pub branch: String,
    pub local_path: String,
    pub review_cron: Option<String>,
    pub credential_id: Option<i64>,
    pub last_commit: Option<String>,
    pub enabled: bool,
    pub created_at: i64,
    pub updated_at: i64,
}

/// A git credential to store; secrets are already sealed.
#[derive(Debug, Clone)]
pub struct NewGitCredential {
    pub name: String,
    pub platform: GitPlatform,
    pub auth_type: GitAuthType,
    pub token: Option<String>,
    pub username: Option<String>,
    pub password: Option<String>,
    pub ssh_key_path: Option<String>,
}

/// New values for a stored git credential; secrets are already sealed.
#[derive(Debug, Clone)]
pub struct UpdateGitCredential {
    pub name: String,
    pub platform: GitPlatform,
    pub auth_type: GitAuthType,
    pub token: Option<String>,
    pub username: Option<String>,
    pub password: Option<String>,
    pub ssh_key_path: Option<String>,
}

/// A stored git credential; `token` and `password` are sealed.
#[derive(Debug, Clone)]
pub struct GitCredential {
    pub id: i64,
    pub name: String,
    pub platform: GitPlatform,
    pub auth_type: GitAuthType,
    pub token: Option<String>,
    pub username: Option<String>,
    pub password: Option<String>,
    pub ssh_key_path: Option<String>,
    pub created_at: i64,
    pub updated_at: i64,
}

impl GitCredential {
    /// A field-by-field copy of the credential.
    pub fn copied(&self) -> (r: GitCredential)
        ensures
            r == *self,
    {
        GitCredential {
            id: self.id,
            name: self.name.clone(),
            platform: self.platform,
            auth_type: self.auth_type,
            token: crate::text::clone_opt(&self.token),
            username: crate::text::clone_opt(&self.username),
            password: crate::text::clone_opt(&self.password),
            ssh_key_path: crate::text::clone_opt(&self.ssh_key_path),
            created_at: self.created_at,
            updated_at: self.updated_at,
        }
    }
}

/// A user to create.
#[derive(Debug, Clone)]
pub struct NewUser {
    pub email: String,
    pub display_name: String,
    pub password_hash: Option<String>,
    pub avatar_url: Option<String>,
}

/// New contact values of a user.
#[derive(Debug, Clone)]
pub struct UpdateUser {
    pub email: String,
    pub display_name: String,
}

/// A stored user; it is activated once it has a password hash.
#[derive(Debug, Clone)]
pub struct User {
    pub id: i64,
    pub email: String,
    pub display_name: String,
    pub password_hash: Option<String>,
    pub avatar_url: Option<String>,
    pub activated_at: Option<i64>,
    pub created_at: i64,
    pub updated_at: i64,
}

/// A message to deliver to a user.
#[derive(Debug, Clone)]
pub struct NewMessage {
    pub user_id: i64,
    pub title: String,
    pub repo_name: Option<String>,
    pub content: String,
    pub summary: String,
    pub report_path: Option<String>,
    pub commit_range: Option<String>,
}

/// A stored message of a user.
#[derive(Debug, Clone)]
pub struct Message {
    pub id: i64,
    pub user_id: i64,
    pub title: String,
    pub repo_name: Option<String>,
    pub content: String,
    pub summary: String,
    pub report_path: Option<String>,
    pub commit_range: Option<String>,
    pub is_read: bool,
    pub read_at: Option<i64>,
    pub created_at: i64,
    pub updated_at: i64,
}

} // verus!
