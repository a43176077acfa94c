//! Application settings: every section with the defaults that apply where
//! the configuration file leaves a value out, and the values derived from
//! them.

use std::time::Duration;

use vstd::prelude::*;

use crate::text::{decimal, is_blank};

verus! {

/// Scheduler loop settings.
#[derive(Debug, Clone)]
pub struct SchedulerConfig {
    pub interval_secs: u64,
    pub task_timeout_secs: u64,
    pub max_concurrency: usize,
    pub claim_batch_size: usize,
}

/// How the Codex command line is run.
#[derive(Debug, Clone)]
pub struct CodexConfig {
    pub api_key: String,
    pub command: String,
    pub model: String,
    pub max_retries: usize,
    pub timeout_secs: u64,
}

/// The account created as super administrator on first start.
#[derive(Debug, Clone)]
pub struct AdminConfig {
    pub email: String,
    pub password: String,
    pub display_name: String,
}

/// Where the MCP server listens.
#[derive(Debug, Clone)]
pub struct McpConfig {
    pub host: String,
    pub port: u16,
}

/// Where the SQLite database lives.
#[derive(Debug, Clone)]
pub struct DatabaseConfig {
    pub path: String,
}

/// Working directories of the jobs.
#[derive(Debug, Clone)]
pub struct RuntimeConfig {
    pub check_dir: String,
    pub tests_generated_dir: String,
}

/// One notification channel as configured.
#[derive(Debug, Clone)]
pub struct ChannelConfig {
    pub name: String,
    pub kind: String,
    pub enabled: bool,
    pub webhook_url: Option<String>,
    pub bot_token: Option<String>,
    pub chat_id: Option<String>,
    pub api_url: Option<String>,
    pub access_token: Option<String>,
    pub recipient: Option<String>,
}

/// The configured notification channels.
#[derive(Debug, Clone)]
pub struct NotifierConfig {
    pub channels: Vec<ChannelConfig>,
}

/// Log level and log file.
#[derive(Debug, Clone)]
pub struct LogConfig {
    pub level: String,
    pub file: String,
}

/// Web server settings.
#[derive(Debug, Clone)]
pub struct WebConfig {
    pub jwt_secret: String,
    pub token_expire_hours: u64,
    pub static_dir: String,
}

/// The key that seals stored git credentials, as hex text.
#[derive(Debug, Clone)]
pub struct CredentialsConfig {
    pub encryption_key: String,
}

/// The whole configuration.
#[derive(Debug, Clone)]
pub struct AppConfig {
    pub scheduler: SchedulerConfig,
    pub codex: CodexConfig,
    pub admin: AdminConfig,
    pub mcp: McpConfig,
    pub database: DatabaseConfig,
    pub runtime: RuntimeConfig,
    pub notifier: NotifierConfig,
    pub web: WebConfig,
    pub log: LogConfig,
    pub credentials: CredentialsConfig,
}

/// Default polling interval of the scheduler, in seconds.
pub fn default_interval_secs() -> (r: u64)
    ensures
        r == 1,
{
    1
}

/// Default time a task may run, in seconds.
pub fn default_task_timeout_secs() -> (r: u64)
    ensures
        r == 300,
{
    300
}

/// Default number of tasks run at once.
pub fn default_max_concurrency() -> (r: usize)
    ensures
        r == 4,
{
    4
}

/// Default number of runs claimed per poll.
pub fn default_claim_batch_size() -> (r: usize)
    ensures
        r == 16,
{
    16
}

/// Default Codex model.
pub fn default_model() -> (r: String)
    ensures
        r@ == "gpt-5.4"@,
{
    "gpt-5.4".to_owned()
}

/// Default Codex command.
pub fn default_codex_command() -> (r: String)
    ensures
        r@ == "codex"@,
{
    "codex".to_owned()
}

/// Default number of retries of a failed Codex call.
pub fn default_max_retries() -> (r: usize)
    ensures
        r == 2,
{
    2
}

/// Default MCP host.
pub fn default_host() -> (r: String)
    ensures
        r@ == "127.0.0.1"@,
{
    "127.0.0.1".to_owned()
}

/// Default display name of the super administrator.
pub fn default_admin_display_name() -> (r: String)
    ensures
        r@ == "Super Admin"@,
{
    "Super Admin".to_owned()
}

/// Default MCP port.
pub fn default_port() -> (r: u16)
    ensures
        r == 3100,
{
    3100
}

/// Default database file.
pub fn default_database_path() -> (r: String)
    ensures
        r@ == "data/scheduler.db"@,
{
    "data/scheduler.db".to_owned()
}

/// Default directory of checked-out repositories.
pub fn default_check_dir() -> (r: String)
    ensures
        r@ == "check"@,
{
    "check".to_owned()
}

/// Default directory of generated tests.
pub fn default_tests_generated_dir() -> (r: String)
    ensures
        r@ == "tests-generated"@,
{
    "tests-generated".to_owned()
}

/// Default log level.
pub fn default_log_level() -> (r: String)
    ensures
        r@ == "info"@,
{
    "info".to_owned()
}

/// Default log file.
pub fn default_log_file() -> (r: String)
    ensures
        r@ == "logs/git-helper.log"@,
{
    "logs/git-helper.log".to_owned()
}

/// A channel is enabled unless the configuration says otherwise.
pub fn default_true() -> (r: bool)
    ensures
        r,
{
    true
}

/// Default secret that signs session tokens.
pub fn default_jwt_secret() -> (r: String)
    ensures
        r@ == "change-me-before-production"@,
{
    "change-me-before-production".to_owned()
}

/// Default lifetime of a session token, in hours.
pub fn default_token_expire_hours() -> (r: u64)
    ensures
        r == 168,
{
    168
}

/// Default directory of the web front end.
pub fn default_static_dir() -> (r: String)
    ensures
        r@ == "web/dist"@,
{
    "web/dist".to_owned()
}

pub open spec fn scheduler_is_default(c: SchedulerConfig) -> bool {
    &&& c.interval_secs == 1
    &&& c.task_timeout_secs == 300
    &&& c.max_concurrency == 4
    &&& c.claim_batch_size == 16
}

pub open spec fn codex_is_default(c: CodexConfig) -> bool {
    &&& c.api_key@ == Seq::<char>::empty()
    &&& c.command@ == "codex"@
    &&& c.model@ == "gpt-5.4"@
    &&& c.max_retries == 2
    &&& c.timeout_secs == 300
}

pub open spec fn admin_is_default(c: AdminConfig) -> bool {
    &&& c.email@ == Seq::<char>::empty()
    &&& c.password@ == Seq::<char>::empty()
    &&& c.display_name@ == "Super Admin"@
}

pub open spec fn mcp_is_default(c: McpConfig) -> bool {
    c.host@ == "127.0.0.1"@ && c.port == 3100
}

pub open spec fn runtime_is_default(c: RuntimeConfig) -> bool {
    c.check_dir@ == "check"@ && c.tests_generated_dir@ == "tests-generated"@
}

pub open spec fn log_is_default(c: LogConfig) -> bool {
    c.level@ == "info"@ && c.file@ == "logs/git-helper.log"@
}

pub open spec fn web_is_default(c: WebConfig) -> bool {
    &&& c.jwt_secret@ == "change-me-before-production"@
    &&& c.token_expire_hours == 168
    &&& c.static_dir@ == "web/dist"@
}

/// Every section holds its defaults.
pub open spec fn app_is_default(c: AppConfig) -> bool {
    &&& scheduler_is_default(c.scheduler)
    &&& codex_is_default(c.codex)
    &&& admin_is_default(c.admin)
    &&& mcp_is_default(c.mcp)
    &&& c.database.path@ == "data/scheduler.db"@
    &&& runtime_is_default(c.runtime)
    &&& c.notifier.channels@.len() == 0
    &&& web_is_default(c.web)
    &&& log_is_default(c.log)
    &&& c.credentials.encryption_key@ == Seq::<char>::empty()
}

impl Default for SchedulerConfig {
    fn default() -> (r: Self)
        ensures
            scheduler_is_default(r),
    {
        SchedulerConfig {
            interval_secs: default_interval_secs(),
            task_timeout_secs: default_task_timeout_secs(),
            max_concurrency: default_max_concurrency(),
            claim_batch_size: default_claim_batch_size(),
        }
    }
}

impl Default for CodexConfig {
    fn default() -> (r: Self)
        ensures
            codex_is_default(r),
    {
        CodexConfig {
            api_key: String::new(),
            command: default_codex_command(),
            model: default_model(),
            max_retries: default_max_retries(),
            timeout_secs: default_task_timeout_secs(),
        }
    }
}

impl Default for AdminConfig {
    fn default() -> (r: Self)
        ensures
            admin_is_default(r),
    {
        AdminConfig {
            email: String::new(),
            password: String::new(),
            display_name: default_admin_display_name(),
        }
    }
}

impl Default for McpConfig {
    fn default() -> (r: Self)
        ensures
            mcp_is_default(r),
    {
        McpConfig { host: default_host(), port: default_port() }
    }
}

impl Default for DatabaseConfig {
    fn default() -> (r: Self)
        ensures
            r.path@ == "data/scheduler.db"@,
    {
        DatabaseConfig { path: default_database_path() }
    }
}

impl Default for RuntimeConfig {
    fn default() -> (r: Self)
        ensures
            runtime_is_default(r),
    {
        RuntimeConfig {
            check_dir: default_check_dir(),
            tests_generated_dir: default_tests_generated_dir(),
        }
    }
}

impl Default for NotifierConfig {
    fn default() -> (r: Self)
        ensures
            r.channels@.len() == 0,
    {
        NotifierConfig { channels: Vec::new() }
    }
}

impl Default for LogConfig {
    fn default() -> (r: Self)
        ensures
            log_is_default(r),
    {
        LogConfig { level: default_log_level(), file: default_log_file() }
    }
}

impl Default for WebConfig {
    fn default() -> (r: Self)
        ensures
            web_is_default(r),
    {
        WebConfig {
            jwt_secret: default_jwt_secret(),
            token_expire_hours: default_token_expire_hours(),
            static_dir: default_static_dir(),
        }
    }
}

impl Default for CredentialsConfig {
    fn default() -> (r: Self)
        ensures
            r.encryption_key@ == Seq::<char>::empty(),
    {
        CredentialsConfig { encryption_key: String::new() }
    }
}

impl Default for AppConfig {
    fn default() -> (r: Self)
        ensures
            app_is_default(r),
    {
        AppConfig {
            scheduler: SchedulerConfig::default(),
            codex: CodexConfig::default(),
            admin: AdminConfig::default(),
            mcp: McpConfig::default(),
            database: DatabaseConfig::default(),
            runtime: RuntimeConfig::default(),
            notifier: NotifierConfig::default(),
            web: WebConfig::default(),
            log: LogConfig::default(),
            credentials: CredentialsConfig::default(),
        }
    }
}

/// What `Duration::from_secs` gives for a number of seconds.
pub uninterp spec fn duration_of_secs(secs: u64) -> Duration;

/// `Duration::from_secs`: the duration of that many whole seconds.
#[verifier::external_body]
fn duration_from_secs(secs: u64) -> (r: Duration)
    ensures
        r == duration_of_secs(secs),
{
    Duration::from_secs(secs)
}

/// The configuration with the API key that the environment supplies:
/// `CODEX_API_KEY` if it is set, else `OPENAI_API_KEY` if that is set.
pub open spec fn with_api_key(c: AppConfig, codex_api_key: Option<String>, openai_api_key: Option<String>) -> AppConfig {
    match (codex_api_key, openai_api_key) {
        (Some(k), _) => AppConfig { codex: CodexConfig { api_key: k, ..c.codex }, ..c },
        (None, Some(k)) => AppConfig { codex: CodexConfig { api_key: k, ..c.codex }, ..c },
        (None, None) => c,
    }
}

/// The base URL under which the MCP server is reached.
pub open spec fn mcp_url(host: Seq<char>, port: u16) -> Seq<char> {
    "http://"@ + host + ":"@ + decimal(port as nat)
}

impl AppConfig {
    /// Applies the API key found in the environment; `codex_api_key` is the
    /// value of `CODEX_API_KEY` and `openai_api_key` that of `OPENAI_API_KEY`.
    pub fn apply_api_key_env(&mut self, codex_api_key: Option<String>, openai_api_key: Option<String>)
        ensures
            *final(self) == with_api_key(*old(self), codex_api_key, openai_api_key),
    {
        match codex_api_key {
            Some(k) => {
                self.codex.api_key = k;
            },
            None => match openai_api_key {
                Some(k) => {
                    self.codex.api_key = k;
                },
                None => {},
            },
        }
    }

    /// How long the scheduler waits between polls.
    pub fn scheduler_interval(&self) -> (r: Duration)
        ensures
            r == duration_of_secs(self.scheduler.interval_secs),
    {
        duration_from_secs(self.scheduler.interval_secs)
    }

    /// How long a task may run before it is stopped.
    pub fn task_timeout(&self) -> (r: Duration)
        ensures
            r == duration_of_secs(self.scheduler.task_timeout_secs),
    {
        duration_from_secs(self.scheduler.task_timeout_secs)
    }

    /// `http://host:port` of the MCP server.
    pub fn mcp_base_url(&self) -> (r: String)
        ensures
            r@ == mcp_url(self.mcp.host@, self.mcp.port),
    {
        let port = crate::text::decimal_string(self.mcp.port as u64);
        let mut r = "http://".to_owned();
        r.append(self.mcp.host.as_str());
        r.append(":");
        r.append(port.as_str());
        proof {
            reveal_strlit("http://");
            reveal_strlit(":");
        }
        r
    }
}

impl AdminConfig {
    /// An administrator is configured when the email is not blank and the
    /// password not empty.
    pub fn is_configured(&self) -> (r: bool)
        ensures
            r == (!is_blank(self.email@) && self.password@.len() > 0),
    {
        !crate::text::blank(self.email.as_str()) && self.password.as_str().unicode_len() > 0
    }
}

} // verus!
