use std::time::Duration;

use git_helper::config::{AdminConfig, AppConfig, CodexConfig, McpConfig};

#[test]
fn defaults_match_the_documented_configuration() {
    let c = AppConfig::default();
    assert_eq!(c.scheduler.interval_secs, 1);
    assert_eq!(c.scheduler.task_timeout_secs, 300);
    assert_eq!(c.scheduler.max_concurrency, 4);
    assert_eq!(c.scheduler.claim_batch_size, 16);
    assert_eq!(c.codex.command, "codex");
    assert_eq!(c.codex.model, "gpt-5.4");
    assert_eq!(c.codex.max_retries, 2);
    assert_eq!(c.codex.timeout_secs, 300);
    assert_eq!(c.codex.api_key, "");
    assert_eq!(c.mcp.host, "127.0.0.1");
    assert_eq!(c.mcp.port, 3100);
    assert_eq!(c.database.path, "data/scheduler.db");
    assert_eq!(c.runtime.check_dir, "check");
    assert_eq!(c.runtime.tests_generated_dir, "tests-generated");
    assert_eq!(c.web.jwt_secret, "change-me-before-production");
    assert_eq!(c.web.token_expire_hours, 168);
    assert_eq!(c.web.static_dir, "web/dist");
    assert_eq!(c.log.level, "info");
    assert_eq!(c.log.file, "logs/git-helper.log");
    assert_eq!(c.admin.display_name, "Super Admin");
    assert!(c.notifier.channels.is_empty());
    assert_eq!(c.credentials.encryption_key, "");
}

#[test]
fn durations_come_from_the_scheduler_section() {
    let mut c = AppConfig::default();
    assert_eq!(c.scheduler_interval(), Duration::from_secs(1));
    assert_eq!(c.task_timeout(), Duration::from_secs(300));
    c.scheduler.task_timeout_secs = 45;
    assert_eq!(c.task_timeout(), Duration::from_secs(45));
}

#[test]
fn mcp_base_url_joins_host_and_port() {
    let mut c = AppConfig::default();
    assert_eq!(c.mcp_base_url(), "http://127.0.0.1:3100");
    c.mcp = McpConfig { host: "0.0.0.0".to_string(), port: 8 };
    assert_eq!(c.mcp_base_url(), "http://0.0.0.0:8");
    c.mcp.port = 65535;
    assert_eq!(c.mcp_base_url(), "http://0.0.0.0:65535");
}

#[test]
fn codex_api_key_comes_first_from_codex_variable() {
    let mut c = AppConfig::default();
    c.apply_api_key_env(Some("codex-key".to_string()), Some("openai-key".to_string()));
    assert_eq!(c.codex.api_key, "codex-key");

    let mut c = AppConfig::default();
    c.apply_api_key_env(None, Some("openai-key".to_string()));
    assert_eq!(c.codex.api_key, "openai-key");

    let mut c = AppConfig::default();
    c.codex = CodexConfig { api_key: "from-file".to_string(), ..CodexConfig::default() };
    c.apply_api_key_env(None, None);
    assert_eq!(c.codex.api_key, "from-file");
}

#[test]
fn admin_needs_email_and_password() {
    let mut a = AdminConfig::default();
    assert!(!a.is_configured());
    a.email = "  admin@example.com ".to_string();
    assert!(!a.is_configured());
    a.password = " ".to_string();
    assert!(a.is_configured());
    a.email = "   ".to_string();
    assert!(!a.is_configured());
}
