use git_helper::codex::{exec_failure, output_lines, parse_codex_output, CodexError, CodexEvent, CodexExecutor, RetryAction};
use git_helper::config::CodexConfig;

fn config(api_key: &str, command: &str, max_retries: usize) -> CodexConfig {
    CodexConfig {
        api_key: api_key.to_string(),
        command: command.to_string(),
        model: "gpt-5.4".to_string(),
        max_retries,
        timeout_secs: 5,
    }
}

fn answer(stdout: &str, events: Vec<Option<CodexEvent>>) -> Result<String, CodexError> {
    let lines = output_lines(stdout);
    assert_eq!(lines.len(), events.len());
    parse_codex_output(&lines, &events)
}

#[test]
fn blank_command_is_refused() {
    assert!(matches!(CodexExecutor::new(config("k", "  ", 0)), Err(CodexError::EmptyCommand)));
    assert_eq!(CodexError::EmptyCommand.message(), "codex command is empty");
}

#[test]
fn command_line_carries_model_path_and_prompt() {
    let executor = CodexExecutor::new(config("test-key", "codex", 0)).unwrap();
    assert_eq!(
        executor.command_args("payload", Some("/repo")),
        vec!["exec", "--model", "gpt-5.4", "--approval-mode", "never", "--json", "--path", "/repo", "payload"]
    );
    assert_eq!(
        executor.command_args("hello", None),
        vec!["exec", "--model", "gpt-5.4", "--approval-mode", "never", "--json", "hello"]
    );
}

#[test]
fn api_key_is_passed_only_when_set() {
    let with_key = CodexExecutor::new(config("test-key", "codex", 0)).unwrap();
    assert_eq!(with_key.api_key_env(), Some("test-key".to_string()));
    let local_login = CodexExecutor::new(config("", "codex", 0)).unwrap();
    assert_eq!(local_login.api_key_env(), None);
}

#[test]
fn retries_back_off_from_two_seconds() {
    let executor = CodexExecutor::new(config("", "codex", 2)).unwrap();
    assert_eq!(executor.attempts(), 3);
    assert_eq!(executor.retry_delay_secs(0), Some(2));
    assert_eq!(executor.retry_delay_secs(1), Some(4));
    assert_eq!(executor.retry_delay_secs(2), None);
    let once = CodexExecutor::new(config("", "codex", 0)).unwrap();
    assert_eq!(once.attempts(), 1);
    assert_eq!(once.retry_delay_secs(0), None);
}

#[test]
fn executor_parses_jsonl_agent_messages() {
    let out = answer(
        "{\"type\":\"thread.started\"}\n{\"type\":\"item.agent_message\",\"content\":\"review result\"}\n",
        vec![
            Some(CodexEvent::Other),
            Some(CodexEvent::AgentMessage { content: "review result".to_string() }),
        ],
    );
    assert_eq!(out.unwrap(), "review result");
}

#[test]
fn plain_lines_and_messages_are_joined() {
    let out = answer(
        "\n  \nplain text\r\n{\"type\":\"item.agent_message\",\"content\":\"  \"}\n{\"type\":\"item.agent_message\",\"content\":\"second\"}",
        vec![
            None,
            Some(CodexEvent::AgentMessage { content: "  ".to_string() }),
            Some(CodexEvent::AgentMessage { content: "second".to_string() }),
        ],
    );
    assert_eq!(out.unwrap(), "plain text\nsecond");
}

#[test]
fn failed_turn_stops_the_output() {
    let out = answer(
        "{\"type\":\"turn.failed\",\"error\":\"quota\"}\nlater\n",
        vec![Some(CodexEvent::TurnFailed { error: "quota".to_string() }), None],
    );
    let err = out.unwrap_err();
    assert_eq!(err, CodexError::TurnFailed("quota".to_string()));
    assert_eq!(err.message(), "codex turn failed: quota");
}

#[test]
fn empty_answer_is_an_error() {
    let out = answer("{\"type\":\"thread.started\"}\n", vec![Some(CodexEvent::Other)]);
    assert_eq!(out, Err(CodexError::NoAgentMessage));
    assert_eq!(CodexError::NoAgentMessage.message(), "codex returned no agent message");
}

#[test]
fn failed_process_reports_trimmed_stderr() {
    let e = exec_failure("  boom \n");
    assert_eq!(e.message(), "codex exec failed: boom");
}

#[test]
fn executor_allows_local_codex_auth_without_api_key() {
    let executor = CodexExecutor::new(config("", "codex", 0)).unwrap();
    assert_eq!(executor.api_key_env(), None);
    let out = answer(
        "{\"type\":\"item.agent_message\",\"content\":\"ok\"}\n",
        vec![Some(CodexEvent::AgentMessage { content: "ok".to_string() })],
    );
    assert_eq!(out.unwrap(), "ok");
}

#[test]
fn executor_includes_work_dir_argument() {
    let executor = CodexExecutor::new(config("test-key", "codex", 0)).unwrap();
    let args = executor.command_args("payload", Some("/tmp/work/repo"));
    assert!(args.iter().any(|a| a == "--path"));
    assert!(args.iter().any(|a| a == "/tmp/work/repo"));
}

#[test]
fn attempts_stop_on_success_or_when_retries_run_out() {
    let executor = CodexExecutor::new(config("", "codex", 2)).unwrap();
    assert_eq!(executor.after_attempt(0, true), RetryAction::Done);
    assert_eq!(executor.after_attempt(0, false), RetryAction::RetryAfter(2));
    assert_eq!(executor.after_attempt(1, false), RetryAction::RetryAfter(4));
    assert_eq!(executor.after_attempt(2, false), RetryAction::GiveUp);
}
