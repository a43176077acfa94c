use git_helper::git_auth::ResolvedGitAuth;
use git_helper::mcp::{
    branch_or_main, clone_output, credential_choice, diff_output, fetch_refspec, local_branch_ref, log_limit,
    log_output, mcp_endpoint, remote_branch_ref, route_method, route_tool, status_output, str_ge, CommitInfo,
    CredentialChoice, GitCloneArgs, GitLogArgs, JsonRpcError, McpMethod, McpTool, ToolDefinition, ToolResponse,
};

#[test]
fn json_rpc_error_codes() {
    let e = JsonRpcError::method_not_found();
    assert_eq!((e.code, e.message.as_str()), (-32601, "method not found"));
    let e = JsonRpcError::invalid_params("missing field `name`");
    assert_eq!((e.code, e.message.as_str()), (-32602, "invalid params: missing field `name`"));
    let e = JsonRpcError::internal("boom");
    assert_eq!((e.code, e.message.as_str()), (-32000, "internal error: boom"));
}

#[test]
fn five_read_only_tools_are_listed() {
    let tools = ToolDefinition::defaults();
    let names: Vec<&str> = tools.iter().map(|t| t.name).collect();
    assert_eq!(names, vec!["git_clone", "git_pull", "git_log", "git_diff", "git_status"]);
    assert_eq!(tools[3].description, "Produce a patch between two commits");
}

#[test]
fn methods_and_tools_are_routed_by_name() {
    assert_eq!(route_method("tools/list"), McpMethod::ToolsList);
    assert_eq!(route_method("tools/call"), McpMethod::ToolsCall);
    assert_eq!(route_method("initialize"), McpMethod::Unknown);
    assert_eq!(route_tool("git_diff"), Ok(McpTool::GitDiff));
    assert_eq!(route_tool("git_push"), Err("unsupported MCP tool: git_push".to_string()));
}

#[test]
fn tool_response_wraps_the_payload_text() {
    let r = ToolResponse::from_payload("{\"ok\":true}".to_string());
    assert_eq!(r.content.len(), 1);
    assert_eq!(r.content[0].kind, "text");
    assert_eq!(r.payload().map(|s| s.as_str()), Some("{\"ok\":true}"));
    assert_eq!(ToolResponse { content: vec![] }.payload(), None);
    assert_eq!(mcp_endpoint("http://127.0.0.1:3100"), "http://127.0.0.1:3100/mcp");
}

#[test]
fn git_defaults_and_references() {
    let args = GitCloneArgs { url: "u".to_string(), path: "p".to_string(), branch: None };
    assert_eq!(clone_output(&args, None).branch, "HEAD");
    assert_eq!(branch_or_main(None), "main");
    assert_eq!(branch_or_main(Some("dev")), "dev");
    assert_eq!(local_branch_ref("dev"), "refs/heads/dev");
    assert_eq!(remote_branch_ref("dev"), "refs/remotes/origin/dev");
    assert_eq!(fetch_refspec("dev"), "refs/heads/dev:refs/remotes/origin/dev");
    let log = GitLogArgs { path: "p".to_string(), count: None, since: None };
    assert_eq!(log_limit(&log), 10);
}

#[test]
fn credentials_offered_to_the_remote() {
    let token = ResolvedGitAuth::Token { username: "x-access-token".to_string(), token: "t".to_string() };
    assert_eq!(
        credential_choice(Some(&token), Some("ignored")),
        CredentialChoice::UserPass { username: "x-access-token".to_string(), password: "t".to_string() }
    );
    let ssh = ResolvedGitAuth::Ssh { username: "git".to_string(), key_path: "/k".to_string() };
    assert_eq!(
        credential_choice(Some(&ssh), Some("deploy")),
        CredentialChoice::SshKey { username: "deploy".to_string(), key_path: "/k".to_string() }
    );
    assert_eq!(credential_choice(None, None), CredentialChoice::Helper { username: "git".to_string() });
}

#[test]
fn log_since_compares_the_time_as_text() {
    assert!(str_ge("200", "1000"));
    assert!(!str_ge("100", "1000"));
    assert!(str_ge("abc", ""));
    let walked = vec![
        CommitInfo { id: "c3".to_string(), summary: "third".to_string(), time_secs: 300 },
        CommitInfo { id: "c2".to_string(), summary: "second".to_string(), time_secs: 200 },
        CommitInfo { id: "c1".to_string(), summary: "first".to_string(), time_secs: 1000 },
    ];
    let since = "250".to_string();
    let out = log_output(&walked, Some(&since));
    let ids: Vec<&str> = out.entries.iter().map(|e| e.id.as_str()).collect();
    assert_eq!(ids, vec!["c3"]);
    assert_eq!(log_output(&walked, None).entries.len(), 3);
}

#[test]
fn diff_and_status_flags() {
    assert!(diff_output("a", "b".to_string(), vec![], " \n".to_string()).is_empty);
    assert!(!diff_output("a", "b".to_string(), vec!["f".to_string()], "+x".to_string()).is_empty);
    assert!(status_output(None, None, vec![]).clean);
    assert!(!status_output(Some("main".to_string()), None, vec!["a.rs".to_string()]).clean);
}
