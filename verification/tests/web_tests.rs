use git_helper::credentials::CredentialCipher;
use git_helper::git_auth::{decrypt_git_credential, ResolvedGitAuth};
use git_helper::models::{GitAuthType, GitCredential, GitPlatform, GitRepo, Message, TaskDefinition, TaskDefinitionStatus, TaskRun, TaskStatus, TaskType, User, UserRole};
use git_helper::web::admin::{
    build_new_credential_payload, build_updated_credential_payload, cloned_response, credential_to_response,
    lookup_name, normalize_optional, resolve_task_schedule, task_run_to_response, validate_cron_field,
    validate_repo_credential, validate_task_repo, CreateCredentialRequest, UpdateCredentialRequest,
};
use git_helper::web::auth::{activation_hash, check_activation, check_login, user_claims};
use git_helper::web::messages::{effective_page, effective_page_size, message_detail};
use git_helper::web::middleware::{bearer_token, require_admin, AuthUser};
use git_helper::mcp::GitCloneOutput;

const KEY: &str = "000102030405060708090a0b0c0d0e0f101112131415161718191a1b1c1d1e1f";

fn create(auth_type: &str, token: Option<&str>, username: Option<&str>, password: Option<&str>) -> CreateCredentialRequest {
    CreateCredentialRequest {
        name: "ci".to_string(),
        platform: " github ".to_string(),
        auth_type: auth_type.to_string(),
        token: token.map(str::to_string),
        username: username.map(str::to_string),
        password: password.map(str::to_string),
        ssh_key_path: None,
    }
}

fn stored(c: git_helper::models::NewGitCredential) -> GitCredential {
    GitCredential {
        id: 1,
        name: c.name,
        platform: c.platform,
        auth_type: c.auth_type,
        token: c.token,
        username: c.username,
        password: c.password,
        ssh_key_path: c.ssh_key_path,
        created_at: 0,
        updated_at: 0,
    }
}

fn user(hash: Option<&str>) -> User {
    User {
        id: 4,
        email: "dev@example.com".to_string(),
        display_name: "Dev".to_string(),
        password_hash: hash.map(str::to_string),
        avatar_url: None,
        activated_at: None,
        created_at: 0,
        updated_at: 0,
    }
}

#[test]
fn bearer_token_is_read_from_the_header() {
    assert_eq!(bearer_token(Some("Bearer abc.def")).unwrap(), "abc.def");
    let e = bearer_token(None).unwrap_err();
    assert_eq!((e.status, e.message.as_str()), (401, "missing authorization header"));
    let e = bearer_token(Some("Basic xyz")).unwrap_err();
    assert_eq!((e.status, e.message.as_str()), (401, "invalid authorization scheme"));
}

#[test]
fn roles_and_inboxes() {
    let admin = AuthUser { user_id: None, email: "root".to_string(), role: UserRole::SuperAdmin };
    let e = admin.require_user_id().unwrap_err();
    assert_eq!((e.status, e.message.as_str()), (403, "super admin account does not have message access"));
    assert!(require_admin(admin).is_ok());
    let member = AuthUser { user_id: Some(3), email: "u".to_string(), role: UserRole::User };
    assert_eq!(member.require_user_id().unwrap(), 3);
    let e = require_admin(member).unwrap_err();
    assert_eq!((e.status, e.message.as_str()), (403, "super admin role required"));
}

#[test]
fn optional_fields_are_trimmed_and_blank_ones_dropped() {
    assert_eq!(normalize_optional(Some("  x  ".to_string())), Some("x".to_string()));
    assert_eq!(normalize_optional(Some(" \t".to_string())), None);
    assert_eq!(normalize_optional(None), None);
}

#[test]
fn created_token_credential_opens_to_the_token() {
    let payload = build_new_credential_payload(KEY, create("token", Some(" ghp_1 "), Some("  "), None)).unwrap();
    assert_eq!(payload.platform, GitPlatform::Github);
    assert_eq!(payload.auth_type, GitAuthType::Token);
    assert_eq!(payload.username, None);
    assert!(payload.password.is_none());
    let sealed = payload.token.clone().unwrap();
    assert_ne!(sealed, "ghp_1");
    let cipher = CredentialCipher::from_hex_key(KEY).unwrap();
    let auth = decrypt_git_credential(&cipher, stored(payload)).unwrap();
    assert_eq!(auth, ResolvedGitAuth::Token { username: "x-access-token".to_string(), token: "ghp_1".to_string() });
}

#[test]
fn created_basic_credential_opens_to_user_and_password() {
    let payload = build_new_credential_payload(KEY, create("basic", None, Some("bob"), Some("pw"))).unwrap();
    let cipher = CredentialCipher::from_hex_key(KEY).unwrap();
    let auth = decrypt_git_credential(&cipher, stored(payload)).unwrap();
    assert_eq!(auth, ResolvedGitAuth::Basic { username: "bob".to_string(), password: "pw".to_string() });
}

#[test]
fn creation_errors_in_order() {
    let mut req = create("token", Some("t"), None, None);
    req.platform = "bitbucket".to_string();
    let e = build_new_credential_payload(KEY, req).unwrap_err();
    assert_eq!((e.status, e.message.as_str()), (400, "unsupported git platform: bitbucket"));
    let e = build_new_credential_payload(KEY, create("oauth", Some("t"), None, None)).unwrap_err();
    assert_eq!((e.status, e.message.as_str()), (400, "unsupported git auth type: oauth"));
    let e = build_new_credential_payload("xyz", create("token", Some("t"), None, None)).unwrap_err();
    assert_eq!((e.status, e.message.as_str()), (500, "invalid credentials encryption key hex"));
    let e = build_new_credential_payload(KEY, create("token", Some("   "), None, None)).unwrap_err();
    assert_eq!((e.status, e.message.as_str()), (400, "token auth requires token"));
    let e = build_new_credential_payload(KEY, create("basic", None, Some("bob"), None)).unwrap_err();
    assert_eq!((e.status, e.message.as_str()), (400, "basic auth requires password"));
    let e = build_new_credential_payload(KEY, create("ssh", None, None, None)).unwrap_err();
    assert_eq!((e.status, e.message.as_str()), (400, "ssh auth requires ssh_key_path"));
}

#[test]
fn update_keeps_a_stored_secret_left_out() {
    let created = build_new_credential_payload(KEY, create("token", Some("old"), None, None)).unwrap();
    let existing = stored(created);
    let req = UpdateCredentialRequest {
        name: "renamed".to_string(),
        platform: "gitlab".to_string(),
        auth_type: "token".to_string(),
        token: None,
        username: Some("me".to_string()),
        password: None,
        ssh_key_path: None,
    };
    let update = build_updated_credential_payload(KEY, req, &existing).unwrap();
    assert_eq!(update.token, existing.token);
    assert_eq!(update.name, "renamed");
    assert_eq!(update.username.as_deref(), Some("me"));

    let req = UpdateCredentialRequest {
        name: "renamed".to_string(),
        platform: "gitlab".to_string(),
        auth_type: "basic".to_string(),
        token: None,
        username: Some("me".to_string()),
        password: None,
        ssh_key_path: None,
    };
    let e = build_updated_credential_payload(KEY, req, &existing).unwrap_err();
    assert_eq!((e.status, e.message.as_str()), (400, "basic auth requires password"));
}

#[test]
fn pages_are_clamped() {
    assert_eq!(effective_page(0), 1);
    assert_eq!(effective_page(3), 3);
    assert_eq!(effective_page_size(0), 1);
    assert_eq!(effective_page_size(500), 100);
    assert_eq!(effective_page_size(20), 20);
}

#[test]
fn task_and_repo_checks() {
    let e = validate_task_repo(TaskType::GitReview, None, None).unwrap_err();
    assert_eq!((e.status, e.message.as_str()), (400, "repo_id is required for repository tasks"));
    let e = validate_task_repo(TaskType::TestGen, Some(9), None).unwrap_err();
    assert_eq!(e.message, "repository not found");
    assert!(validate_task_repo(TaskType::Custom, None, None).is_ok());
    let e = validate_repo_credential(Some(2), None).unwrap_err();
    assert_eq!(e.message, "credential not found");
    assert!(validate_repo_credential(None, None).is_ok());
}

#[test]
fn schedules_of_new_tasks() {
    assert_eq!(resolve_task_schedule(None, Some("1970-01-01T00:00:01Z"), 5), Ok(1_000_000_000));
    let e = resolve_task_schedule(None, Some("tomorrow"), 5).unwrap_err();
    assert_eq!((e.status, e.message.as_str()), (400, "invalid scheduled_at datetime"));
    assert_eq!(resolve_task_schedule(None, None, 77), Ok(77));
    assert_eq!(resolve_task_schedule(Some("0 0 * * *"), None, 0), Ok(86_400_000_000_000));
    let e = validate_cron_field(Some("nope"), "cron_expr", 0).unwrap_err();
    assert!(e.message.starts_with("invalid cron_expr: "));
    assert!(validate_cron_field(None, "cron_expr", 0).is_ok());
}

#[test]
fn names_and_responses() {
    let names = vec![(1, "a".to_string()), (2, "b".to_string()), (1, "c".to_string())];
    assert_eq!(lookup_name(&names, 1), Some("c".to_string()));
    assert_eq!(lookup_name(&names, 3), None);

    let cred = GitCredential {
        id: 5,
        name: "n".to_string(),
        platform: GitPlatform::Gitee,
        auth_type: GitAuthType::Ssh,
        token: None,
        username: None,
        password: Some("sealed".to_string()),
        ssh_key_path: Some("/k".to_string()),
        created_at: 0,
        updated_at: 0,
    };
    let r = credential_to_response(cred);
    assert_eq!((r.platform.as_str(), r.auth_type.as_str()), ("gitee", "ssh"));
    assert!(!r.has_token && r.has_password);
    assert_eq!(r.created_at, "1970-01-01T00:00:00+00:00");

    let defs = vec![TaskDefinition {
        id: 3,
        name: "nightly".to_string(),
        task_type: TaskType::GitReview,
        repo_id: Some(2),
        prompt: String::new(),
        cron_expr: None,
        status: TaskDefinitionStatus::Active,
        created_at: 0,
        updated_at: 0,
    }];
    let run = TaskRun {
        id: 8,
        task_id: 3,
        scheduled_at: 0,
        started_at: None,
        finished_at: None,
        status: TaskStatus::Pending,
        result: None,
        log: None,
        retry_count: 0,
        created_at: 0,
    };
    let r = task_run_to_response(run.clone(), &defs, &names).unwrap();
    assert_eq!((r.task_name.as_str(), r.repo_name.as_deref(), r.status.as_str()), ("nightly", Some("b"), "pending"));
    let orphan = TaskRun { task_id: 99, ..run };
    let e = task_run_to_response(orphan, &defs, &names).unwrap_err();
    assert_eq!((e.status, e.message.as_str()), (404, "task definition not found"));

    let sync = cloned_response(GitCloneOutput { path: "p".to_string(), branch: "main".to_string(), head: None });
    assert_eq!((sync.action.as_str(), sync.updated), ("cloned", true));

    let m = Message {
        id: 1,
        user_id: 4,
        title: "t".to_string(),
        repo_name: None,
        content: "c".to_string(),
        summary: "s".to_string(),
        report_path: None,
        commit_range: None,
        is_read: false,
        read_at: Some(5),
        created_at: 0,
        updated_at: 0,
    };
    assert!(message_detail(m).is_read);
}

#[test]
fn sign_in_and_activation() {
    assert_eq!(check_login(None, "pw").unwrap_err().message, "invalid credentials");
    assert_eq!(check_login(Some(user(None)), "pw").unwrap_err().status, 401);
    assert_eq!(check_activation(Some(&user(Some("h")))).unwrap_err().message, "account already activated");
    assert_eq!(check_activation(None).unwrap_err().status, 404);
    assert!(check_activation(Some(&user(None))).is_ok());

    let hash = activation_hash("s3cret").unwrap();
    let activated = user(Some(&hash));
    assert_eq!(check_login(Some(activated.clone()), "s3cret").unwrap().id, 4);
    assert_eq!(check_login(Some(activated), "wrong").unwrap_err().message, "invalid credentials");
    assert_eq!(check_login(Some(user(Some("not-a-hash"))), "s3cret").unwrap_err().status, 401);

    let claims = user_claims(&user(None), 1_000, 2).unwrap();
    assert_eq!(claims.exp, 1_000 + 7_200);
    assert_eq!(claims.sub, Some(4));
    assert_eq!(claims.role, UserRole::User);
}
