use git_helper::config::AppConfig;
use git_helper::credentials::CredentialCipher;
use git_helper::git_auth::{
    auth_mode_label, default_token_username, resolve_repo_auth_by_local_path, resolve_repo_auth_by_url_or_path,
    validate_git_credential_payload, GitAuthError, ResolvedGitAuth,
};
use git_helper::models::{GitAuthType, GitCredential, GitPlatform, GitRepo};

const KEY: &str = "000102030405060708090a0b0c0d0e0f101112131415161718191a1b1c1d1e1f";

fn repo(id: i64, credential_id: Option<i64>) -> GitRepo {
    GitRepo {
        id,
        name: "r".to_string(),
        repo_url: "https://example.com/r.git".to_string(),
        branch: "main".to_string(),
        local_path: "./repos/r".to_string(),
        review_cron: None,
        credential_id,
        last_commit: None,
        enabled: true,
        created_at: 0,
        updated_at: 0,
    }
}

fn token_credential(id: i64, token: &str) -> GitCredential {
    let cipher = CredentialCipher::from_hex_key(KEY).unwrap();
    GitCredential {
        id,
        name: "c".to_string(),
        platform: GitPlatform::Gitlab,
        auth_type: GitAuthType::Token,
        token: Some(cipher.encrypt(token).unwrap()),
        username: None,
        password: None,
        ssh_key_path: None,
        created_at: 0,
        updated_at: 0,
    }
}

fn config() -> AppConfig {
    let mut c = AppConfig::default();
    c.credentials.encryption_key = KEY.to_string();
    c
}

#[test]
fn payload_rules_per_auth_type() {
    let p = GitPlatform::Github;
    assert_eq!(
        validate_git_credential_payload(GitAuthType::Token, p, None, Some(" "), None, None),
        Err(GitAuthError::TokenRequired)
    );
    assert_eq!(
        validate_git_credential_payload(GitAuthType::Basic, p, Some("u"), None, Some("pw"), None),
        Ok(())
    );
    assert_eq!(
        validate_git_credential_payload(GitAuthType::Basic, p, None, None, Some("pw"), None),
        Err(GitAuthError::UsernameRequired)
    );
    assert_eq!(
        validate_git_credential_payload(GitAuthType::Ssh, p, None, None, None, None),
        Err(GitAuthError::SshKeyPathRequired)
    );
    assert_eq!(GitAuthError::SshKeyPathRequired.message(), "ssh auth requires ssh_key_path");
}

#[test]
fn default_usernames() {
    assert_eq!(default_token_username(GitPlatform::Github), "x-access-token");
    assert_eq!(default_token_username(GitPlatform::Gitee), "oauth2");
    assert_eq!(auth_mode_label(None), "credential-helper");
}

#[test]
fn repository_credential_is_opened_with_the_configured_key() {
    let creds = vec![token_credential(1, "other"), token_credential(2, "glpat")];
    let auth = resolve_repo_auth_by_local_path(&config(), Some(repo(1, Some(2))), &creds).unwrap();
    assert_eq!(auth, Some(ResolvedGitAuth::Token { username: "oauth2".to_string(), token: "glpat".to_string() }));
    assert_eq!(auth_mode_label(auth.as_ref()), "token");
    assert_eq!(resolve_repo_auth_by_local_path(&config(), Some(repo(1, None)), &creds), Ok(None));
    assert_eq!(resolve_repo_auth_by_local_path(&config(), None, &creds), Ok(None));
}

#[test]
fn missing_credential_and_bad_key_are_errors() {
    let creds = vec![token_credential(1, "t")];
    let e = resolve_repo_auth_by_local_path(&config(), Some(repo(1, Some(7))), &creds).unwrap_err();
    assert_eq!(e, GitAuthError::CredentialNotFound(7));
    assert_eq!(e.message(), "git credential 7 not found");
    let mut bad = config();
    bad.credentials.encryption_key = "abcd".to_string();
    let e = resolve_repo_auth_by_local_path(&bad, Some(repo(1, Some(1))), &creds).unwrap_err();
    assert_eq!(e.message(), "credentials encryption key must be 32 bytes / 64 hex chars");
}

#[test]
fn path_lookup_wins_over_url_lookup() {
    let creds = vec![token_credential(1, "by-path"), token_credential(2, "by-url")];
    let auth = resolve_repo_auth_by_url_or_path(&config(), Some(repo(1, Some(1))), Some(repo(2, Some(2))), &creds).unwrap();
    assert!(matches!(auth, Some(ResolvedGitAuth::Token { token, .. }) if token == "by-path"));
    let auth = resolve_repo_auth_by_url_or_path(&config(), None, Some(repo(2, Some(2))), &creds).unwrap();
    assert!(matches!(auth, Some(ResolvedGitAuth::Token { token, .. }) if token == "by-url"));
    assert_eq!(resolve_repo_auth_by_url_or_path(&config(), None, None, &creds), Ok(None));
}
