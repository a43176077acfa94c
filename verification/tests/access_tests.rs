use git_helper::models::{Message, UserRole};
use git_helper::web::messages::open_message;
use git_helper::web::middleware::{authenticate, authenticate_admin, AuthUser, Claims};

fn claims(role: UserRole) -> Claims {
    Claims { sub: Some(4), email: "dev@example.com".to_string(), role, exp: 10 }
}

fn message() -> Message {
    Message {
        id: 9,
        user_id: 4,
        title: "t".to_string(),
        repo_name: None,
        content: "full".to_string(),
        summary: "s".to_string(),
        report_path: None,
        commit_range: None,
        is_read: true,
        read_at: Some(5),
        created_at: 0,
        updated_at: 0,
    }
}

#[test]
fn callers_are_authenticated_from_header_and_token() {
    let user = authenticate(Some("Bearer abc"), Some(claims(UserRole::User))).unwrap();
    assert_eq!(user.user_id, Some(4));
    assert_eq!(user.role, UserRole::User);
    assert_eq!(authenticate(None, Some(claims(UserRole::User))).unwrap_err().status, 401);
    assert_eq!(authenticate(Some("Basic abc"), Some(claims(UserRole::User))).unwrap_err().message, "invalid authorization scheme");
    assert_eq!(authenticate(Some("Bearer abc"), None).unwrap_err().message, "invalid token");
}

#[test]
fn only_super_admins_pass_the_admin_guard() {
    assert!(authenticate_admin(Some("Bearer abc"), Some(claims(UserRole::SuperAdmin))).is_ok());
    let refused = authenticate_admin(Some("Bearer abc"), Some(claims(UserRole::User))).unwrap_err();
    assert_eq!(refused.status, 403);
    assert_eq!(refused.message, "super admin role required");
    assert_eq!(authenticate_admin(Some("Bearer abc"), None).unwrap_err().status, 401);
}

#[test]
fn opening_a_message() {
    let member = AuthUser { user_id: Some(4), email: "dev@example.com".to_string(), role: UserRole::User };
    let detail = open_message(&member, Some(message())).unwrap();
    assert_eq!(detail.id, 9);
    assert_eq!(detail.content, "full");
    assert!(detail.is_read);
    assert_eq!(open_message(&member, None).unwrap_err().status, 404);
    let admin = AuthUser { user_id: None, email: "root".to_string(), role: UserRole::SuperAdmin };
    assert_eq!(open_message(&admin, Some(message())).unwrap_err().status, 403);
}
