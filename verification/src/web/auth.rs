//! Sign-in and account activation: when a request is admitted, the
//! password hashing with `bcrypt`, and what a session token claims.

use vstd::prelude::*;

use crate::models::{User, UserRole};
use crate::web::middleware::Claims;
use crate::web::{ApiError, BAD_REQUEST, INTERNAL_SERVER_ERROR, NOT_FOUND, UNAUTHORIZED};

verus! {

/// A sign-in request.
#[derive(Debug, Clone)]
pub struct LoginRequest {
    pub email: String,
    pub password: String,
}

/// A request to set the first password of an account.
#[derive(Debug, Clone)]
pub struct ActivateRequest {
    pub email: String,
    pub password: String,
}

/// The public view of a user.
#[derive(Debug, Clone, PartialEq, Eq)]
pub struct UserResponse {
    pub id: i64,
    pub email: String,
    pub display_name: String,
    pub avatar_url: Option<String>,
}

/// A session token with the user it belongs to.
#[derive(Debug, Clone)]
pub struct AuthResponse {
    pub token: String,
    pub user: UserResponse,
}

impl UserResponse {
    /// The public view of a stored user.
    pub fn from_user(user: User) -> (r: UserResponse)
        ensures
            r.id == user.id,
            r.email == user.email,
            r.display_name == user.display_name,
            r.avatar_url == user.avatar_url,
    {
        UserResponse { id: user.id, email: user.email, display_name: user.display_name, avatar_url: user.avatar_url }
    }
}

/// What `bcrypt::verify` answers for a password and a stored hash: whether
/// they match, or nothing when the hash cannot be read.
pub uninterp spec fn bcrypt_verifies(password: Seq<char>, hash: Seq<char>) -> Option<bool>;

/// `bcrypt::verify`, which reads the password as its UTF-8 bytes.
#[verifier::external_body]
fn bcrypt_verify(password: &str, hash: &str) -> (r: Option<bool>)
    ensures
        r == bcrypt_verifies(password@, hash@),
{
    bcrypt::verify(password, hash).ok()
}

/// `bcrypt::hash` at `bcrypt::DEFAULT_COST` with a fresh random salt; the
/// error text when it fails. A hash it returns verifies the same password.
#[verifier::external_body]
fn bcrypt_hash(password: &str) -> (r: Result<String, String>)
    ensures
        r matches Ok(h) ==> bcrypt_verifies(password@, h@) == Some(true),
{
    bcrypt::hash(password, bcrypt::DEFAULT_COST).map_err(|e| e.to_string())
}

/// The refusal of a sign-in, whatever its cause.
pub open spec fn is_invalid_credentials(e: ApiError) -> bool {
    e.status == UNAUTHORIZED && e.message@ == "invalid credentials"@
}

/// Whether `password` opens the account `u`: it is activated and its stored
/// hash matches the password.
pub open spec fn password_opens(u: User, password: Seq<char>) -> bool {
    match u.password_hash {
        Some(h) => bcrypt_verifies(password, h@) == Some(true),
        None => false,
    }
}

/// Admits a sign-in with `password` for `user`, the account stored under
/// the request's email: it must exist, be activated and have a hash that
/// the password matches.
pub fn check_login(user: Option<User>, password: &str) -> (r: Result<User, ApiError>)
    ensures
        match r {
            Ok(u) => user == Some(u) && password_opens(u, password@),
            Err(e) => is_invalid_credentials(e) && match user {
                Some(u) => !password_opens(u, password@),
                None => true,
            },
        },
{
    let user = match user {
        Some(u) => u,
        None => return Err(ApiError::new(UNAUTHORIZED, "invalid credentials")),
    };
    let ok = match &user.password_hash {
        Some(h) => bcrypt_verify(password, h.as_str()),
        None => return Err(ApiError::new(UNAUTHORIZED, "invalid credentials")),
    };
    match ok {
        Some(true) => Ok(user),
        _ => Err(ApiError::new(UNAUTHORIZED, "invalid credentials")),
    }
}

/// Admits the activation of `existing`, the account stored under the
/// request's email: it must exist and have no password yet.
pub fn check_activation(existing: Option<&User>) -> (r: Result<(), ApiError>)
    ensures
        match existing {
            None => r matches Err(e) && e.status == NOT_FOUND && e.message@ == "user not found"@,
            Some(u) => match u.password_hash {
                Some(_) => r matches Err(e) && e.status == BAD_REQUEST && e.message@ == "account already activated"@,
                None => r is Ok,
            },
        },
{
    match existing {
        None => Err(ApiError::new(NOT_FOUND, "user not found")),
        Some(u) => if u.password_hash.is_some() {
            Err(ApiError::new(BAD_REQUEST, "account already activated"))
        } else {
            Ok(())
        },
    }
}

/// The hash stored for a new password; a hashing failure is an internal error.
pub fn activation_hash(password: &str) -> (r: Result<String, ApiError>)
    ensures
        match r {
            Ok(h) => bcrypt_verifies(password@, h@) == Some(true),
            Err(e) => e.status == INTERNAL_SERVER_ERROR,
        },
{
    match bcrypt_hash(password) {
        Ok(h) => Ok(h),
        Err(m) => Err(ApiError::internal(m)),
    }
}

/// An account activated with a password accepts that password at sign-in:
/// the hash that activation stores opens the account to the same password.
pub proof fn lemma_activated_password_signs_in(password: Seq<char>, hash: String, user: User)
    requires
        bcrypt_verifies(password, hash@) == Some(true),
        user.password_hash == Some(hash),
    ensures
        password_opens(user, password),
{
}

/// The claims of a user's session token issued at `now_secs` (seconds since
/// the epoch): it expires `expire_hours` hours later.
pub fn user_claims(user: &User, now_secs: i64, expire_hours: u64) -> (r: Option<Claims>)
    ensures
        match r {
            Some(c) => {
                &&& c.sub == Some(user.id)
                &&& c.email == user.email
                &&& c.role == UserRole::User
                &&& c.exp == now_secs + expire_hours * 3600
            },
            None => !(0 <= now_secs + expire_hours * 3600 <= usize::MAX),
        },
{
    let exp: i128 = now_secs as i128 + (expire_hours as i128) * 3600;
    if exp < 0 || exp > usize::MAX as i128 {
        return None;
    }
    Some(Claims { sub: Some(user.id), email: user.email.clone(), role: UserRole::User, exp: exp as usize })
}

} // verus!
