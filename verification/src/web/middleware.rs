//! Who is calling: the bearer token of a request, the identity in it, and
//! the checks that an endpoint asks of that identity.

use vstd::prelude::*;

use crate::models::UserRole;
use crate::web::{ApiError, FORBIDDEN, UNAUTHORIZED};

verus! {

/// The caller of a request, as its token names it. The super administrator
/// configured in the settings has no user id.
#[derive(Debug, Clone)]
pub struct AuthUser {
    pub user_id: Option<i64>,
    pub email: String,
    pub role: UserRole,
}

/// A caller that holds the super administrator role.
#[derive(Debug, Clone)]
pub struct RequireAdmin(pub AuthUser);

/// What a session token carries.
#[derive(Debug, Clone)]
pub struct Claims {
    pub sub: Option<i64>,
    pub email: String,
    pub role: UserRole,
    pub exp: usize,
}

impl AuthUser {
    /// The caller's user id; the super administrator has none and so no inbox.
    pub fn require_user_id(&self) -> (r: Result<i64, ApiError>)
        ensures
            match self.user_id {
                Some(id) => r == Ok::<i64, ApiError>(id),
                None => r matches Err(e) && e.status == FORBIDDEN
                    && e.message@ == "super admin account does not have message access"@,
            },
    {
        match self.user_id {
            Some(id) => Ok(id),
            None => Err(ApiError::new(FORBIDDEN, "super admin account does not have message access")),
        }
    }

    /// The caller named by decoded claims.
    pub fn from_claims(claims: Claims) -> (r: AuthUser)
        ensures
            r.user_id == claims.sub,
            r.email == claims.email,
            r.role == claims.role,
    {
        AuthUser { user_id: claims.sub, email: claims.email, role: claims.role }
    }
}

/// The token of an `Authorization` header: the text after `Bearer `.
pub fn bearer_token(header: Option<&str>) -> (r: Result<String, ApiError>)
    ensures
        match header {
            None => r matches Err(e) && e.status == UNAUTHORIZED && e.message@ == "missing authorization header"@,
            Some(h) => if h@.len() >= 7 && h@.take(7) == "Bearer "@ {
                r matches Ok(t) && t@ == h@.skip(7)
            } else {
                r matches Err(e) && e.status == UNAUTHORIZED && e.message@ == "invalid authorization scheme"@
            },
        },
{
    let h = match header {
        Some(h) => h,
        None => return Err(ApiError::new(UNAUTHORIZED, "missing authorization header")),
    };
    let v = crate::text::chars_of(h);
    let prefix = crate::text::chars_of("Bearer ");
    proof {
        reveal_strlit("Bearer ");
    }
    if v.len() >= 7 && crate::text::has_at(&v, 0, &prefix) {
        let t = crate::text::slice_chars(&v, 7, v.len());
        proof {
            assert(h@.take(7) =~= prefix@);
            assert(t@ =~= h@.skip(7));
        }
        Ok(crate::text::string_of(&t))
    } else {
        proof {
            if h@.len() >= 7 && h@.take(7) == "Bearer "@ {
                assert(h@.subrange(0, 7) =~= h@.take(7));
            }
        }
        Err(ApiError::new(UNAUTHORIZED, "invalid authorization scheme"))
    }
}

/// A token that failed to decode or has expired.
pub fn invalid_token() -> (r: ApiError)
    ensures
        r.status == UNAUTHORIZED,
        r.message@ == "invalid token"@,
{
    ApiError::new(UNAUTHORIZED, "invalid token")
}

/// Admits only the super administrator.
pub fn require_admin(user: AuthUser) -> (r: Result<RequireAdmin, ApiError>)
    ensures
        match r {
            Ok(RequireAdmin(u)) => user.role == UserRole::SuperAdmin && u == user,
            Err(e) => user.role != UserRole::SuperAdmin && e.status == FORBIDDEN
                && e.message@ == "super admin role required"@,
        },
{
    if user.role != UserRole::SuperAdmin {
        return Err(ApiError::new(FORBIDDEN, "super admin role required"));
    }
    Ok(RequireAdmin(user))
}


/// The caller of a request, from its `Authorization` header and what
/// decoding its token gave (`None` when the token is not a valid,
/// unexpired JWT under the configured secret): a missing header or another
/// scheme, then an invalid token, are refused with 401.
pub fn authenticate(header: Option<&str>, decoded: Option<Claims>) -> (r: Result<AuthUser, ApiError>)
    ensures
        match header {
            None => r matches Err(e) && e.status == UNAUTHORIZED && e.message@ == "missing authorization header"@,
            Some(h) => if !(h@.len() >= 7 && h@.take(7) == "Bearer "@) {
                r matches Err(e) && e.status == UNAUTHORIZED && e.message@ == "invalid authorization scheme"@
            } else {
                match decoded {
                    None => r matches Err(e) && e.status == UNAUTHORIZED && e.message@ == "invalid token"@,
                    Some(c) => r matches Ok(u) && u.user_id == c.sub && u.email == c.email && u.role == c.role,
                }
            },
        },
{
    let _token = bearer_token(header)?;
    match decoded {
        None => Err(invalid_token()),
        Some(c) => Ok(AuthUser::from_claims(c)),
    }
}

/// The super administrator behind a request: authenticated as by
/// `authenticate`, then refused with 403 unless its role is super admin.
pub fn authenticate_admin(header: Option<&str>, decoded: Option<Claims>) -> (r: Result<RequireAdmin, ApiError>)
    ensures
        match header {
            None => r matches Err(e) && e.status == UNAUTHORIZED,
            Some(h) => if !(h@.len() >= 7 && h@.take(7) == "Bearer "@) {
                r matches Err(e) && e.status == UNAUTHORIZED
            } else {
                match decoded {
                    None => r matches Err(e) && e.status == UNAUTHORIZED && e.message@ == "invalid token"@,
                    Some(c) => if c.role == UserRole::SuperAdmin {
                        r matches Ok(RequireAdmin(u)) && u.user_id == c.sub && u.email == c.email && u.role == c.role
                    } else {
                        r matches Err(e) && e.status == FORBIDDEN && e.message@ == "super admin role required"@
                    },
                }
            },
        },
{
    let user = authenticate(header, decoded)?;
    require_admin(user)
}

} // verus!
