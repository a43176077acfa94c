//! The web API: request and response shapes, and every decision a handler
//! makes between reading the request and answering it.

pub mod admin;
pub mod auth;
pub mod messages;
pub mod middleware;

use std::sync::Arc;

use vstd::prelude::*;

use crate::config::AppConfig;
use crate::db::Database;

verus! {

/// What every handler shares.
#[derive(Clone)]
pub struct AppState {
    pub config: Arc<AppConfig>,
    pub database: Database,
}

/// 400 Bad Request.
pub const BAD_REQUEST: u16 = 400;

/// 401 Unauthorized.
pub const UNAUTHORIZED: u16 = 401;

/// 403 Forbidden.
pub const FORBIDDEN: u16 = 403;

/// 404 Not Found.
pub const NOT_FOUND: u16 = 404;

/// 500 Internal Server Error.
pub const INTERNAL_SERVER_ERROR: u16 = 500;

/// An error answer: an HTTP status and the message put under `error`.
#[derive(Debug, Clone, PartialEq, Eq)]
pub struct ApiError {
    pub status: u16,
    pub message: String,
}

impl ApiError {
    /// An error answer with the given status and message.
    pub fn new(status: u16, message: &str) -> (r: ApiError)
        ensures
            r.status == status,
            r.message@ == message@,
    {
        ApiError { status, message: message.to_owned() }
    }

    /// A failure that is not the client's fault.
    pub fn internal(message: String) -> (r: ApiError)
        ensures
            r.status == INTERNAL_SERVER_ERROR,
            r.message == message,
    {
        ApiError { status: INTERNAL_SERVER_ERROR, message }
    }
}

} // verus!
