//! Core logic of the git-helper scheduler: configuration defaults, task and
//! credential models, cron normalisation, the task-run lifecycle, generated
//! test parsing, notification text and the admin request rules.

pub mod text;
pub mod models;
pub mod test_gen;
pub mod cron;
pub mod credentials;
pub mod git_auth;
pub mod schedule;
pub mod migration;
pub mod config;
pub mod codex;
pub mod notifier;
pub mod time;
pub mod jobs;
pub mod dispatch;
pub mod mcp;
pub mod db;
pub mod queries;
pub mod web;
