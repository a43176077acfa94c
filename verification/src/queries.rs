//! The filtered list queries of the store: which SQL text and which
//! arguments a combination of filters asks for. The page limit and offset
//! follow the filter arguments.

use vstd::prelude::*;

use crate::models::{definition_status_name, task_status_name, TaskDefinitionStatus, TaskStatus};

verus! {

/// An argument bound to a placeholder.
#[derive(Debug, Clone, PartialEq, Eq)]
pub enum SqlValue {
    Text(String),
    Integer(i64),
}

/// A filtered page query: the count of all matching rows, the page of them,
/// and the arguments of the filter (limit and offset come after them).
#[derive(Debug, Clone)]
pub struct FilteredQuery {
    pub count_sql: String,
    pub select_sql: String,
    pub args: Vec<SqlValue>,
}

pub open spec fn text_arg(v: SqlValue) -> Option<Seq<char>> {
    match v {
        SqlValue::Text(s) => Some(s@),
        SqlValue::Integer(_) => None,
    }
}

/// The columns of a task definition row.
pub open spec fn definition_columns() -> Seq<char> {
    "SELECT id, name, task_type, repo_id, prompt, cron_expr, status, created_at, updated_at FROM task_definitions"@
}

/// The columns of a task run row.
pub open spec fn run_columns() -> Seq<char> {
    "SELECT id, task_id, scheduled_at, started_at, finished_at, status, result, log, retry_count, created_at FROM task_runs"@
}

/// The filter and page clauses of the task definition list.
pub open spec fn definition_clauses(has_status: bool, has_type: bool) -> (Seq<char>, Seq<char>) {
    if has_status && has_type {
        (" WHERE status = ?1 AND task_type = ?2"@, " ORDER BY updated_at DESC, id DESC LIMIT ?3 OFFSET ?4"@)
    } else if has_status {
        (" WHERE status = ?1"@, " ORDER BY updated_at DESC, id DESC LIMIT ?2 OFFSET ?3"@)
    } else if has_type {
        (" WHERE task_type = ?1"@, " ORDER BY updated_at DESC, id DESC LIMIT ?2 OFFSET ?3"@)
    } else {
        (""@, " ORDER BY updated_at DESC, id DESC LIMIT ?1 OFFSET ?2"@)
    }
}

/// The page query of task definitions, newest update first, filtered by
/// status and type when they are given.
pub fn definition_page_query(status: Option<TaskDefinitionStatus>, task_type: Option<crate::models::TaskType>) -> (r: FilteredQuery)
    ensures
        ({
            let (filter, page) = definition_clauses(status is Some, task_type is Some);
            &&& r.count_sql@ == "SELECT COUNT(*) FROM task_definitions"@ + filter
            &&& r.select_sql@ == definition_columns() + filter + page
        }),
        r.args@.len() == (if status is Some { 1int } else { 0 }) + (if task_type is Some { 1int } else { 0 }),
        match status {
            Some(s) => text_arg(r.args@[0]) == Some(definition_status_name(s)),
            None => true,
        },
        match task_type {
            Some(t) => text_arg(r.args@[r.args@.len() - 1]) == Some(crate::models::task_type_name(t)),
            None => true,
        },
        (status is Some && task_type is Some) ==> r.count_sql@ == "SELECT COUNT(*) FROM task_definitions WHERE status = ?1 AND task_type = ?2"@
            && r.select_sql@ == "SELECT id, name, task_type, repo_id, prompt, cron_expr, status, created_at, updated_at FROM task_definitions WHERE status = ?1 AND task_type = ?2 ORDER BY updated_at DESC, id DESC LIMIT ?3 OFFSET ?4"@,
        (status is Some && task_type is None) ==> r.count_sql@ == "SELECT COUNT(*) FROM task_definitions WHERE status = ?1"@
            && r.select_sql@ == "SELECT id, name, task_type, repo_id, prompt, cron_expr, status, created_at, updated_at FROM task_definitions WHERE status = ?1 ORDER BY updated_at DESC, id DESC LIMIT ?2 OFFSET ?3"@,
        (status is None && task_type is Some) ==> r.count_sql@ == "SELECT COUNT(*) FROM task_definitions WHERE task_type = ?1"@
            && r.select_sql@ == "SELECT id, name, task_type, repo_id, prompt, cron_expr, status, created_at, updated_at FROM task_definitions WHERE task_type = ?1 ORDER BY updated_at DESC, id DESC LIMIT ?2 OFFSET ?3"@,
        (status is None && task_type is None) ==> r.count_sql@ == "SELECT COUNT(*) FROM task_definitions"@
            && r.select_sql@ == "SELECT id, name, task_type, repo_id, prompt, cron_expr, status, created_at, updated_at FROM task_definitions ORDER BY updated_at DESC, id DESC LIMIT ?1 OFFSET ?2"@,
{
    proof {
        lemma_definition_query_text(status is Some, task_type is Some);
    }
    let (filter, page) = match (status, task_type) {
        (Some(_), Some(_)) => (" WHERE status = ?1 AND task_type = ?2", " ORDER BY updated_at DESC, id DESC LIMIT ?3 OFFSET ?4"),
        (Some(_), None) => (" WHERE status = ?1", " ORDER BY updated_at DESC, id DESC LIMIT ?2 OFFSET ?3"),
        (None, Some(_)) => (" WHERE task_type = ?1", " ORDER BY updated_at DESC, id DESC LIMIT ?2 OFFSET ?3"),
        (None, None) => ("", " ORDER BY updated_at DESC, id DESC LIMIT ?1 OFFSET ?2"),
    };
    let mut args: Vec<SqlValue> = Vec::new();
    if let Some(s) = status {
        args.push(SqlValue::Text(s.as_str().to_owned()));
    }
    if let Some(t) = task_type {
        args.push(SqlValue::Text(t.as_str().to_owned()));
    }
    let count_sql = crate::text::concat2("SELECT COUNT(*) FROM task_definitions", filter);
    let select_sql = crate::text::concat3(
        "SELECT id, name, task_type, repo_id, prompt, cron_expr, status, created_at, updated_at FROM task_definitions",
        filter,
        page,
    );
    FilteredQuery { count_sql, select_sql, args }
}

/// The filter and page clauses of the run list.
pub open spec fn run_clauses(has_status: bool, has_task: bool) -> (Seq<char>, Seq<char>) {
    if has_status && has_task {
        (" WHERE status = ?1 AND task_id = ?2"@, " ORDER BY scheduled_at DESC, id DESC LIMIT ?3 OFFSET ?4"@)
    } else if has_status {
        (" WHERE status = ?1"@, " ORDER BY scheduled_at DESC, id DESC LIMIT ?2 OFFSET ?3"@)
    } else if has_task {
        (" WHERE task_id = ?1"@, " ORDER BY scheduled_at DESC, id DESC LIMIT ?2 OFFSET ?3"@)
    } else {
        (""@, " ORDER BY scheduled_at DESC, id DESC LIMIT ?1 OFFSET ?2"@)
    }
}

/// The SQL text of the page queries of task runs: with a status only, both queries keep exactly the runs whose status equals the first argument (`WHERE status = ?1`); with a task only, those of that task (`WHERE task_id = ?1`); with both, the conjunction of the two equalities; with neither, every run. Rows come latest schedule first, then highest id, limited and offset by the two arguments after the filter ones.
pub proof fn lemma_run_query_text(has_status: bool, has_task: bool)
    ensures
        (has_status && has_task) ==> "SELECT COUNT(*) FROM task_runs"@ + run_clauses(has_status, has_task).0 == "SELECT COUNT(*) FROM task_runs WHERE status = ?1 AND task_id = ?2"@
            && run_columns() + run_clauses(has_status, has_task).0 + run_clauses(has_status, has_task).1 == "SELECT id, task_id, scheduled_at, started_at, finished_at, status, result, log, retry_count, created_at FROM task_runs WHERE status = ?1 AND task_id = ?2 ORDER BY scheduled_at DESC, id DESC LIMIT ?3 OFFSET ?4"@,
        (has_status && !has_task) ==> "SELECT COUNT(*) FROM task_runs"@ + run_clauses(has_status, has_task).0 == "SELECT COUNT(*) FROM task_runs WHERE status = ?1"@
            && run_columns() + run_clauses(has_status, has_task).0 + run_clauses(has_status, has_task).1 == "SELECT id, task_id, scheduled_at, started_at, finished_at, status, result, log, retry_count, created_at FROM task_runs WHERE status = ?1 ORDER BY scheduled_at DESC, id DESC LIMIT ?2 OFFSET ?3"@,
        (!has_status && has_task) ==> "SELECT COUNT(*) FROM task_runs"@ + run_clauses(has_status, has_task).0 == "SELECT COUNT(*) FROM task_runs WHERE task_id = ?1"@
            && run_columns() + run_clauses(has_status, has_task).0 + run_clauses(has_status, has_task).1 == "SELECT id, task_id, scheduled_at, started_at, finished_at, status, result, log, retry_count, created_at FROM task_runs WHERE task_id = ?1 ORDER BY scheduled_at DESC, id DESC LIMIT ?2 OFFSET ?3"@,
        (!has_status && !has_task) ==> "SELECT COUNT(*) FROM task_runs"@ + run_clauses(has_status, has_task).0 == "SELECT COUNT(*) FROM task_runs"@
            && run_columns() + run_clauses(has_status, has_task).0 + run_clauses(has_status, has_task).1 == "SELECT id, task_id, scheduled_at, started_at, finished_at, status, result, log, retry_count, created_at FROM task_runs ORDER BY scheduled_at DESC, id DESC LIMIT ?1 OFFSET ?2"@,
{
    reveal_strlit("");
    reveal_strlit(" ORDER BY scheduled_at DESC, id DESC LIMIT ?1 OFFSET ?2");
    reveal_strlit(" ORDER BY scheduled_at DESC, id DESC LIMIT ?2 OFFSET ?3");
    reveal_strlit(" ORDER BY scheduled_at DESC, id DESC LIMIT ?3 OFFSET ?4");
    reveal_strlit(" WHERE status = ?1");
    reveal_strlit(" WHERE status = ?1 AND task_id = ?2");
    reveal_strlit(" WHERE task_id = ?1");
    reveal_strlit("SELECT COUNT(*) FROM task_runs");
    reveal_strlit("SELECT COUNT(*) FROM task_runs WHERE status = ?1");
    reveal_strlit("SELECT COUNT(*) FROM task_runs WHERE status = ?1 AND task_id = ?2");
    reveal_strlit("SELECT COUNT(*) FROM task_runs WHERE task_id = ?1");
    reveal_strlit("SELECT id, task_id, scheduled_at, started_at, finished_at, status, result, log, retry_count, created_at FROM task_runs");
    reveal_strlit("SELECT id, task_id, scheduled_at, started_at, finished_at, status, result, log, retry_count, created_at FROM task_runs ORDER BY scheduled_at DESC, id DESC LIMIT ?1 OFFSET ?2");
    reveal_strlit("SELECT id, task_id, scheduled_at, started_at, finished_at, status, result, log, retry_count, created_at FROM task_runs WHERE status = ?1 AND task_id = ?2 ORDER BY scheduled_at DESC, id DESC LIMIT ?3 OFFSET ?4");
    reveal_strlit("SELECT id, task_id, scheduled_at, started_at, finished_at, status, result, log, retry_count, created_at FROM task_runs WHERE status = ?1 ORDER BY scheduled_at DESC, id DESC LIMIT ?2 OFFSET ?3");
    reveal_strlit("SELECT id, task_id, scheduled_at, started_at, finished_at, status, result, log, retry_count, created_at FROM task_runs WHERE task_id = ?1 ORDER BY scheduled_at DESC, id DESC LIMIT ?2 OFFSET ?3");
    assert("SELECT COUNT(*) FROM task_runs"@ + " WHERE status = ?1 AND task_id = ?2"@ =~= "SELECT COUNT(*) FROM task_runs WHERE status = ?1 AND task_id = ?2"@);
    assert("SELECT id, task_id, scheduled_at, started_at, finished_at, status, result, log, retry_count, created_at FROM task_runs"@ + " WHERE status = ?1 AND task_id = ?2"@ + " ORDER BY scheduled_at DESC, id DESC LIMIT ?3 OFFSET ?4"@ =~= "SELECT id, task_id, scheduled_at, started_at, finished_at, status, result, log, retry_count, created_at FROM task_runs WHERE status = ?1 AND task_id = ?2 ORDER BY scheduled_at DESC, id DESC LIMIT ?3 OFFSET ?4"@);
    assert("SELECT COUNT(*) FROM task_runs"@ + " WHERE status = ?1"@ =~= "SELECT COUNT(*) FROM task_runs WHERE status = ?1"@);
    assert("SELECT id, task_id, scheduled_at, started_at, finished_at, status, result, log, retry_count, created_at FROM task_runs"@ + " WHERE status = ?1"@ + " ORDER BY scheduled_at DESC, id DESC LIMIT ?2 OFFSET ?3"@ =~= "SELECT id, task_id, scheduled_at, started_at, finished_at, status, result, log, retry_count, created_at FROM task_runs WHERE status = ?1 ORDER BY scheduled_at DESC, id DESC LIMIT ?2 OFFSET ?3"@);
    assert("SELECT COUNT(*) FROM task_runs"@ + " WHERE task_id = ?1"@ =~= "SELECT COUNT(*) FROM task_runs WHERE task_id = ?1"@);
    assert("SELECT id, task_id, scheduled_at, started_at, finished_at, status, result, log, retry_count, created_at FROM task_runs"@ + " WHERE task_id = ?1"@ + " ORDER BY scheduled_at DESC, id DESC LIMIT ?2 OFFSET ?3"@ =~= "SELECT id, task_id, scheduled_at, started_at, finished_at, status, result, log, retry_count, created_at FROM task_runs WHERE task_id = ?1 ORDER BY scheduled_at DESC, id DESC LIMIT ?2 OFFSET ?3"@);
    assert("SELECT COUNT(*) FROM task_runs"@ + ""@ =~= "SELECT COUNT(*) FROM task_runs"@);
    assert("SELECT id, task_id, scheduled_at, started_at, finished_at, status, result, log, retry_count, created_at FROM task_runs"@ + ""@ + " ORDER BY scheduled_at DESC, id DESC LIMIT ?1 OFFSET ?2"@ =~= "SELECT id, task_id, scheduled_at, started_at, finished_at, status, result, log, retry_count, created_at FROM task_runs ORDER BY scheduled_at DESC, id DESC LIMIT ?1 OFFSET ?2"@);
}

/// The SQL text of the page queries of task definitions: with a status only, both queries keep exactly the definitions whose status equals the first argument (`WHERE status = ?1`); with a type only, those of that type (`WHERE task_type = ?1`); with both, the conjunction; with neither, every definition. Rows come latest update first, then highest id, limited and offset by the two arguments after the filter ones.
pub proof fn lemma_definition_query_text(has_status: bool, has_type: bool)
    ensures
        (has_status && has_type) ==> "SELECT COUNT(*) FROM task_definitions"@ + definition_clauses(has_status, has_type).0 == "SELECT COUNT(*) FROM task_definitions WHERE status = ?1 AND task_type = ?2"@
            && definition_columns() + definition_clauses(has_status, has_type).0 + definition_clauses(has_status, has_type).1 == "SELECT id, name, task_type, repo_id, prompt, cron_expr, status, created_at, updated_at FROM task_definitions WHERE status = ?1 AND task_type = ?2 ORDER BY updated_at DESC, id DESC LIMIT ?3 OFFSET ?4"@,
        (has_status && !has_type) ==> "SELECT COUNT(*) FROM task_definitions"@ + definition_clauses(has_status, has_type).0 == "SELECT COUNT(*) FROM task_definitions WHERE status = ?1"@
            && definition_columns() + definition_clauses(has_status, has_type).0 + definition_clauses(has_status, has_type).1 == "SELECT id, name, task_type, repo_id, prompt, cron_expr, status, created_at, updated_at FROM task_definitions WHERE status = ?1 ORDER BY updated_at DESC, id DESC LIMIT ?2 OFFSET ?3"@,
        (!has_status && has_type) ==> "SELECT COUNT(*) FROM task_definitions"@ + definition_clauses(has_status, has_type).0 == "SELECT COUNT(*) FROM task_definitions WHERE task_type = ?1"@
            && definition_columns() + definition_clauses(has_status, has_type).0 + definition_clauses(has_status, has_type).1 == "SELECT id, name, task_type, repo_id, prompt, cron_expr, status, created_at, updated_at FROM task_definitions WHERE task_type = ?1 ORDER BY updated_at DESC, id DESC LIMIT ?2 OFFSET ?3"@,
        (!has_status && !has_type) ==> "SELECT COUNT(*) FROM task_definitions"@ + definition_clauses(has_status, has_type).0 == "SELECT COUNT(*) FROM task_definitions"@
            && definition_columns() + definition_clauses(has_status, has_type).0 + definition_clauses(has_status, has_type).1 == "SELECT id, name, task_type, repo_id, prompt, cron_expr, status, created_at, updated_at FROM task_definitions ORDER BY updated_at DESC, id DESC LIMIT ?1 OFFSET ?2"@,
{
    reveal_strlit("");
    reveal_strlit(" ORDER BY updated_at DESC, id DESC LIMIT ?1 OFFSET ?2");
    reveal_strlit(" ORDER BY updated_at DESC, id DESC LIMIT ?2 OFFSET ?3");
    reveal_strlit(" ORDER BY updated_at DESC, id DESC LIMIT ?3 OFFSET ?4");
    reveal_strlit(" WHERE status = ?1");
    reveal_strlit(" WHERE status = ?1 AND task_type = ?2");
    reveal_strlit(" WHERE task_type = ?1");
    reveal_strlit("SELECT COUNT(*) FROM task_definitions");
    reveal_strlit("SELECT COUNT(*) FROM task_definitions WHERE status = ?1");
    reveal_strlit("SELECT COUNT(*) FROM task_definitions WHERE status = ?1 AND task_type = ?2");
    reveal_strlit("SELECT COUNT(*) FROM task_definitions WHERE task_type = ?1");
    reveal_strlit("SELECT id, name, task_type, repo_id, prompt, cron_expr, status, created_at, updated_at FROM task_definitions");
    reveal_strlit("SELECT id, name, task_type, repo_id, prompt, cron_expr, status, created_at, updated_at FROM task_definitions ORDER BY updated_at DESC, id DESC LIMIT ?1 OFFSET ?2");
    reveal_strlit("SELECT id, name, task_type, repo_id, prompt, cron_expr, status, created_at, updated_at FROM task_definitions WHERE status = ?1 AND task_type = ?2 ORDER BY updated_at DESC, id DESC LIMIT ?3 OFFSET ?4");
    reveal_strlit("SELECT id, name, task_type, repo_id, prompt, cron_expr, status, created_at, updated_at FROM task_definitions WHERE status = ?1 ORDER BY updated_at DESC, id DESC LIMIT ?2 OFFSET ?3");
    reveal_strlit("SELECT id, name, task_type, repo_id, prompt, cron_expr, status, created_at, updated_at FROM task_definitions WHERE task_type = ?1 ORDER BY updated_at DESC, id DESC LIMIT ?2 OFFSET ?3");
    assert("SELECT COUNT(*) FROM task_definitions"@ + " WHERE status = ?1 AND task_type = ?2"@ =~= "SELECT COUNT(*) FROM task_definitions WHERE status = ?1 AND task_type = ?2"@);
    assert("SELECT id, name, task_type, repo_id, prompt, cron_expr, status, created_at, updated_at FROM task_definitions"@ + " WHERE status = ?1 AND task_type = ?2"@ + " ORDER BY updated_at DESC, id DESC LIMIT ?3 OFFSET ?4"@ =~= "SELECT id, name, task_type, repo_id, prompt, cron_expr, status, created_at, updated_at FROM task_definitions WHERE status = ?1 AND task_type = ?2 ORDER BY updated_at DESC, id DESC LIMIT ?3 OFFSET ?4"@);
    assert("SELECT COUNT(*) FROM task_definitions"@ + " WHERE status = ?1"@ =~= "SELECT COUNT(*) FROM task_definitions WHERE status = ?1"@);
    assert("SELECT id, name, task_type, repo_id, prompt, cron_expr, status, created_at, updated_at FROM task_definitions"@ + " WHERE status = ?1"@ + " ORDER BY updated_at DESC, id DESC LIMIT ?2 OFFSET ?3"@ =~= "SELECT id, name, task_type, repo_id, prompt, cron_expr, status, created_at, updated_at FROM task_definitions WHERE status = ?1 ORDER BY updated_at DESC, id DESC LIMIT ?2 OFFSET ?3"@);
    assert("SELECT COUNT(*) FROM task_definitions"@ + " WHERE task_type = ?1"@ =~= "SELECT COUNT(*) FROM task_definitions WHERE task_type = ?1"@);
    assert("SELECT id, name, task_type, repo_id, prompt, cron_expr, status, created_at, updated_at FROM task_definitions"@ + " WHERE task_type = ?1"@ + " ORDER BY updated_at DESC, id DESC LIMIT ?2 OFFSET ?3"@ =~= "SELECT id, name, task_type, repo_id, prompt, cron_expr, status, created_at, updated_at FROM task_definitions WHERE task_type = ?1 ORDER BY updated_at DESC, id DESC LIMIT ?2 OFFSET ?3"@);
    assert("SELECT COUNT(*) FROM task_definitions"@ + ""@ =~= "SELECT COUNT(*) FROM task_definitions"@);
    assert("SELECT id, name, task_type, repo_id, prompt, cron_expr, status, created_at, updated_at FROM task_definitions"@ + ""@ + " ORDER BY updated_at DESC, id DESC LIMIT ?1 OFFSET ?2"@ =~= "SELECT id, name, task_type, repo_id, prompt, cron_expr, status, created_at, updated_at FROM task_definitions ORDER BY updated_at DESC, id DESC LIMIT ?1 OFFSET ?2"@);
}

/// The page query of task runs, latest schedule first, filtered by status
/// and task when they are given.
pub fn run_page_query(status: Option<TaskStatus>, task_id: Option<i64>) -> (r: FilteredQuery)
    ensures
        ({
            let (filter, page) = run_clauses(status is Some, task_id is Some);
            &&& r.count_sql@ == "SELECT COUNT(*) FROM task_runs"@ + filter
            &&& r.select_sql@ == run_columns() + filter + page
        }),
        r.args@.len() == (if status is Some { 1int } else { 0 }) + (if task_id is Some { 1int } else { 0 }),
        match status {
            Some(s) => text_arg(r.args@[0]) == Some(task_status_name(s)),
            None => true,
        },
        match task_id {
            Some(id) => r.args@[r.args@.len() - 1] == SqlValue::Integer(id),
            None => true,
        },
        (status is Some && task_id is Some) ==> r.count_sql@ == "SELECT COUNT(*) FROM task_runs WHERE status = ?1 AND task_id = ?2"@
            && r.select_sql@ == "SELECT id, task_id, scheduled_at, started_at, finished_at, status, result, log, retry_count, created_at FROM task_runs WHERE status = ?1 AND task_id = ?2 ORDER BY scheduled_at DESC, id DESC LIMIT ?3 OFFSET ?4"@,
        (status is Some && task_id is None) ==> r.count_sql@ == "SELECT COUNT(*) FROM task_runs WHERE status = ?1"@
            && r.select_sql@ == "SELECT id, task_id, scheduled_at, started_at, finished_at, status, result, log, retry_count, created_at FROM task_runs WHERE status = ?1 ORDER BY scheduled_at DESC, id DESC LIMIT ?2 OFFSET ?3"@,
        (status is None && task_id is Some) ==> r.count_sql@ == "SELECT COUNT(*) FROM task_runs WHERE task_id = ?1"@
            && r.select_sql@ == "SELECT id, task_id, scheduled_at, started_at, finished_at, status, result, log, retry_count, created_at FROM task_runs WHERE task_id = ?1 ORDER BY scheduled_at DESC, id DESC LIMIT ?2 OFFSET ?3"@,
        (status is None && task_id is None) ==> r.count_sql@ == "SELECT COUNT(*) FROM task_runs"@
            && r.select_sql@ == "SELECT id, task_id, scheduled_at, started_at, finished_at, status, result, log, retry_count, created_at FROM task_runs ORDER BY scheduled_at DESC, id DESC LIMIT ?1 OFFSET ?2"@,
{
    proof {
        lemma_run_query_text(status is Some, task_id is Some);
    }
    let (filter, page) = match (status, task_id) {
        (Some(_), Some(_)) => (" WHERE status = ?1 AND task_id = ?2", " ORDER BY scheduled_at DESC, id DESC LIMIT ?3 OFFSET ?4"),
        (Some(_), None) => (" WHERE status = ?1", " ORDER BY scheduled_at DESC, id DESC LIMIT ?2 OFFSET ?3"),
        (None, Some(_)) => (" WHERE task_id = ?1", " ORDER BY scheduled_at DESC, id DESC LIMIT ?2 OFFSET ?3"),
        (None, None) => ("", " ORDER BY scheduled_at DESC, id DESC LIMIT ?1 OFFSET ?2"),
    };
    let mut args: Vec<SqlValue> = Vec::new();
    if let Some(s) = status {
        args.push(SqlValue::Text(s.as_str().to_owned()));
    }
    if let Some(id) = task_id {
        args.push(SqlValue::Integer(id));
    }
    let count_sql = crate::text::concat2("SELECT COUNT(*) FROM task_runs", filter);
    let select_sql = crate::text::concat3(
        "SELECT id, task_id, scheduled_at, started_at, finished_at, status, result, log, retry_count, created_at FROM task_runs",
        filter,
        page,
    );
    FilteredQuery { count_sql, select_sql, args }
}

} // verus!
