use git_helper::dispatch::{discovered_users, message_recipients, CommitAuthor};
use git_helper::migration::needs_legacy_migration;
use git_helper::models::{TaskDefinition, TaskDefinitionStatus, TaskRun, TaskStatus, TaskType, User};
use git_helper::notifier::NotifierDispatcher;
use git_helper::schedule::{
    cancel_pending_runs, cancel_run, finish_run, recover_stalled_runs, resume_task_plan, update_task_plan,
};

fn run(id: i64, task_id: i64, status: TaskStatus, started_at: Option<i64>, log: Option<&str>) -> TaskRun {
    TaskRun {
        id,
        task_id,
        scheduled_at: 10,
        started_at,
        finished_at: None,
        status,
        result: None,
        log: log.map(str::to_string),
        retry_count: 0,
        created_at: 1,
    }
}

fn user(id: i64, email: &str) -> User {
    User {
        id,
        email: email.to_string(),
        display_name: email.to_string(),
        password_hash: None,
        avatar_url: None,
        activated_at: None,
        created_at: 0,
        updated_at: 0,
    }
}

fn author(email: &str, name: &str) -> CommitAuthor {
    CommitAuthor { email: email.to_string(), name: name.to_string() }
}

#[test]
fn legacy_table_is_migrated_once() {
    assert!(needs_legacy_migration(true, 0, 3));
    assert!(!needs_legacy_migration(false, 0, 3));
    assert!(!needs_legacy_migration(true, 2, 3));
    assert!(!needs_legacy_migration(true, 0, 0));
}

#[test]
fn recovery_fails_only_stalled_runs() {
    let runs = vec![
        run(1, 1, TaskStatus::Running, Some(5), Some("started")),
        run(2, 1, TaskStatus::Running, Some(50), None),
        run(3, 1, TaskStatus::Pending, None, None),
    ];
    let after = recover_stalled_runs(&runs, 20, 100);
    assert_eq!(after.len(), 3);
    assert_eq!(after[0].status, TaskStatus::Failed);
    assert_eq!(after[0].finished_at, Some(100));
    assert_eq!(after[0].result.as_deref(), Some("execution timeout on recovery"));
    assert_eq!(after[0].log.as_deref(), Some("started\nexecution timeout on recovery"));
    assert_eq!(after[1].status, TaskStatus::Running);
    assert_eq!(after[1].finished_at, None);
    assert_eq!(after[2].status, TaskStatus::Pending);
}

#[test]
fn only_pending_runs_are_cancelled() {
    let pending = run(1, 1, TaskStatus::Pending, None, Some("queued"));
    let cancelled = cancel_run(&pending, 40, "task run cancelled").unwrap();
    assert_eq!(cancelled.status, TaskStatus::Cancelled);
    assert_eq!(cancelled.finished_at, Some(40));
    assert_eq!(cancelled.result.as_deref(), Some("task run cancelled"));
    assert_eq!(cancelled.log.as_deref(), Some("queued"));
    assert!(cancel_run(&run(2, 1, TaskStatus::Running, Some(1), None), 40, "x").is_none());
}

#[test]
fn pausing_cancels_the_task_pending_runs() {
    let runs = vec![
        run(1, 7, TaskStatus::Pending, None, None),
        run(2, 7, TaskStatus::Running, Some(3), None),
        run(3, 8, TaskStatus::Pending, None, None),
    ];
    let after = cancel_pending_runs(&runs, 7, 60, "task paused");
    assert_eq!(after[0].status, TaskStatus::Cancelled);
    assert_eq!(after[0].log.as_deref(), Some("task paused"));
    assert_eq!(after[1].status, TaskStatus::Running);
    assert_eq!(after[2].status, TaskStatus::Pending);
}

#[test]
fn finished_run_records_its_outcome() {
    let running = run(1, 1, TaskStatus::Running, Some(3), None);
    let done = finish_run(&running, TaskStatus::Done, Some("ok"), None, 90);
    assert_eq!(done.status, TaskStatus::Done);
    assert_eq!(done.finished_at, Some(90));
    assert_eq!(done.result.as_deref(), Some("ok"));
    assert_eq!(done.log, None);
    assert_eq!(done.started_at, Some(3));
}

#[test]
fn review_messages_go_to_commit_authors() {
    let users = vec![user(1, "a@x.io"), user(2, "b@x.io"), user(3, "c@x.io")];
    let authors = vec![author("c@x.io", "C"), author("a@x.io", "A")];
    assert_eq!(message_recipients(&users, Some(&authors)), vec![1, 3]);
    assert_eq!(message_recipients(&users, None), vec![1, 2, 3]);
}

#[test]
fn unknown_authors_become_inactive_users_once() {
    let users = vec![user(1, "a@x.io")];
    let authors = vec![author("n@x.io", "New"), author("a@x.io", "A"), author("n@x.io", "New again")];
    let created = discovered_users(&users, &authors);
    assert_eq!(created.len(), 1);
    assert_eq!(created[0].email, "n@x.io");
    assert_eq!(created[0].display_name, "New");
    assert!(created[0].password_hash.is_none());
}

fn definition(id: i64, cron_expr: Option<&str>) -> TaskDefinition {
    TaskDefinition {
        id,
        name: "d".to_string(),
        task_type: TaskType::Custom,
        repo_id: None,
        prompt: "p".to_string(),
        cron_expr: cron_expr.map(str::to_string),
        status: TaskDefinitionStatus::Paused,
        created_at: 0,
        updated_at: 0,
    }
}

#[test]
fn editing_a_task_requeues_it_unless_it_is_running() {
    let runs = vec![run(1, 7, TaskStatus::Pending, None, None), run(2, 7, TaskStatus::Done, Some(1), None)];
    let change = update_task_plan(TaskDefinitionStatus::Active, &runs, 7, 500, 60);
    assert_eq!(change.runs[0].status, TaskStatus::Cancelled);
    assert_eq!(change.runs[0].result.as_deref(), Some("task definition updated"));
    assert_eq!(change.runs[1].status, TaskStatus::Done);
    assert_eq!(change.new_run_at, Some(500));

    let busy = vec![run(1, 7, TaskStatus::Running, Some(1), None)];
    assert_eq!(update_task_plan(TaskDefinitionStatus::Active, &busy, 7, 500, 60).new_run_at, None);
    assert_eq!(update_task_plan(TaskDefinitionStatus::Paused, &runs, 7, 500, 60).new_run_at, None);
}

#[test]
fn resuming_queues_a_run_only_when_none_is_open() {
    let one_shot = definition(7, None);
    assert_eq!(resume_task_plan(&one_shot, &vec![run(1, 7, TaskStatus::Done, None, None)], 80), Ok(Some(80)));
    assert_eq!(resume_task_plan(&one_shot, &vec![run(1, 7, TaskStatus::Pending, None, None)], 80), Ok(None));
    assert_eq!(resume_task_plan(&one_shot, &vec![run(1, 8, TaskStatus::Running, Some(1), None)], 80), Ok(Some(80)));
}

#[test]
fn default_dispatcher_has_no_channels() {
    let d = NotifierDispatcher::default();
    assert!(!d.is_enabled());
    assert!(d.channel_list().is_empty());
}
