use git_helper::migration::{plan_legacy_migration, LegacyTaskRow};
use git_helper::models::{TaskDefinition, TaskDefinitionStatus, TaskRun, TaskStatus, TaskType};
use git_helper::queries::{definition_page_query, run_page_query, SqlValue};
use git_helper::schedule::{
    can_cancel, enqueue_after_update, finish_followup, is_finished, is_open, page_offset, recovery_log,
    recovery_result, scheduled_at_for_definition, select_due_runs, select_stalled_runs, stall_threshold,
    FinishFollowup,
};

fn run(id: i64, scheduled_at: i64, status: TaskStatus, started_at: Option<i64>) -> TaskRun {
    TaskRun {
        id,
        task_id: 1,
        scheduled_at,
        started_at,
        finished_at: None,
        status,
        result: None,
        log: None,
        retry_count: 0,
        created_at: 0,
    }
}

fn definition(status: TaskDefinitionStatus, cron_expr: Option<&str>) -> TaskDefinition {
    TaskDefinition {
        id: 1,
        name: "d".to_string(),
        task_type: TaskType::Custom,
        repo_id: None,
        prompt: "p".to_string(),
        cron_expr: cron_expr.map(str::to_string),
        status,
        created_at: 0,
        updated_at: 0,
    }
}

#[test]
fn due_runs_are_claimed_oldest_first() {
    let runs = vec![
        run(1, 50, TaskStatus::Pending, None),
        run(2, 10, TaskStatus::Pending, None),
        run(3, 10, TaskStatus::Running, Some(5)),
        run(4, 200, TaskStatus::Pending, None),
        run(5, 10, TaskStatus::Pending, None),
    ];
    assert_eq!(select_due_runs(&runs, 100, 8), vec![1, 4, 0]);
    assert_eq!(select_due_runs(&runs, 100, 2), vec![1, 4]);
    assert!(select_due_runs(&runs, 5, 8).is_empty());
}

#[test]
fn stalled_runs_are_found() {
    let runs = vec![
        run(1, 0, TaskStatus::Running, Some(10)),
        run(2, 0, TaskStatus::Running, Some(500)),
        run(3, 0, TaskStatus::Pending, None),
        run(4, 0, TaskStatus::Running, None),
    ];
    assert_eq!(select_stalled_runs(&runs, 100), vec![0]);
    assert_eq!(stall_threshold(1_000_000_000_000, 300), Some(700_000_000_000));
    assert_eq!(stall_threshold(i64::MIN + 5, 1), None);
    assert_eq!(recovery_log(None), "execution timeout on recovery");
    assert_eq!(recovery_log(Some("")), "execution timeout on recovery");
    assert_eq!(recovery_log(Some("line")), "line\nexecution timeout on recovery");
    assert_eq!(recovery_result(Some("partial")), "partial");
    assert_eq!(recovery_result(None), "execution timeout on recovery");
}

#[test]
fn periodic_tasks_schedule_their_next_run() {
    let periodic = definition(TaskDefinitionStatus::Active, Some("0 0 * * *"));
    assert_eq!(finish_followup(&periodic, 0), Ok(FinishFollowup::ScheduleNext(86_400_000_000_000)));
    let one_shot = definition(TaskDefinitionStatus::Active, None);
    assert_eq!(finish_followup(&one_shot, 0), Ok(FinishFollowup::PauseDefinition));
    let paused = definition(TaskDefinitionStatus::Paused, Some("0 0 * * *"));
    assert_eq!(finish_followup(&paused, 0), Ok(FinishFollowup::Nothing));
    assert_eq!(scheduled_at_for_definition(&one_shot, 42), Ok(42));
}

#[test]
fn status_rules() {
    assert!(can_cancel(TaskStatus::Pending));
    assert!(!can_cancel(TaskStatus::Running));
    assert!(is_open(TaskStatus::Running) && !is_open(TaskStatus::Done));
    assert!(is_finished(TaskStatus::Cancelled) && !is_finished(TaskStatus::Pending));
    assert!(enqueue_after_update(TaskDefinitionStatus::Active, false));
    assert!(!enqueue_after_update(TaskDefinitionStatus::Active, true));
    assert!(!enqueue_after_update(TaskDefinitionStatus::Paused, false));
    assert_eq!(page_offset(0, 20), 0);
    assert_eq!(page_offset(3, 20), 40);
}

#[test]
fn list_queries_follow_the_filters() {
    let q = definition_page_query(Some(TaskDefinitionStatus::Active), Some(TaskType::TestGen));
    assert_eq!(q.count_sql, "SELECT COUNT(*) FROM task_definitions WHERE status = ?1 AND task_type = ?2");
    assert!(q.select_sql.ends_with("WHERE status = ?1 AND task_type = ?2 ORDER BY updated_at DESC, id DESC LIMIT ?3 OFFSET ?4"));
    assert_eq!(q.args, vec![SqlValue::Text("active".to_string()), SqlValue::Text("test_gen".to_string())]);
    let q = definition_page_query(None, None);
    assert_eq!(q.count_sql, "SELECT COUNT(*) FROM task_definitions");
    assert!(q.args.is_empty());
    let q = run_page_query(None, Some(9));
    assert_eq!(q.count_sql, "SELECT COUNT(*) FROM task_runs WHERE task_id = ?1");
    assert!(q.select_sql.ends_with(" ORDER BY scheduled_at DESC, id DESC LIMIT ?2 OFFSET ?3"));
    assert_eq!(q.args, vec![SqlValue::Integer(9)]);
}

fn legacy(name: &str, cron: Option<&str>, status: TaskStatus, updated_at: i64) -> LegacyTaskRow {
    LegacyTaskRow {
        name: name.to_string(),
        task_type: TaskType::Custom,
        repo_id: None,
        prompt: "p".to_string(),
        cron_expr: cron.map(str::to_string),
        scheduled_at: updated_at,
        started_at: None,
        status,
        result: None,
        retry_count: 0,
        created_at: 1,
        updated_at,
    }
}

#[test]
fn legacy_rows_group_into_definitions() {
    let plan = plan_legacy_migration(vec![
        legacy("nightly", Some("0 0 * * *"), TaskStatus::Done, 10),
        legacy("once", None, TaskStatus::Done, 20),
        legacy("nightly", Some("0 0 * * *"), TaskStatus::Pending, 30),
        legacy("nightly", None, TaskStatus::Failed, 5),
    ]);
    assert_eq!(plan.definitions.len(), 3);
    assert_eq!(plan.runs.len(), 4);
    let defs: Vec<usize> = plan.runs.iter().map(|r| r.definition).collect();
    assert_eq!(defs, vec![0, 1, 0, 2]);
    assert_eq!(plan.definitions[0].status, TaskDefinitionStatus::Active);
    assert_eq!(plan.definitions[0].updated_at, 30);
    assert_eq!(plan.definitions[1].status, TaskDefinitionStatus::Paused);
    assert_eq!(plan.runs[0].finished_at, Some(10));
    assert_eq!(plan.runs[2].finished_at, None);
}
