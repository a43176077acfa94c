use chrono::{TimeZone, Utc};
use git_helper::cron::{next_run_from_cron, next_run_from_schedule, normalize_cron_expression, CronError};
use git_helper::models::{Task, TaskStatus, TaskType};

fn instant(y: i32, mo: u32, d: u32, h: u32, mi: u32, s: u32) -> i64 {
    Utc.with_ymd_and_hms(y, mo, d, h, mi, s)
        .unwrap()
        .timestamp_nanos_opt()
        .unwrap()
}

#[test]
fn next_run_from_five_field_cron_works() {
    let after = instant(2026, 3, 13, 8, 30, 0);
    let next = next_run_from_cron("0 */1 * * 1-5", after).unwrap();

    assert_eq!(next, instant(2026, 3, 13, 9, 0, 0));
}

#[test]
fn next_run_from_five_field_cron_maps_sunday_correctly() {
    let after = instant(2026, 3, 13, 8, 30, 0);
    let next = next_run_from_cron("0 9 * * 0", after).unwrap();

    assert_eq!(next, instant(2026, 3, 15, 9, 0, 0));
}

#[test]
fn five_field_expression_gains_seconds_and_weekday_names() {
    assert_eq!(normalize_cron_expression("0 9 * * 1-5"), "0 0 9 * * Mon-Fri");
    assert_eq!(normalize_cron_expression("0 9 * * 0,7"), "0 0 9 * * Sun,Sun");
}

#[test]
fn six_field_expression_is_kept() {
    assert_eq!(normalize_cron_expression("0 0 9 * * MON"), "0 0 9 * * MON");
}

#[test]
fn next_run_is_strictly_after_the_instant() {
    let at_nine = instant(2026, 3, 13, 9, 0, 0);
    let next = next_run_from_cron("0 9 * * *", at_nine).unwrap();
    assert_eq!(next, instant(2026, 3, 14, 9, 0, 0));
}

#[test]
fn invalid_expression_is_refused() {
    let after = instant(2026, 3, 13, 8, 30, 0);
    assert!(matches!(next_run_from_cron("not a cron", after), Err(CronError::Invalid(_))));
}

#[test]
fn schedule_results_map_to_outcomes() {
    assert_eq!(next_run_from_schedule(Ok(Some(42))), Ok(42));
    assert_eq!(next_run_from_schedule(Ok(None)), Err(CronError::NoFutureSchedule));
    assert_eq!(
        next_run_from_schedule(Err("bad".to_string())),
        Err(CronError::Invalid("bad".to_string()))
    );
    assert_eq!(CronError::NoFutureSchedule.message(), "cron expression has no future schedule");
}

fn run_with(cron_expr: Option<&str>, scheduled_at: i64) -> Task {
    Task {
        id: 1,
        task_id: 1,
        name: "nightly".to_string(),
        task_type: TaskType::Custom,
        repo_id: None,
        prompt: "p".to_string(),
        cron_expr: cron_expr.map(|e| e.to_string()),
        scheduled_at,
        started_at: None,
        finished_at: None,
        status: TaskStatus::Pending,
        result: None,
        log: None,
        retry_count: 0,
        created_at: scheduled_at,
    }
}

#[test]
fn periodic_run_knows_its_next_firing() {
    let at = instant(2026, 3, 13, 9, 0, 0);
    let run = run_with(Some("0 9 * * *"), at);
    assert_eq!(run.next_scheduled_at(), Ok(Some(instant(2026, 3, 14, 9, 0, 0))));
}

#[test]
fn one_shot_run_has_no_next_firing() {
    let run = run_with(None, instant(2026, 3, 13, 9, 0, 0));
    assert_eq!(run.next_scheduled_at(), Ok(None));
}

#[test]
fn run_with_bad_expression_reports_it() {
    let run = run_with(Some("61 * * * *"), instant(2026, 3, 13, 9, 0, 0));
    assert!(matches!(run.next_scheduled_at(), Err(CronError::Invalid(_))));
}
