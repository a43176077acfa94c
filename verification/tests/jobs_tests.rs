use git_helper::dispatch::{build_message_title, run_duration_secs, task_message, task_notification};
use git_helper::jobs::{
    build_review_prompt, commit_range_text, custom_output, generated_output_dir, no_new_commits_message,
    plan_generated_writes, range_is_empty, require_repo_id, resolve_review_range, review_output,
    review_report_body, review_report_path, skipped_output, test_gen_output, JobError, ReviewRange,
};
use git_helper::jobs::{job_step, JobStep};
use git_helper::mcp::diff_output;
use git_helper::models::{Task, TaskStatus, TaskType};
use git_helper::test_gen::TestGenError;

fn task(task_type: TaskType, repo_id: Option<i64>) -> Task {
    Task {
        id: 7,
        task_id: 3,
        name: "daily-review".to_string(),
        task_type,
        repo_id,
        prompt: "look for bugs".to_string(),
        cron_expr: None,
        scheduled_at: 0,
        started_at: None,
        finished_at: None,
        status: TaskStatus::Running,
        result: None,
        log: None,
        retry_count: 0,
        created_at: 0,
    }
}

fn nine_am() -> i64 {
    chrono::TimeZone::with_ymd_and_hms(&chrono::Utc, 2026, 3, 13, 9, 0, 0)
        .unwrap()
        .timestamp_nanos_opt()
        .unwrap()
}

fn ids(v: &[&str]) -> Vec<String> {
    v.iter().map(|s| s.to_string()).collect()
}

#[test]
fn review_range_prefers_last_handled_commit() {
    let r = resolve_review_range(Some("aaa"), &ids(&["head", "prev"])).unwrap();
    assert_eq!(r, ReviewRange { from: "aaa".to_string(), head: "head".to_string() });
    let r = resolve_review_range(None, &ids(&["head", "prev"])).unwrap();
    assert_eq!(r, ReviewRange { from: "prev".to_string(), head: "head".to_string() });
    let r = resolve_review_range(None, &ids(&["head"])).unwrap();
    assert!(range_is_empty(&r));
    assert_eq!(resolve_review_range(Some("x"), &ids(&[])), Err(JobError::NoCommits));
    assert_eq!(JobError::NoCommits.message(), "repository has no commits");
}

#[test]
fn repository_jobs_need_a_repository() {
    assert_eq!(require_repo_id(&task(TaskType::GitReview, Some(5))), Ok(5));
    let e = require_repo_id(&task(TaskType::TestGen, None)).unwrap_err();
    assert_eq!(e.message(), "test_gen task requires repo_id");
    let e = require_repo_id(&task(TaskType::GitReview, None)).unwrap_err();
    assert_eq!(e.message(), "git_review task requires repo_id");
    assert_eq!(JobError::RepoNotFound(-12).message(), "repository -12 not found");
}

#[test]
fn skipped_jobs_report_their_reason() {
    assert_eq!(no_new_commits_message(TaskType::GitReview), "no new commits to review");
    assert_eq!(no_new_commits_message(TaskType::TestGen), "no new commits to generate tests");
    let out = skipped_output("diff is empty", "repo");
    assert_eq!(out.task_result, "diff is empty");
    assert_eq!(out.summary, "diff is empty");
    assert_eq!(out.repo_name.as_deref(), Some("repo"));
    assert!(out.report_path.is_none());
}

#[test]
fn review_prompt_layout() {
    let prompt = build_review_prompt("look for bugs", "repo", "+x", &ids(&["a.rs", "b.rs"]), "f", "t");
    assert_eq!(
        prompt,
        "look for bugs\n\nRepository: repo\nCommit range: f..t\nChanged files:\na.rs\nb.rs\n\nPlease perform a code review focused on bugs, regressions, security risks, and missing tests.\n\nDiff:\n+x"
    );
}

#[test]
fn review_report_layout_and_path() {
    assert_eq!(
        review_report_body("repo", "f", "t", nine_am(), "fine"),
        "# Git Review\n\n- Repository: repo\n- Commit range: f..t\n- Generated at: 2026-03-13T09:00:00+00:00\n\nfine\n"
    );
    assert_eq!(review_report_path("check", "my-backend", nine_am()), "check/my-backend/2026-03-13-review.md");
    assert_eq!(generated_output_dir("tests-generated/", "app", nine_am()), "tests-generated/app/2026-03-13");
}

#[test]
fn outputs_carry_the_commit_range() {
    let range = ReviewRange { from: "f".to_string(), head: "t".to_string() };
    assert_eq!(commit_range_text(&range), "f..t");
    let out = review_output("check/r/d-review.md", "review", "r", &range);
    assert_eq!(out.task_result, "check/r/d-review.md");
    assert_eq!(out.commit_range.as_deref(), Some("f..t"));
    let custom = custom_output("answer");
    assert_eq!(custom.content, "answer");
    assert!(custom.repo_name.is_none());
}

#[test]
fn generated_answer_is_planned_under_the_output_dir() {
    let plan = plan_generated_writes(
        "out",
        "=== FILE: tests/a.py ===\nassert 1\n=== FILE: b.py ===\n```\nx\n```\n=== SUMMARY ===\n2 files\n",
    );
    assert!(plan.stopped.is_none());
    assert_eq!(plan.summary, "2 files");
    assert_eq!(plan.summary_path, "out/_summary.md");
    assert_eq!(
        plan.files,
        vec![("out/tests/a.py".to_string(), "assert 1".to_string()), ("out/b.py".to_string(), "x".to_string())]
    );
    let range = ReviewRange { from: "f".to_string(), head: "t".to_string() };
    let out = test_gen_output("out", &plan, "r", &range);
    assert_eq!(out.report_path.as_deref(), Some("out/_summary.md"));

    let no_summary = plan_generated_writes("out", "just text");
    assert_eq!(no_summary.summary, "just text");
    assert!(no_summary.files.is_empty());
    assert!(no_summary.stopped.is_none());

    let escaping = plan_generated_writes("out", "=== FILE: ../x.py ===\nx\n");
    assert_eq!(escaping.stopped, Some(TestGenError::PathEscapesOutputDir));
    assert!(escaping.files.is_empty());
}

#[test]
fn files_before_an_escaping_path_are_still_written() {
    let plan = plan_generated_writes(
        "out",
        "=== FILE: a.py ===\nA\n=== FILE: ../b.py ===\nB\n=== FILE: c.py ===\nC\n=== SUMMARY ===\ndone\n",
    );
    assert_eq!(plan.summary, "done");
    assert_eq!(plan.summary_path, "out/_summary.md");
    assert_eq!(plan.files, vec![("out/a.py".to_string(), "A".to_string())]);
    assert_eq!(plan.stopped, Some(TestGenError::PathEscapesOutputDir));
}

#[test]
fn message_and_notification_of_a_run() {
    let t = task(TaskType::GitReview, Some(1));
    let range = ReviewRange { from: "a".to_string(), head: "b".to_string() };
    let out = review_output("p", &"x".repeat(600), "repo", &range);
    assert_eq!(build_message_title(&t, &out), "repo git_review a..b");
    let skipped = skipped_output("diff is empty", "repo");
    assert_eq!(build_message_title(&t, &skipped), "repo git_review");
    assert_eq!(build_message_title(&t, &custom_output("x")), "daily-review");

    let m = task_message(9, "title", &out);
    assert_eq!(m.user_id, 9);
    assert_eq!(m.summary.chars().count(), 500);
    assert_eq!(m.content.chars().count(), 600);

    let n = task_notification(&t, TaskStatus::Failed, "boom", None, None, 3);
    assert_eq!(n.status, "failed");
    assert_eq!(n.task_type, "git_review");
    assert_eq!(n.summary, "boom");

    assert_eq!(run_duration_secs(Some(1_000_000_000), 4_500_000_000), 3);
    assert_eq!(run_duration_secs(Some(5_000_000_000), 1_000_000_000), 0);
    assert_eq!(run_duration_secs(None, 10), 0);
}

#[test]
fn job_steps_follow_the_range_and_diff() {
    let same = ReviewRange { from: "abc".to_string(), head: "abc".to_string() };
    assert_eq!(job_step(&same, None), JobStep::SkipNoCommits);
    let range = ReviewRange { from: "abc".to_string(), head: "def".to_string() };
    assert_eq!(job_step(&range, None), JobStep::FetchDiff);
    let empty = diff_output("abc", "def".to_string(), vec![], "  \n".to_string());
    assert_eq!(job_step(&range, Some(&empty)), JobStep::SkipEmptyDiff);
    let changed = diff_output("abc", "def".to_string(), vec!["a.rs".to_string()], "+x\n".to_string());
    assert_eq!(job_step(&range, Some(&changed)), JobStep::Run);
}
