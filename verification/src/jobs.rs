//! The steps of the repository jobs (code review and test generation) that
//! decide rather than fetch: the commit range to work on, the outputs of a
//! job that has nothing to do, the review prompt and report, and where the
//! generated tests go.

use vstd::prelude::*;

use crate::mcp::GitDiffOutput;
use crate::models::{Task, TaskType};
use crate::test_gen::{parsed_files, parsed_summary, sanitized_path, push_path, ParsedSections, TestGenError};
use crate::text::{join, signed_decimal};
use crate::time::{day_of, rfc3339_of};

verus! {

/// What a finished job reports.
#[derive(Debug, Clone)]
pub struct JobOutput {
    pub task_result: String,
    pub content: String,
    pub summary: String,
    pub repo_name: Option<String>,
    pub report_path: Option<String>,
    pub commit_range: Option<String>,
}

/// Why a repository job could not run.
#[derive(Debug, Clone, PartialEq, Eq)]
pub enum JobError {
    /// The task names no repository; the task's type.
    MissingRepoId(TaskType),
    /// The repository the task names does not exist.
    RepoNotFound(i64),
    /// The repository has no commit.
    NoCommits,
}

pub open spec fn job_error_message(e: JobError) -> Seq<char> {
    match e {
        JobError::MissingRepoId(TaskType::TestGen) => "test_gen task requires repo_id"@,
        JobError::MissingRepoId(_) => "git_review task requires repo_id"@,
        JobError::RepoNotFound(id) => "repository "@ + signed_decimal(id as int) + " not found"@,
        JobError::NoCommits => "repository has no commits"@,
    }
}

impl JobError {
    /// The error as it is reported.
    pub fn message(&self) -> (r: String)
        ensures
            r@ == job_error_message(*self),
    {
        match self {
            JobError::MissingRepoId(TaskType::TestGen) => "test_gen task requires repo_id".to_owned(),
            JobError::MissingRepoId(_) => "git_review task requires repo_id".to_owned(),
            JobError::RepoNotFound(id) => {
                let n = crate::text::signed_decimal_string(*id);
                crate::text::concat3("repository ", n.as_str(), " not found")
            },
            JobError::NoCommits => "repository has no commits".to_owned(),
        }
    }
}

/// The repository a repository job works on.
pub fn require_repo_id(task: &Task) -> (r: Result<i64, JobError>)
    ensures
        match task.repo_id {
            Some(id) => r == Ok::<i64, JobError>(id),
            None => r == Err::<i64, JobError>(JobError::MissingRepoId(task.task_type)),
        },
{
    match task.repo_id {
        Some(id) => Ok(id),
        None => Err(JobError::MissingRepoId(task.task_type)),
    }
}

/// The commits a job looks at: from `from` (exclusive) to `head`.
#[derive(Debug, Clone, PartialEq, Eq)]
pub struct ReviewRange {
    pub from: String,
    pub head: String,
}

/// `head` is the newest commit; `from` is the last commit already handled,
/// or else the commit before `head`, or else `head` itself.
pub open spec fn review_range_of(last_commit: Option<Seq<char>>, log_ids: Seq<Seq<char>>) -> Option<(Seq<char>, Seq<char>)> {
    if log_ids.len() == 0 {
        None
    } else {
        let head = log_ids[0];
        let from = match last_commit {
            Some(c) => c,
            None => if log_ids.len() > 1 { log_ids[1] } else { head },
        };
        Some((from, head))
    }
}

/// The range of a job, from the repository's last handled commit and the
/// ids of the newest commits, newest first.
pub fn resolve_review_range(last_commit: Option<&str>, log_ids: &Vec<String>) -> (r: Result<ReviewRange, JobError>)
    ensures
        match r {
            Ok(range) => review_range_of(
                match last_commit { Some(c) => Some(c@), None => None },
                log_ids@.map_values(|s: String| s@),
            ) == Some((range.from@, range.head@)),
            Err(e) => e == JobError::NoCommits && log_ids@.len() == 0,
        },
{
    if log_ids.len() == 0 {
        return Err(JobError::NoCommits);
    }
    let head = log_ids[0].clone();
    let from = match last_commit {
        Some(c) => c.to_owned(),
        None => if log_ids.len() > 1 { log_ids[1].clone() } else { head.clone() },
    };
    Ok(ReviewRange { from, head })
}

/// Whether the range holds no new commit.
pub fn range_is_empty(range: &ReviewRange) -> (r: bool)
    ensures
        r == (range.from@ == range.head@),
{
    crate::text::str_eq(range.from.as_str(), range.head.as_str())
}

/// The next step of a repository job whose range is known, given the diff
/// of the range once it has been fetched. In both skips, and after a run
/// that succeeds, the range's head is recorded as handled.
#[derive(Debug, Clone, Copy, PartialEq, Eq)]
pub enum JobStep {
    /// No new commit: the job reports it and stops.
    SkipNoCommits,
    /// The diff of the range is needed.
    FetchDiff,
    /// The new commits change nothing: the job reports it and stops.
    SkipEmptyDiff,
    /// Codex is asked about the diff and the outputs are written.
    Run,
}

/// Decides the next step of a repository job.
pub fn job_step(range: &ReviewRange, diff: Option<&GitDiffOutput>) -> (r: JobStep)
    ensures
        r == (if range.from@ == range.head@ {
            JobStep::SkipNoCommits
        } else {
            match diff {
                None => JobStep::FetchDiff,
                Some(d) => if d.is_empty { JobStep::SkipEmptyDiff } else { JobStep::Run },
            }
        }),
{
    if range_is_empty(range) {
        JobStep::SkipNoCommits
    } else {
        match diff {
            None => JobStep::FetchDiff,
            Some(d) => if d.is_empty { JobStep::SkipEmptyDiff } else { JobStep::Run },
        }
    }
}

/// What a job with no new commit reports.
pub fn no_new_commits_message(task_type: TaskType) -> (r: &'static str)
    ensures
        r@ == (if task_type == TaskType::TestGen { "no new commits to generate tests"@ } else { "no new commits to review"@ }),
{
    match task_type {
        TaskType::TestGen => "no new commits to generate tests",
        _ => "no new commits to review",
    }
}

/// What a job whose diff is empty reports.
pub fn empty_diff_message() -> (r: &'static str)
    ensures
        r@ == "diff is empty"@,
{
    "diff is empty"
}

/// The output of a job that had nothing to do: the reason is its result and
/// its summary.
pub fn skipped_output(reason: &str, repo_name: &str) -> (r: JobOutput)
    ensures
        r.task_result@ == reason@,
        r.content@ == reason@,
        r.summary@ == reason@,
        r.repo_name matches Some(n) && n@ == repo_name@,
        r.report_path is None,
        r.commit_range is None,
{
    JobOutput {
        task_result: reason.to_owned(),
        content: reason.to_owned(),
        summary: reason.to_owned(),
        repo_name: Some(repo_name.to_owned()),
        report_path: None,
        commit_range: None,
    }
}

/// The output of a custom task: Codex's answer is its result, content and summary.
pub fn custom_output(answer: &str) -> (r: JobOutput)
    ensures
        r.task_result@ == answer@,
        r.content@ == answer@,
        r.summary@ == answer@,
        r.repo_name is None,
        r.report_path is None,
        r.commit_range is None,
{
    JobOutput {
        task_result: answer.to_owned(),
        content: answer.to_owned(),
        summary: answer.to_owned(),
        repo_name: None,
        report_path: None,
        commit_range: None,
    }
}

/// `from..to`.
pub open spec fn range_text(from: Seq<char>, to: Seq<char>) -> Seq<char> {
    from + ".."@ + to
}

/// The commit range as written in prompts, reports and message titles.
pub fn commit_range_text(range: &ReviewRange) -> (r: String)
    ensures
        r@ == range_text(range.from@, range.head@),
{
    crate::text::concat3(range.from.as_str(), "..", range.head.as_str())
}

/// The prompt of a code review.
pub open spec fn review_prompt(
    task_prompt: Seq<char>,
    repo_name: Seq<char>,
    diff: Seq<char>,
    changed_files: Seq<Seq<char>>,
    from: Seq<char>,
    to: Seq<char>,
) -> Seq<char> {
    task_prompt + "\n\nRepository: "@ + repo_name + "\nCommit range: "@ + range_text(from, to)
        + "\nChanged files:\n"@ + join(changed_files, seq!['\n'])
        + "\n\nPlease perform a code review focused on bugs, regressions, security risks, and missing tests.\n\nDiff:\n"@
        + diff
}

/// Builds the prompt of a code review: the task's prompt, the repository,
/// the range, the changed files one per line, the instructions and the diff.
pub fn build_review_prompt(
    task_prompt: &str,
    repo_name: &str,
    diff: &str,
    changed_files: &Vec<String>,
    from: &str,
    to: &str,
) -> (r: String)
    ensures
        r@ == review_prompt(task_prompt@, repo_name@, diff@, changed_files@.map_values(|s: String| s@), from@, to@),
{
    let mut files: Vec<Vec<char>> = Vec::new();
    let mut i: usize = 0;
    while i < changed_files.len()
        invariant
            i <= changed_files.len(),
            files@.len() == i,
            forall|j: int| 0 <= j < i ==> (#[trigger] files@[j])@ == changed_files@[j]@,
        decreases changed_files.len() - i,
    {
        files.push(crate::text::chars_of(changed_files[i].as_str()));
        i = i + 1;
    }
    assert(files@.map_values(|v: Vec<char>| v@) =~= changed_files@.map_values(|s: String| s@));
    let newline: Vec<char> = vec!['\n'];
    assert(newline@ =~= seq!['\n']);
    let listed = crate::text::string_of(&crate::text::join_vec(&files, &newline));
    let mut r = task_prompt.to_owned();
    r.append("\n\nRepository: ");
    r.append(repo_name);
    r.append("\nCommit range: ");
    r.append(from);
    r.append("..");
    r.append(to);
    r.append("\nChanged files:\n");
    r.append(listed.as_str());
    r.append("\n\nPlease perform a code review focused on bugs, regressions, security risks, and missing tests.\n\nDiff:\n");
    r.append(diff);
    proof {
        assert(r@ =~= review_prompt(task_prompt@, repo_name@, diff@, changed_files@.map_values(|s: String| s@), from@, to@));
    }
    r
}

/// The text of a review report.
pub open spec fn review_report(repo_name: Seq<char>, from: Seq<char>, to: Seq<char>, generated_at: Seq<char>, review: Seq<char>) -> Seq<char> {
    "# Git Review\n\n- Repository: "@ + repo_name + "\n- Commit range: "@ + range_text(from, to)
        + "\n- Generated at: "@ + generated_at + "\n\n"@ + review + "\n"@
}

/// Builds the text of a review report generated at the instant `now`.
pub fn review_report_body(repo_name: &str, from: &str, to: &str, now: i64, review: &str) -> (r: String)
    ensures
        r@ == review_report(repo_name@, from@, to@, rfc3339_of(now), review@),
{
    let stamp = crate::time::format_rfc3339(now);
    let generated_at = stamp.as_str();
    let mut r = "# Git Review\n\n- Repository: ".to_owned();
    r.append(repo_name);
    r.append("\n- Commit range: ");
    r.append(from);
    r.append("..");
    r.append(to);
    r.append("\n- Generated at: ");
    r.append(generated_at);
    r.append("\n\n");
    r.append(review);
    r.append("\n");
    proof {
        assert(r@ =~= review_report(repo_name@, from@, to@, rfc3339_of(now), review@));
    }
    r
}

/// Where a review written at the instant `now` goes:
/// `<check_dir>/<repo_name>/<YYYY-MM-DD>-review.md`.
pub fn review_report_path(check_dir: &str, repo_name: &str, now: i64) -> (r: String)
    ensures
        r@ == push_path(push_path(check_dir@, repo_name@), day_of(now) + "-review.md"@),
{
    let day = crate::time::format_day(now);
    let dir = crate::test_gen::join_path(check_dir, repo_name);
    let file = crate::text::concat2(day.as_str(), "-review.md");
    crate::test_gen::join_path(dir.as_str(), file.as_str())
}

/// The output of a review: the report path is the result, the review the
/// content and summary.
pub fn review_output(report_path: &str, review: &str, repo_name: &str, range: &ReviewRange) -> (r: JobOutput)
    ensures
        r.task_result@ == report_path@,
        r.content@ == review@,
        r.summary@ == review@,
        r.repo_name matches Some(n) && n@ == repo_name@,
        r.report_path matches Some(p) && p@ == report_path@,
        r.commit_range matches Some(c) && c@ == range_text(range.from@, range.head@),
{
    JobOutput {
        task_result: report_path.to_owned(),
        content: review.to_owned(),
        summary: review.to_owned(),
        repo_name: Some(repo_name.to_owned()),
        report_path: Some(report_path.to_owned()),
        commit_range: Some(commit_range_text(range)),
    }
}

/// The directory that the tests generated at the instant `now` go to:
/// `<tests_generated_dir>/<repo_name>/<YYYY-MM-DD>`.
pub fn generated_output_dir(tests_generated_dir: &str, repo_name: &str, now: i64) -> (r: String)
    ensures
        r@ == push_path(push_path(tests_generated_dir@, repo_name@), day_of(now)),
{
    let day = crate::time::format_day(now);
    let dir = crate::test_gen::join_path(tests_generated_dir, repo_name);
    crate::test_gen::join_path(dir.as_str(), day.as_str())
}

/// What writing a generated answer under the output directory amounts to:
/// the summary file first, then the generated files in order, up to the
/// first one whose path would leave the directory, which stops the job.
#[derive(Debug, Clone, PartialEq, Eq)]
pub struct GeneratedWritePlan {
    /// The summary: the answer's summary section, or the whole answer when it has none.
    pub summary: String,
    /// Where the summary goes: `_summary.md` in the output directory.
    pub summary_path: String,
    /// The files written, each as its path under the output directory and its content.
    pub files: Vec<(String, String)>,
    /// The error that stops the writing after these files, if a path escapes.
    pub stopped: Option<TestGenError>,
}

/// Plans the writing of a generated answer under `base_dir`: the summary,
/// then each file in order until one whose path would leave the directory;
/// that file and the ones after it are not written, and the job fails.
pub fn plan_generated_writes(base_dir: &str, generated: &str) -> (r: GeneratedWritePlan)
    ensures
        r.summary@ == (match parsed_summary(generated@) {
            Some(s) => s,
            None => generated@,
        }),
        r.summary_path@ == push_path(base_dir@, "_summary.md"@),
        r.files@.len() <= parsed_files(generated@).len(),
        forall|i: int| 0 <= i < r.files@.len() ==>
            sanitized_path(base_dir@, (#[trigger] parsed_files(generated@)[i]).0) == Some(r.files@[i].0@)
            && r.files@[i].1@ == parsed_files(generated@)[i].1,
        r.files@.len() < parsed_files(generated@).len() ==>
            sanitized_path(base_dir@, parsed_files(generated@)[r.files@.len() as int].0) is None
            && r.stopped == Some(TestGenError::PathEscapesOutputDir),
        r.files@.len() == parsed_files(generated@).len() ==> r.stopped is None,
{
    let sections: ParsedSections = crate::test_gen::parse_generated_sections(generated);
    let summary = match &sections.summary {
        Some(s) => s.clone(),
        None => generated.to_owned(),
    };
    let summary_path = crate::test_gen::join_path(base_dir, "_summary.md");
    let mut files: Vec<(String, String)> = Vec::new();
    let mut i: usize = 0;
    while i < sections.files.len()
        invariant
            i <= sections.files.len(),
            summary@ == (match parsed_summary(generated@) {
                Some(s) => s,
                None => generated@,
            }),
            summary_path@ == push_path(base_dir@, "_summary.md"@),
            sections.files@.len() == parsed_files(generated@).len(),
            forall|j: int| 0 <= j < sections.files@.len() ==> crate::test_gen::file_view(#[trigger] sections.files@[j]) == parsed_files(generated@)[j],
            files@.len() == i,
            forall|j: int| 0 <= j < i ==>
                sanitized_path(base_dir@, (#[trigger] parsed_files(generated@)[j]).0) == Some(files@[j].0@)
                && files@[j].1@ == parsed_files(generated@)[j].1,
        decreases sections.files.len() - i,
    {
        let f = &sections.files[i];
        proof {
            assert(crate::test_gen::file_view(sections.files@[i as int]) == parsed_files(generated@)[i as int]);
        }
        match crate::test_gen::sanitize_output_path(base_dir, f.path.as_str()) {
            Ok(p) => {
                files.push((p, f.content.clone()));
            },
            Err(e) => {
                return GeneratedWritePlan { summary, summary_path, files, stopped: Some(e) };
            },
        }
        i = i + 1;
    }
    GeneratedWritePlan { summary, summary_path, files, stopped: None }
}

/// The output of a test generation run: the output directory is the result,
/// the summary the content and summary, the summary file the report.
pub fn test_gen_output(output_dir: &str, plan: &GeneratedWritePlan, repo_name: &str, range: &ReviewRange) -> (r: JobOutput)
    ensures
        r.task_result@ == output_dir@,
        r.content@ == plan.summary@,
        r.summary@ == plan.summary@,
        r.repo_name matches Some(n) && n@ == repo_name@,
        r.report_path matches Some(p) && p@ == plan.summary_path@,
        r.commit_range matches Some(c) && c@ == range_text(range.from@, range.head@),
{
    JobOutput {
        task_result: output_dir.to_owned(),
        content: plan.summary.clone(),
        summary: plan.summary.clone(),
        repo_name: Some(repo_name.to_owned()),
        report_path: Some(plan.summary_path.clone()),
        commit_range: Some(commit_range_text(range)),
    }
}

} // verus!
