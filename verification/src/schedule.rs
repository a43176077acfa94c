//! The run lifecycle of scheduled tasks: which pending runs are claimed,
//! which running ones are declared stalled, and what follows the end of a run.
//!
//! ```text
//! pending ──▸ running ──▸ done / failed
//!    └──▸ cancelled
//! ```

use vstd::prelude::*;

use crate::cron::{next_fire, next_run_from_cron, CronError};
use crate::models::{TaskDefinition, TaskDefinitionStatus, TaskRun, TaskStatus};

verus! {

/// A pending run whose time has come.
pub open spec fn is_due(run: TaskRun, now: i64) -> bool {
    run.status == TaskStatus::Pending && run.scheduled_at <= now
}

/// Runs are claimed in order of scheduled time, then id.
pub open spec fn key_lt(a: TaskRun, b: TaskRun) -> bool {
    a.scheduled_at < b.scheduled_at || (a.scheduled_at == b.scheduled_at && a.id < b.id)
}

/// No two runs share an id.
pub open spec fn unique_ids(runs: Seq<TaskRun>) -> bool {
    forall|i: int, j: int| 0 <= i < runs.len() && 0 <= j < runs.len() && i != j ==> runs[i].id != runs[j].id
}

/// `picked` lists due runs of `runs` (by index) in claiming order: the due runs
/// with the smallest keys, all of them when fewer than `limit` are picked.
pub open spec fn claim_order(runs: Seq<TaskRun>, now: i64, limit: nat, picked: Seq<usize>) -> bool {
    &&& picked.len() <= limit
    &&& forall|k: int| 0 <= k < picked.len() ==> (#[trigger] picked[k]) < runs.len() && is_due(runs[picked[k] as int], now)
    &&& forall|k: int, l: int| 0 <= k < l < picked.len() ==> key_lt(runs[#[trigger] picked[k] as int], runs[#[trigger] picked[l] as int])
    &&& forall|i: int| 0 <= i < runs.len() && is_due(runs[i], now) && !picked.contains(i as usize) ==> {
        &&& picked.len() == limit
        &&& forall|k: int| 0 <= k < picked.len() ==> key_lt(runs[#[trigger] picked[k] as int], runs[i])
    }
}

fn run_key_lt(a: &TaskRun, b: &TaskRun) -> (r: bool)
    ensures
        r == key_lt(*a, *b),
{
    a.scheduled_at < b.scheduled_at || (a.scheduled_at == b.scheduled_at && a.id < b.id)
}

/// The runs to claim now, at most `limit`, as indices into `runs`, in the order
/// they are to be started.
pub fn select_due_runs(runs: &Vec<TaskRun>, now: i64, limit: usize) -> (r: Vec<usize>)
    requires
        unique_ids(runs@),
    ensures
        claim_order(runs@, now, limit as nat, r@),
{
    let mut picked: Vec<usize> = Vec::new();
    let n = runs.len();
    while picked.len() < limit
        invariant
            n == runs.len(),
            unique_ids(runs@),
            picked.len() <= limit,
            forall|k: int| 0 <= k < picked.len() ==> (#[trigger] picked@[k]) < runs.len() && is_due(runs@[picked@[k] as int], now),
            forall|k: int, l: int| 0 <= k < l < picked.len() ==> key_lt(runs@[#[trigger] picked@[k] as int], runs@[#[trigger] picked@[l] as int]),
            picked.len() > 0 ==> forall|i: int| 0 <= i < runs.len() && is_due(runs@[i], now) && !picked@.contains(i as usize)
                ==> key_lt(runs@[picked@[picked.len() - 1] as int], runs@[i]),
            picked.len() > 0 ==> forall|k: int| 0 <= k < picked.len() ==> (#[trigger] picked@[k]) == picked@[picked.len() - 1]
                || key_lt(runs@[picked@[k] as int], runs@[picked@[picked.len() - 1] as int]),
        decreases limit - picked.len(),
    {
        let mut best: Option<usize> = None;
        let mut i: usize = 0;
        while i < n
            invariant
                i <= n == runs.len(),
                unique_ids(runs@),
                forall|k: int| 0 <= k < picked.len() ==> (#[trigger] picked@[k]) < runs.len(),
                match best {
                    Some(b) => b < i && is_due(runs@[b as int], now) && (picked.len() > 0 ==> key_lt(runs@[picked@[picked.len() - 1] as int], runs@[b as int])),
                    None => true,
                },
                forall|j: int| 0 <= j < i && is_due(runs@[j], now) && (picked.len() > 0 ==> key_lt(runs@[picked@[picked.len() - 1] as int], runs@[j])) ==> (match best {
                    Some(b) => b == j || key_lt(runs@[b as int], runs@[j]),
                    None => false,
                }),
            decreases n - i,
        {
            let run = &runs[i];
            let eligible = run.status == TaskStatus::Pending && run.scheduled_at <= now && (picked.len() == 0 || run_key_lt(&runs[picked[picked.len() - 1]], run));
            if eligible {
                match best {
                    None => {
                        best = Some(i);
                    },
                    Some(b) => {
                        if run_key_lt(run, &runs[b]) {
                            best = Some(i);
                        }
                    },
                }
            }
            i = i + 1;
        }
        match best {
            None => {
                proof {
                    assert forall|j: int| 0 <= j < runs.len() && is_due(runs@[j], now) && !picked@.contains(j as usize) implies false by {
                        if picked.len() > 0 {
                            assert(key_lt(runs@[picked@[picked.len() - 1] as int], runs@[j]));
                        }
                    }
                }
                return picked;
            },
            Some(b) => {
                let ghost old_picked = picked@;
                proof {
                    assert(!old_picked.contains(b)) by {
                        if old_picked.contains(b) {
                            let k = choose|k: int| 0 <= k < old_picked.len() && old_picked[k] == b;
                            assert(picked@[k] == b);
                        }
                    }
                }
                picked.push(b);
                proof {
                    assert(picked@ == old_picked.push(b));
                    assert forall|j: int| 0 <= j < runs.len() && is_due(runs@[j], now) && !picked@.contains(j as usize)
                        implies key_lt(runs@[b as int], runs@[j]) by {
                        assert(picked@[picked.len() - 1] == b);
                        if j != b {
                            assert(!old_picked.contains(j as usize)) by {
                                if old_picked.contains(j as usize) {
                                    let k = choose|k: int| 0 <= k < old_picked.len() && old_picked[k] == j as usize;
                                    assert(picked@[k] == j as usize);
                                }
                            }
                            if old_picked.len() > 0 {
                                assert(key_lt(runs@[old_picked[old_picked.len() - 1] as int], runs@[j]));
                            }
                            if runs@[j].id == runs@[b as int].id {
                                assert(false);
                            }
                        } else {
                            assert(picked@[picked.len() - 1] == j as usize);
                        }
                    }
                }
            },
        }
    }
    picked
}

/// A run that has been running since before `threshold`.
pub open spec fn is_stalled(run: TaskRun, threshold: i64) -> bool {
    run.status == TaskStatus::Running && (run.started_at matches Some(t) && t < threshold)
}

/// The indices of the runs that are declared failed on recovery.
pub fn select_stalled_runs(runs: &Vec<TaskRun>, threshold: i64) -> (r: Vec<usize>)
    ensures
        forall|k: int| 0 <= k < r@.len() ==> (#[trigger] r@[k]) < runs.len() && is_stalled(runs@[r@[k] as int], threshold),
        forall|i: int| 0 <= i < runs.len() && is_stalled(runs@[i], threshold) ==> r@.contains(i as usize),
        forall|k: int, l: int| 0 <= k < l < r@.len() ==> r@[k] < r@[l],
{
    let mut r: Vec<usize> = Vec::new();
    let mut i: usize = 0;
    while i < runs.len()
        invariant
            i <= runs.len(),
            forall|k: int| 0 <= k < r@.len() ==> (#[trigger] r@[k]) < i && is_stalled(runs@[r@[k] as int], threshold),
            forall|j: int| 0 <= j < i && is_stalled(runs@[j], threshold) ==> r@.contains(j as usize),
            forall|k: int, l: int| 0 <= k < l < r@.len() ==> r@[k] < r@[l],
        decreases runs.len() - i,
    {
        let run = &runs[i];
        let stalled = match run.started_at {
            Some(t) => run.status == TaskStatus::Running && t < threshold,
            None => false,
        };
        if stalled {
            let ghost before = r@;
            r.push(i);
            proof {
                assert(r@[r@.len() - 1] == i);
                assert forall|j: int| 0 <= j < i + 1 && is_stalled(runs@[j], threshold) implies r@.contains(j as usize) by {
                    if j < i {
                        let k = choose|k: int| 0 <= k < before.len() && before[k] == j as usize;
                        assert(r@[k] == j as usize);
                    }
                }
            }
        }
        i = i + 1;
    }
    r
}

/// The instant before which a running run counts as stalled: `timeout_secs`
/// before `now`; `None` when that instant cannot be represented.
pub fn stall_threshold(now: i64, timeout_secs: u64) -> (r: Option<i64>)
    ensures
        match r {
            Some(t) => t == now - timeout_secs * 1_000_000_000,
            None => timeout_secs * 1_000_000_000 > i64::MAX || now - timeout_secs * 1_000_000_000 < i64::MIN,
        },
{
    if timeout_secs > 9_223_372_036 {
        return None;
    }
    let span: i64 = (timeout_secs as i64) * 1_000_000_000;
    if now < i64::MIN + span {
        None
    } else {
        Some(now - span)
    }
}

/// Text recorded on a run that recovery declares failed.
pub open spec fn recovery_note() -> Seq<char> {
    "execution timeout on recovery"@
}

/// The log of a stalled run once recovery has declared it failed: the note
/// alone when there was no log, otherwise appended on a new line.
pub open spec fn recovered_log(log: Option<Seq<char>>) -> Seq<char> {
    match log {
        Some(l) => if l.len() == 0 { recovery_note() } else { l + "\n"@ + recovery_note() },
        None => recovery_note(),
    }
}

/// The log written on a stalled run when it is declared failed.
pub fn recovery_log(log: Option<&str>) -> (r: String)
    ensures
        r@ == recovered_log(match log { Some(l) => Some(l@), None => None }),
{
    match log {
        Some(l) => {
            if l.is_empty() {
                "execution timeout on recovery".to_owned()
            } else {
                crate::text::concat3(l, "\n", "execution timeout on recovery")
            }
        },
        None => "execution timeout on recovery".to_owned(),
    }
}

/// The result of a stalled run once recovery has declared it failed: the
/// result it had, or the recovery note.
pub fn recovery_result(result: Option<&str>) -> (r: String)
    ensures
        r@ == (match result { Some(x) => x@, None => recovery_note() }),
{
    match result {
        Some(x) => x.to_owned(),
        None => "execution timeout on recovery".to_owned(),
    }
}

/// `out` is `run` with only its outcome changed: the same run, finished at
/// `now` with status `status`.
pub open spec fn closed_as(run: TaskRun, out: TaskRun, status: TaskStatus, now: i64) -> bool {
    &&& out.id == run.id
    &&& out.task_id == run.task_id
    &&& out.scheduled_at == run.scheduled_at
    &&& out.started_at == run.started_at
    &&& out.retry_count == run.retry_count
    &&& out.created_at == run.created_at
    &&& out.status == status
    &&& out.finished_at == Some(now)
}

/// `out` is the stalled `run` as recovery leaves it: failed at `now`, with
/// its result or the recovery note, and the note added to its log.
pub open spec fn recovered(run: TaskRun, now: i64, out: TaskRun) -> bool {
    &&& closed_as(run, out, TaskStatus::Failed, now)
    &&& out.result matches Some(x) && x@ == (match run.result { Some(y) => y@, None => recovery_note() })
    &&& out.log matches Some(l) && l@ == recovered_log(match run.log { Some(y) => Some(y@), None => None })
}

/// The runs after recovery at `now`: exactly the runs stalled before
/// `threshold` are declared failed, every other run is left as it is.
pub fn recover_stalled_runs(runs: &Vec<TaskRun>, threshold: i64, now: i64) -> (r: Vec<TaskRun>)
    ensures
        r@.len() == runs@.len(),
        forall|i: int| 0 <= i < runs@.len() ==> if is_stalled(#[trigger] runs@[i], threshold) {
            recovered(runs@[i], now, r@[i])
        } else {
            r@[i] == runs@[i]
        },
{
    let mut r: Vec<TaskRun> = Vec::new();
    let mut i: usize = 0;
    while i < runs.len()
        invariant
            i <= runs.len(),
            r@.len() == i,
            forall|j: int| 0 <= j < i ==> if is_stalled(#[trigger] runs@[j], threshold) {
                recovered(runs@[j], now, r@[j])
            } else {
                r@[j] == runs@[j]
            },
        decreases runs.len() - i,
    {
        let run = &runs[i];
        let stalled = match run.started_at {
            Some(t) => run.status == TaskStatus::Running && t < threshold,
            None => false,
        };
        let next = if stalled {
            let result = match &run.result {
                Some(x) => recovery_result(Some(x.as_str())),
                None => recovery_result(None),
            };
            let log = match &run.log {
                Some(x) => recovery_log(Some(x.as_str())),
                None => recovery_log(None),
            };
            TaskRun {
                id: run.id,
                task_id: run.task_id,
                scheduled_at: run.scheduled_at,
                started_at: run.started_at,
                finished_at: Some(now),
                status: TaskStatus::Failed,
                result: Some(result),
                log: Some(log),
                retry_count: run.retry_count,
                created_at: run.created_at,
            }
        } else {
            copy_run(run)
        };
        r.push(next);
        i = i + 1;
    }
    r
}

fn copy_run(run: &TaskRun) -> (r: TaskRun)
    ensures
        r == *run,
{
    TaskRun {
        id: run.id,
        task_id: run.task_id,
        scheduled_at: run.scheduled_at,
        started_at: run.started_at,
        finished_at: run.finished_at,
        status: run.status,
        result: crate::text::clone_opt(&run.result),
        log: crate::text::clone_opt(&run.log),
        retry_count: run.retry_count,
        created_at: run.created_at,
    }
}

/// `out` is the pending `run` cancelled at `now` for `reason`: a result or
/// log it already had is kept, a missing one becomes the reason.
pub open spec fn cancelled(run: TaskRun, now: i64, reason: Seq<char>, out: TaskRun) -> bool {
    &&& closed_as(run, out, TaskStatus::Cancelled, now)
    &&& out.result matches Some(x) && x@ == (match run.result { Some(y) => y@, None => reason })
    &&& out.log matches Some(l) && l@ == (match run.log { Some(y) => y@, None => reason })
}

fn kept_or(v: &Option<String>, reason: &str) -> (r: String)
    ensures
        r@ == (match *v { Some(y) => y@, None => reason@ }),
{
    match v {
        Some(y) => y.clone(),
        None => reason.to_owned(),
    }
}

/// Cancels one run at `now`: `None` unless it is pending.
pub fn cancel_run(run: &TaskRun, now: i64, reason: &str) -> (r: Option<TaskRun>)
    ensures
        match r {
            Some(out) => run.status == TaskStatus::Pending && cancelled(*run, now, reason@, out),
            None => run.status != TaskStatus::Pending,
        },
{
    if !can_cancel(run.status) {
        return None;
    }
    Some(TaskRun {
        id: run.id,
        task_id: run.task_id,
        scheduled_at: run.scheduled_at,
        started_at: run.started_at,
        finished_at: Some(now),
        status: TaskStatus::Cancelled,
        result: Some(kept_or(&run.result, reason)),
        log: Some(kept_or(&run.log, reason)),
        retry_count: run.retry_count,
        created_at: run.created_at,
    })
}

/// The runs after the task `task_id` is paused or edited at `now`: its
/// pending runs are cancelled for `reason`; its running and finished runs,
/// and the runs of other tasks, are left as they are.
pub fn cancel_pending_runs(runs: &Vec<TaskRun>, task_id: i64, now: i64, reason: &str) -> (r: Vec<TaskRun>)
    ensures
        r@.len() == runs@.len(),
        forall|i: int| 0 <= i < runs@.len() ==> if (#[trigger] runs@[i]).task_id == task_id && runs@[i].status == TaskStatus::Pending {
            cancelled(runs@[i], now, reason@, r@[i])
        } else {
            r@[i] == runs@[i]
        },
{
    let mut r: Vec<TaskRun> = Vec::new();
    let mut i: usize = 0;
    while i < runs.len()
        invariant
            i <= runs.len(),
            r@.len() == i,
            forall|j: int| 0 <= j < i ==> if (#[trigger] runs@[j]).task_id == task_id && runs@[j].status == TaskStatus::Pending {
                cancelled(runs@[j], now, reason@, r@[j])
            } else {
                r@[j] == runs@[j]
            },
        decreases runs.len() - i,
    {
        let run = &runs[i];
        let next = if run.task_id == task_id {
            match cancel_run(run, now, reason) {
                Some(c) => c,
                None => copy_run(run),
            }
        } else {
            copy_run(run)
        };
        r.push(next);
        i = i + 1;
    }
    r
}

/// Some run of the task is pending or running.
pub open spec fn has_open_run(runs: Seq<TaskRun>, task_id: i64) -> bool {
    exists|i: int| 0 <= i < runs.len() && (#[trigger] runs[i]).task_id == task_id
        && (runs[i].status == TaskStatus::Pending || runs[i].status == TaskStatus::Running)
}

/// Some run of the task is running.
pub open spec fn has_running_run(runs: Seq<TaskRun>, task_id: i64) -> bool {
    exists|i: int| 0 <= i < runs.len() && (#[trigger] runs[i]).task_id == task_id && runs[i].status == TaskStatus::Running
}

fn any_open_run(runs: &Vec<TaskRun>, task_id: i64) -> (r: bool)
    ensures
        r == has_open_run(runs@, task_id),
{
    let mut i: usize = 0;
    while i < runs.len()
        invariant
            i <= runs.len(),
            forall|j: int| 0 <= j < i ==> !((#[trigger] runs@[j]).task_id == task_id
                && (runs@[j].status == TaskStatus::Pending || runs@[j].status == TaskStatus::Running)),
        decreases runs.len() - i,
    {
        if runs[i].task_id == task_id && is_open(runs[i].status) {
            return true;
        }
        i = i + 1;
    }
    false
}

/// What an edit of a task does to its runs: the task's pending runs and the
/// run to queue, if any.
#[derive(Debug, Clone)]
pub struct TaskRunsChange {
    /// All the runs given, with the task's pending ones cancelled.
    pub runs: Vec<TaskRun>,
    /// The instant of the new pending run, when one is queued.
    pub new_run_at: Option<i64>,
}

/// The runs after the task `task_id`, whose definition has status `status`,
/// is edited at `now`: its pending runs are cancelled, and a new run due at
/// `scheduled_at` is queued exactly when the definition is active and none
/// of its runs is still running.
pub fn update_task_plan(status: TaskDefinitionStatus, runs: &Vec<TaskRun>, task_id: i64, scheduled_at: i64, now: i64) -> (r: TaskRunsChange)
    ensures
        r.runs@.len() == runs@.len(),
        forall|i: int| 0 <= i < runs@.len() ==> if (#[trigger] runs@[i]).task_id == task_id && runs@[i].status == TaskStatus::Pending {
            cancelled(runs@[i], now, "task definition updated"@, r.runs@[i])
        } else {
            r.runs@[i] == runs@[i]
        },
        r.new_run_at == (if status == TaskDefinitionStatus::Active && !has_running_run(runs@, task_id) {
            Some(scheduled_at)
        } else {
            None::<i64>
        }),
{
    let after = cancel_pending_runs(runs, task_id, now, "task definition updated");
    let open = any_open_run(&after, task_id);
    proof {
        assert(has_open_run(after@, task_id) == has_running_run(runs@, task_id)) by {
            if has_open_run(after@, task_id) {
                let i = choose|i: int| 0 <= i < after@.len() && (#[trigger] after@[i]).task_id == task_id
                    && (after@[i].status == TaskStatus::Pending || after@[i].status == TaskStatus::Running);
                assert(runs@[i].task_id == task_id);
            }
            if has_running_run(runs@, task_id) {
                let i = choose|i: int| 0 <= i < runs@.len() && (#[trigger] runs@[i]).task_id == task_id
                    && runs@[i].status == TaskStatus::Running;
                assert(after@[i] == runs@[i]);
            }
        }
    }
    let new_run_at = if enqueue_after_update(status, open) { Some(scheduled_at) } else { None };
    TaskRunsChange { runs: after, new_run_at }
}

/// The run queued when a definition is resumed at `now`: none while one of
/// its runs is pending or running; otherwise one due at the next cron firing
/// after `now`, or at `now` for a one-shot task.
pub fn resume_task_plan(definition: &TaskDefinition, runs: &Vec<TaskRun>, now: i64) -> (r: Result<Option<i64>, CronError>)
    ensures
        has_open_run(runs@, definition.id) ==> r == Ok::<Option<i64>, CronError>(None),
        !has_open_run(runs@, definition.id) ==> match definition.cron_expr {
            None => r == Ok::<Option<i64>, CronError>(Some(now)),
            Some(e) => match r {
                Ok(Some(t)) => next_fire(e@, now) == Ok::<Option<i64>, Seq<char>>(Some(t)) && t > now,
                Ok(None) => false,
                Err(CronError::Invalid(m)) => next_fire(e@, now) == Err::<Option<i64>, Seq<char>>(m@),
                Err(CronError::NoFutureSchedule) => next_fire(e@, now) == Ok::<Option<i64>, Seq<char>>(None),
            },
        },
{
    if any_open_run(runs, definition.id) {
        return Ok(None);
    }
    match scheduled_at_for_definition(definition, now) {
        Ok(t) => Ok(Some(t)),
        Err(e) => Err(e),
    }
}

/// `out` is the running `run` finished at `now` with `status`, `result` and `log`.
pub open spec fn finished(run: TaskRun, status: TaskStatus, result: Option<Seq<char>>, log: Option<Seq<char>>, now: i64, out: TaskRun) -> bool {
    &&& closed_as(run, out, status, now)
    &&& (match out.result { Some(x) => Some(x@), None => None::<Seq<char>> }) == result
    &&& (match out.log { Some(x) => Some(x@), None => None::<Seq<char>> }) == log
}

/// A run as its end is recorded: the outcome of the job, at `now`.
pub fn finish_run(run: &TaskRun, status: TaskStatus, result: Option<&str>, log: Option<&str>, now: i64) -> (r: TaskRun)
    ensures
        finished(*run, status, match result { Some(x) => Some(x@), None => None }, match log { Some(x) => Some(x@), None => None }, now, r),
{
    TaskRun {
        id: run.id,
        task_id: run.task_id,
        scheduled_at: run.scheduled_at,
        started_at: run.started_at,
        finished_at: Some(now),
        status,
        result: match result { Some(x) => Some(x.to_owned()), None => None },
        log: match log { Some(x) => Some(x.to_owned()), None => None },
        retry_count: run.retry_count,
        created_at: run.created_at,
    }
}

/// Only a pending run can be cancelled.
pub fn can_cancel(status: TaskStatus) -> (r: bool)
    ensures
        r == (status == TaskStatus::Pending),
{
    status == TaskStatus::Pending
}

/// What follows the end of a run of an active definition.
#[derive(Debug, Clone, Copy, PartialEq, Eq)]
pub enum FinishFollowup {
    /// A periodic task: its next run is due at this instant, unless one is already there.
    ScheduleNext(i64),
    /// A one-shot task: its definition is paused.
    PauseDefinition,
    /// A paused definition: nothing more happens.
    Nothing,
}

/// The follow-up of a finished run of `definition` that was due at `run_scheduled_at`.
pub fn finish_followup(definition: &TaskDefinition, run_scheduled_at: i64) -> (r: Result<FinishFollowup, CronError>)
    ensures
        definition.status == TaskDefinitionStatus::Paused ==> r == Ok::<FinishFollowup, CronError>(FinishFollowup::Nothing),
        definition.status == TaskDefinitionStatus::Active && definition.cron_expr is None
            ==> r == Ok::<FinishFollowup, CronError>(FinishFollowup::PauseDefinition),
        definition.status == TaskDefinitionStatus::Active ==> (definition.cron_expr matches Some(e) ==> match r {
            Ok(FinishFollowup::ScheduleNext(t)) => next_fire(e@, run_scheduled_at) == Ok::<Option<i64>, Seq<char>>(Some(t))
                && t > run_scheduled_at,
            Ok(_) => false,
            Err(CronError::Invalid(m)) => next_fire(e@, run_scheduled_at) == Err::<Option<i64>, Seq<char>>(m@),
            Err(CronError::NoFutureSchedule) => next_fire(e@, run_scheduled_at) == Ok::<Option<i64>, Seq<char>>(None),
        }),
{
    match definition.status {
        TaskDefinitionStatus::Paused => Ok(FinishFollowup::Nothing),
        TaskDefinitionStatus::Active => match &definition.cron_expr {
            Some(expr) => {
                let next = next_run_from_cron(expr.as_str(), run_scheduled_at)?;
                Ok(FinishFollowup::ScheduleNext(next))
            },
            None => Ok(FinishFollowup::PauseDefinition),
        },
    }
}

/// When the next run of a (resumed) definition is due: the next cron firing
/// after `after` for a periodic task, `after` itself for a one-shot task.
pub fn scheduled_at_for_definition(definition: &TaskDefinition, after: i64) -> (r: Result<i64, CronError>)
    ensures
        definition.cron_expr is None ==> r == Ok::<i64, CronError>(after),
        definition.cron_expr matches Some(e) ==> match r {
            Ok(t) => next_fire(e@, after) == Ok::<Option<i64>, Seq<char>>(Some(t)) && t > after,
            Err(CronError::Invalid(m)) => next_fire(e@, after) == Err::<Option<i64>, Seq<char>>(m@),
            Err(CronError::NoFutureSchedule) => next_fire(e@, after) == Ok::<Option<i64>, Seq<char>>(None),
        },
{
    match &definition.cron_expr {
        Some(expr) => next_run_from_cron(expr.as_str(), after),
        None => Ok(after),
    }
}

/// After a definition is edited and its pending runs cancelled, a new run is
/// queued only for an active definition with no pending or running run left.
pub fn enqueue_after_update(status: TaskDefinitionStatus, has_open_runs: bool) -> (r: bool)
    ensures
        r == (status == TaskDefinitionStatus::Active && !has_open_runs),
{
    status == TaskDefinitionStatus::Active && !has_open_runs
}

/// Whether a status is one of the open ones (pending or running).
pub fn is_open(status: TaskStatus) -> (r: bool)
    ensures
        r == (status == TaskStatus::Pending || status == TaskStatus::Running),
{
    status == TaskStatus::Pending || status == TaskStatus::Running
}

/// Whether a status is a finished one (done, failed or cancelled).
pub fn is_finished(status: TaskStatus) -> (r: bool)
    ensures
        r == (status == TaskStatus::Done || status == TaskStatus::Failed || status == TaskStatus::Cancelled),
{
    status == TaskStatus::Done || status == TaskStatus::Failed || status == TaskStatus::Cancelled
}

/// Rows skipped before page `page` (counted from 1; 0 reads as 1) of `page_size` rows.
pub fn page_offset(page: usize, page_size: usize) -> (r: i64)
    requires
        (if page == 0 { 0 } else { page - 1 }) * page_size <= i64::MAX,
    ensures
        r == (if page == 0 { 0 } else { page - 1 }) * page_size,
{
    let before: u128 = if page == 0 { 0 } else { (page - 1) as u128 };
    let size: u128 = page_size as u128;
    proof {
        assert(before * size <= i64::MAX);
        assert(before * size < 0x1_0000_0000_0000_0000_0000_0000_0000_0000) by (nonlinear_arith)
            requires
                before * size <= i64::MAX,
        ;
    }
    let product: u128 = before * size;
    product as i64
}

} // verus!
