//! Conversion of the legacy single `tasks` table into task definitions and
//! their runs: rows with the same name, type, repository, prompt and cron
//! expression become one definition, and every row becomes one run of it.

use vstd::prelude::*;

use crate::models::{TaskDefinitionStatus, TaskStatus, TaskType};

verus! {

/// One row of the legacy `tasks` table.
#[derive(Debug)]
pub struct LegacyTaskRow {
    pub name: String,
    pub task_type: TaskType,
    pub repo_id: Option<i64>,
    pub prompt: String,
    pub cron_expr: Option<String>,
    pub scheduled_at: i64,
    pub started_at: Option<i64>,
    pub status: TaskStatus,
    pub result: Option<String>,
    pub retry_count: i64,
    pub created_at: i64,
    pub updated_at: i64,
}

/// A task definition to insert.
#[derive(Debug)]
pub struct PlannedDefinition {
    pub name: String,
    pub task_type: TaskType,
    pub repo_id: Option<i64>,
    pub prompt: String,
    pub cron_expr: Option<String>,
    pub status: TaskDefinitionStatus,
    pub created_at: i64,
    pub updated_at: i64,
}

/// A run to insert; `definition` is the index of its definition in the plan.
#[derive(Debug)]
pub struct PlannedRun {
    pub definition: usize,
    pub scheduled_at: i64,
    pub started_at: Option<i64>,
    pub finished_at: Option<i64>,
    pub status: TaskStatus,
    pub result: Option<String>,
    pub retry_count: i64,
    pub created_at: i64,
}

/// What the migration inserts.
#[derive(Debug)]
pub struct MigrationPlan {
    pub definitions: Vec<PlannedDefinition>,
    pub runs: Vec<PlannedRun>,
}

/// The cron text of the grouping key: an absent expression reads as empty.
pub open spec fn cron_text(c: Option<String>) -> Seq<char> {
    match c {
        Some(s) => s@,
        None => Seq::empty(),
    }
}

/// The grouping key: name, type, repository, prompt and cron text.
pub type GroupKey = (Seq<char>, TaskType, Option<i64>, Seq<char>, Seq<char>);

/// The grouping key of a planned definition.
pub open spec fn def_key(d: PlannedDefinition) -> GroupKey {
    (d.name@, d.task_type, d.repo_id, d.prompt@, cron_text(d.cron_expr))
}

/// The grouping key of a legacy row.
pub open spec fn row_key(r: LegacyTaskRow) -> GroupKey {
    (r.name@, r.task_type, r.repo_id, r.prompt@, cron_text(r.cron_expr))
}

/// A legacy row belongs to a definition when their grouping keys agree.
pub open spec fn same_key(d: PlannedDefinition, r: LegacyTaskRow) -> bool {
    def_key(d) == row_key(r)
}

/// A row keeps its definition active: it is periodic or still open.
pub open spec fn keeps_active(r: LegacyTaskRow) -> bool {
    r.cron_expr is Some || r.status == TaskStatus::Pending || r.status == TaskStatus::Running
}

/// The definition first created for a row.
pub open spec fn new_definition(r: LegacyTaskRow) -> PlannedDefinition {
    PlannedDefinition {
        name: r.name,
        task_type: r.task_type,
        repo_id: r.repo_id,
        prompt: r.prompt,
        cron_expr: r.cron_expr,
        status: if keeps_active(r) { TaskDefinitionStatus::Active } else { TaskDefinitionStatus::Paused },
        created_at: r.created_at,
        updated_at: r.updated_at,
    }
}

/// The run made of a legacy row; finished rows get their update time as finish time.
pub open spec fn run_of(r: LegacyTaskRow, definition: int) -> PlannedRun {
    PlannedRun {
        definition: definition as usize,
        scheduled_at: r.scheduled_at,
        started_at: r.started_at,
        finished_at: if r.status == TaskStatus::Done || r.status == TaskStatus::Failed || r.status == TaskStatus::Cancelled {
            Some(r.updated_at)
        } else {
            None
        },
        status: r.status,
        result: r.result,
        retry_count: r.retry_count,
        created_at: r.created_at,
    }
}

/// Index of the first definition with the row's key.
pub open spec fn find_key(defs: Seq<PlannedDefinition>, r: LegacyTaskRow) -> Option<int>
    decreases defs.len(),
{
    if defs.len() == 0 {
        None
    } else {
        match find_key(defs.drop_last(), r) {
            Some(i) => Some(i),
            None => if same_key(defs.last(), r) { Some(defs.len() - 1) } else { None },
        }
    }
}

/// Migration state: definitions so far, the latest update time seen per
/// definition, and the runs so far.
pub type MigrationState = (Seq<PlannedDefinition>, Seq<i64>, Seq<PlannedRun>);

/// The writes made for one legacy row.
pub open spec fn migrate_step(st: MigrationState, r: LegacyTaskRow) -> MigrationState {
    let (defs1, last1, idx) = match find_key(st.0, r) {
        Some(i) => (st.0, st.1, i),
        None => (st.0.push(new_definition(r)), st.1.push(r.updated_at), st.0.len() as int),
    };
    let (defs2, last2) = if r.updated_at > last1[idx] {
        (defs1.update(idx, PlannedDefinition { updated_at: r.updated_at, ..defs1[idx] }), last1.update(idx, r.updated_at))
    } else {
        (defs1, last1)
    };
    let defs3 = if keeps_active(r) {
        defs2.update(idx, PlannedDefinition { status: TaskDefinitionStatus::Active, updated_at: r.updated_at, ..defs2[idx] })
    } else {
        defs2
    };
    (defs3, last2, st.2.push(run_of(r, idx)))
}

pub open spec fn migrate_fold(rows: Seq<LegacyTaskRow>) -> MigrationState
    decreases rows.len(),
{
    if rows.len() == 0 {
        (Seq::empty(), Seq::empty(), Seq::empty())
    } else {
        migrate_step(migrate_fold(rows.drop_last()), rows.last())
    }
}

fn cron_text_eq(a: &Option<String>, b: &Option<String>) -> (r: bool)
    ensures
        r == (cron_text(*a) == cron_text(*b)),
{
    let x = match a {
        Some(s) => s.as_str(),
        None => "",
    };
    let y = match b {
        Some(s) => s.as_str(),
        None => "",
    };
    proof {
        reveal_strlit("");
        assert(""@ =~= Seq::<char>::empty());
    }
    assert(x@ == cron_text(*a));
    assert(y@ == cron_text(*b));
    crate::text::str_eq(x, y)
}

fn key_matches(d: &PlannedDefinition, r: &LegacyTaskRow) -> (b: bool)
    ensures
        b == same_key(*d, *r),
{
    crate::text::str_eq(d.name.as_str(), r.name.as_str()) && d.task_type == r.task_type && d.repo_id
        == r.repo_id && crate::text::str_eq(d.prompt.as_str(), r.prompt.as_str()) && cron_text_eq(
        &d.cron_expr,
        &r.cron_expr,
    )
}

proof fn lemma_find_key(defs: Seq<PlannedDefinition>, r: LegacyTaskRow, k: int)
    requires
        0 <= k <= defs.len(),
        forall|j: int| 0 <= j < k ==> !same_key(#[trigger] defs[j], r),
        k < defs.len() ==> same_key(defs[k], r),
    ensures
        find_key(defs, r) == (if k < defs.len() { Some(k) } else { None::<int> }),
    decreases defs.len(),
{
    if defs.len() > 0 {
        let init = defs.drop_last();
        if k < defs.len() - 1 {
            assert forall|j: int| 0 <= j < k implies !same_key(#[trigger] init[j], r) by {
                assert(init[j] == defs[j]);
            }
            assert(init[k] == defs[k]);
            lemma_find_key(init, r, k);
        } else {
            assert forall|j: int| 0 <= j < init.len() implies !same_key(#[trigger] init[j], r) by {
                assert(init[j] == defs[j]);
            }
            lemma_find_key(init, r, init.len() as int);
        }
    }
}

proof fn lemma_fold_step(rows: Seq<LegacyTaskRow>, i: int)
    requires
        0 <= i < rows.len(),
    ensures
        migrate_fold(rows.take(i + 1)) == migrate_step(migrate_fold(rows.take(i)), rows[i]),
{
    assert(rows.take(i + 1).drop_last() =~= rows.take(i));
}

/// Row `i` is the first row with its grouping key.
pub open spec fn first_of_key(rows: Seq<LegacyTaskRow>, i: int) -> bool {
    forall|j: int| 0 <= j < i ==> row_key(#[trigger] rows[j]) != row_key(rows[i])
}

/// The indices of the rows that open a group (first row of each key), in order.
pub open spec fn group_starts(rows: Seq<LegacyTaskRow>) -> Seq<int>
    decreases rows.len(),
{
    if rows.len() == 0 {
        Seq::empty()
    } else if first_of_key(rows, rows.len() - 1) {
        group_starts(rows.drop_last()).push(rows.len() - 1)
    } else {
        group_starts(rows.drop_last())
    }
}

/// Some row with grouping key `key` is periodic or still open.
pub open spec fn group_active(rows: Seq<LegacyTaskRow>, key: GroupKey) -> bool {
    exists|j: int| 0 <= j < rows.len() && row_key(#[trigger] rows[j]) == key && keeps_active(rows[j])
}

/// The latest update time among the rows with grouping key `key`, if any.
pub open spec fn group_max(rows: Seq<LegacyTaskRow>, key: GroupKey) -> Option<i64>
    decreases rows.len(),
{
    if rows.len() == 0 {
        None
    } else {
        let m = group_max(rows.drop_last(), key);
        let r = rows.last();
        if row_key(r) != key {
            m
        } else {
            match m {
                Some(x) => if r.updated_at > x { Some(r.updated_at) } else { Some(x) },
                None => Some(r.updated_at),
            }
        }
    }
}

/// Row `j` writes its update time onto its definition: it opens its group,
/// keeps the definition active, or is newer than every earlier row of its group.
pub open spec fn writes_update_time(rows: Seq<LegacyTaskRow>, j: int) -> bool {
    ||| first_of_key(rows, j)
    ||| keeps_active(rows[j])
    ||| forall|k: int| 0 <= k < j && row_key(#[trigger] rows[k]) == row_key(rows[j]) ==> rows[k].updated_at < rows[j].updated_at
}

/// The update time a definition ends with: that of the last row of its
/// group that writes its update time.
pub open spec fn group_updated_at(rows: Seq<LegacyTaskRow>, key: GroupKey) -> i64
    decreases rows.len(),
{
    if rows.len() == 0 {
        0
    } else if row_key(rows.last()) == key && writes_update_time(rows, rows.len() - 1) {
        rows.last().updated_at
    } else {
        group_updated_at(rows.drop_last(), key)
    }
}

proof fn lemma_group_max(rows: Seq<LegacyTaskRow>, key: GroupKey)
    ensures
        group_max(rows, key) is None <==> forall|j: int| 0 <= j < rows.len() ==> row_key(#[trigger] rows[j]) != key,
        group_max(rows, key) matches Some(m) ==> (forall|j: int| 0 <= j < rows.len() && row_key(#[trigger] rows[j]) == key ==> rows[j].updated_at <= m)
            && exists|j: int| 0 <= j < rows.len() && row_key(#[trigger] rows[j]) == key && rows[j].updated_at == m,
    decreases rows.len(),
{
    if rows.len() > 0 {
        let p = rows.drop_last();
        lemma_group_max(p, key);
        assert forall|j: int| 0 <= j < p.len() implies #[trigger] rows[j] == p[j] by {}
        if group_max(p, key) is Some {
            let j = choose|j: int| 0 <= j < p.len() && row_key(#[trigger] p[j]) == key && p[j].updated_at == group_max(p, key)->Some_0;
            assert(rows[j] == p[j]);
        }
        if row_key(rows.last()) == key {
            assert(rows[rows.len() - 1] == rows.last());
        }
    }
}

/// The planned definitions and runs, stated directly: one definition per
/// grouping key, in the order of the keys' first rows, carrying that first
/// row's fields, active exactly when some row of the group is periodic or
/// open, and updated at the time of the group's last row that writes its
/// update time; one run per row, made of that row and attached to its key's
/// definition.
pub open spec fn grouped_by_key(rows: Seq<LegacyTaskRow>, defs: Seq<PlannedDefinition>, runs: Seq<PlannedRun>) -> bool {
    let gs = group_starts(rows);
    &&& defs.len() == gs.len()
    &&& forall|a: int, b: int| 0 <= a < b < gs.len() ==> #[trigger] gs[a] < #[trigger] gs[b]
    &&& forall|d: int| 0 <= d < gs.len() ==> {
        let i = #[trigger] gs[d];
        let f = defs[d];
        &&& 0 <= i < rows.len()
        &&& first_of_key(rows, i)
        &&& f.name == rows[i].name
        &&& f.task_type == rows[i].task_type
        &&& f.repo_id == rows[i].repo_id
        &&& f.prompt == rows[i].prompt
        &&& f.cron_expr == rows[i].cron_expr
        &&& f.created_at == rows[i].created_at
        &&& f.status == (if group_active(rows, row_key(rows[i])) {
            TaskDefinitionStatus::Active
        } else {
            TaskDefinitionStatus::Paused
        })
        &&& f.updated_at == group_updated_at(rows, row_key(rows[i]))
    }
    &&& runs.len() == rows.len()
    &&& forall|i: int| 0 <= i < rows.len() ==> {
        let d = (#[trigger] runs[i]).definition as int;
        &&& 0 <= d < defs.len()
        &&& row_key(rows[gs[d]]) == row_key(rows[i])
        &&& runs[i] == run_of(rows[i], d)
    }
}

proof fn lemma_grouped_by_key(rows: Seq<LegacyTaskRow>)
    requires
        rows.len() <= usize::MAX,
    ensures
        grouped_by_key(rows, migrate_fold(rows).0, migrate_fold(rows).2),
        migrate_fold(rows).0.len() == migrate_fold(rows).1.len(),
        migrate_fold(rows).0.len() <= rows.len(),
        forall|d: int| 0 <= d < migrate_fold(rows).0.len()
            ==> group_max(rows, def_key(#[trigger] migrate_fold(rows).0[d])) == Some(migrate_fold(rows).1[d]),
    decreases rows.len(),
{
    if rows.len() > 0 {
        let p = rows.drop_last();
        let r = rows.last();
        let n = p.len() as int;
        assert(rows == p.push(r));
        lemma_grouped_by_key(p);
        let st = migrate_fold(p);
        let gp = group_starts(p);
        let defs = st.0;
        let key = row_key(r);
        assert forall|j: int| 0 <= j < n implies #[trigger] writes_update_time(rows, j) == writes_update_time(p, j) by {
            assert(rows[j] == p[j]);
            assert(first_of_key(rows, j) == first_of_key(p, j)) by {
                assert forall|k: int| 0 <= k < j implies rows[k] == p[k] by {}
            }
            assert forall|k: int| 0 <= k < j implies #[trigger] rows[k] == p[k] by {}
        }
        assert(rows.last() == r);
        assert forall|kk: GroupKey| kk != key implies group_updated_at(rows, kk) == group_updated_at(p, kk)
            && group_max(rows, kk) == group_max(p, kk) by {}
        lemma_group_max(p, key);
        assert forall|j: int| 0 <= j < n implies #[trigger] rows[j] == p[j] by {}
        // Definition keys are the keys of their first rows.
        assert forall|d: int| 0 <= d < defs.len() implies def_key(#[trigger] defs[d]) == row_key(p[gp[d]]) by {
            let i = gp[d];
        }
        // Keys of distinct definitions differ.
        assert forall|a: int, b: int| 0 <= a < b < defs.len() implies def_key(#[trigger] defs[a]) != def_key(#[trigger] defs[b]) by {
            let ia = gp[a];
            let ib = gp[b];
            assert(ia < ib);
            assert(first_of_key(p, ib));
            assert(row_key(p[ia]) != row_key(p[ib]));
        }
        // Status facts carry over for keys other than the new row's.
        assert forall|key: GroupKey| key != row_key(r) implies group_active(rows, key) == group_active(p, key) by {
            if group_active(rows, key) {
                let j = choose|j: int| 0 <= j < rows.len() && row_key(#[trigger] rows[j]) == key && keeps_active(rows[j]);
                assert(j != n);
                assert(p[j] == rows[j]);
            }
            if group_active(p, key) {
                let j = choose|j: int| 0 <= j < p.len() && row_key(#[trigger] p[j]) == key && keeps_active(p[j]);
                assert(p[j] == rows[j]);
            }
        }
        assert(group_active(rows, row_key(r)) == (group_active(p, row_key(r)) || keeps_active(r))) by {
            if group_active(rows, row_key(r)) && !keeps_active(r) {
                let j = choose|j: int| 0 <= j < rows.len() && row_key(#[trigger] rows[j]) == row_key(r) && keeps_active(rows[j]);
                assert(j != n);
                assert(p[j] == rows[j]);
            }
            if group_active(p, row_key(r)) {
                let j = choose|j: int| 0 <= j < p.len() && row_key(#[trigger] p[j]) == row_key(r) && keeps_active(p[j]);
                assert(p[j] == rows[j]);
            }
            if keeps_active(r) {
                assert(rows[n] == r);
            }
        }
        assert forall|i: int| 0 <= i < n implies first_of_key(rows, i) == first_of_key(p, i) by {
            assert forall|j: int| 0 <= j < i implies rows[j] == p[j] by {}
        }
        let st2 = migrate_fold(rows);
        assert(migrate_fold(rows) == migrate_step(st, r));
        if first_of_key(rows, n) {
            assert(group_starts(rows) == gp.push(n));
            assert forall|j: int| 0 <= j < defs.len() implies !same_key(#[trigger] defs[j], r) by {
                assert(row_key(rows[gp[j]]) != row_key(rows[n]));
            }
            lemma_find_key(defs, r, defs.len() as int);
            assert(st2.0.len() == defs.len() + 1);
            assert forall|d: int| 0 <= d < defs.len() implies #[trigger] st2.0[d] == defs[d] by {}
            let gs = gp.push(n);
            assert(!group_active(p, row_key(r))) by {
                if group_active(p, row_key(r)) {
                    let j = choose|j: int| 0 <= j < p.len() && row_key(#[trigger] p[j]) == row_key(r) && keeps_active(p[j]);
                    assert(rows[j] == p[j]);
                    assert(row_key(rows[j]) != row_key(rows[n]));
                }
            }
            let k = defs.len() as int;
            assert(st2.0[k].name == r.name && st2.0[k].prompt == r.prompt && st2.0[k].task_type == r.task_type
                && st2.0[k].repo_id == r.repo_id && st2.0[k].cron_expr == r.cron_expr && st2.0[k].created_at == r.created_at);
            assert(rows[n] == r);
            assert(writes_update_time(rows, n));
            assert(st2.0[k].updated_at == r.updated_at);
            assert(group_updated_at(rows, key) == r.updated_at);
            assert(group_max(p, key) is None) by {
                assert forall|j: int| 0 <= j < p.len() implies row_key(#[trigger] p[j]) != key by {
                    assert(rows[j] == p[j]);
                    assert(row_key(rows[j]) != row_key(rows[n]));
                }
            }
            assert(group_max(rows, key) == Some(r.updated_at));
            assert forall|d: int| 0 <= d < st2.0.len() implies group_max(rows, def_key(#[trigger] st2.0[d])) == Some(st2.1[d]) by {
                if d < defs.len() {
                    assert(st2.0[d] == defs[d]);
                    assert(def_key(defs[d]) != key) by {
                        assert(!same_key(defs[d], r));
                    }
                }
            }
            assert forall|a: int, b: int| 0 <= a < b < gs.len() implies #[trigger] gs[a] < #[trigger] gs[b] by {
                if b == gs.len() - 1 {
                    assert(gs[a] == gp[a]);
                }
            }
            assert forall|d: int| 0 <= d < gs.len() implies {
                let i = #[trigger] gs[d];
                let f = st2.0[d];
                &&& 0 <= i < rows.len()
                &&& first_of_key(rows, i)
                &&& f.name == rows[i].name
                &&& f.task_type == rows[i].task_type
                &&& f.repo_id == rows[i].repo_id
                &&& f.prompt == rows[i].prompt
                &&& f.cron_expr == rows[i].cron_expr
                &&& f.created_at == rows[i].created_at
                &&& f.status == (if group_active(rows, row_key(rows[i])) {
                    TaskDefinitionStatus::Active
                } else {
                    TaskDefinitionStatus::Paused
                })
                &&& f.updated_at == group_updated_at(rows, row_key(rows[i]))
            } by {
                if d < gp.len() {
                    let i = gp[d];
                    assert(gs[d] == i);
                    assert(rows[i] == p[i]);
                    assert(row_key(p[i]) != row_key(r)) by {
                        assert(first_of_key(rows, n));
                        assert(row_key(rows[i]) != row_key(rows[n]));
                    }
                }
            }
            assert forall|i: int| 0 <= i < rows.len() implies {
                let d = (#[trigger] st2.2[i]).definition as int;
                &&& 0 <= d < st2.0.len()
                &&& row_key(rows[gs[d]]) == row_key(rows[i])
                &&& st2.2[i] == run_of(rows[i], d)
            } by {
                if i < n {
                    assert(st2.2[i] == st.2[i]);
                    let d = st.2[i].definition as int;
                    assert(gs[d] == gp[d]);
                    assert(rows[gp[d]] == p[gp[d]]);
                } else {
                    assert(st2.2[i] == run_of(r, k));
                    assert(gs[k] == n);
                }
            }
            assert(grouped_by_key(rows, st2.0, st2.2));
        } else {
            assert(group_starts(rows) == gp);
            let j0 = choose|j: int| 0 <= j < n && row_key(#[trigger] rows[j]) == row_key(rows[n]);
            assert(rows[j0] == p[j0]);
            let d0 = st.2[j0].definition as int;
            assert(same_key(defs[d0], r));
            assert forall|j: int| 0 <= j < d0 implies !same_key(#[trigger] defs[j], r) by {
                assert(def_key(defs[j]) != def_key(defs[d0]));
            }
            lemma_find_key(defs, r, d0);
            assert(st2.0.len() == defs.len());
            assert forall|d: int| 0 <= d < defs.len() && d != d0 implies #[trigger] st2.0[d] == defs[d] by {}
            assert(row_key(rows[gp[d0]]) == row_key(r));
            let defs1 = defs;
            let defs2 = if r.updated_at > st.1[d0] {
                defs1.update(d0, PlannedDefinition { updated_at: r.updated_at, ..defs1[d0] })
            } else {
                defs1
            };
            assert(defs2.len() == defs.len());
            assert(defs2[d0].status == defs[d0].status);
            assert(defs2[d0].name == defs[d0].name && defs2[d0].prompt == defs[d0].prompt
                && defs2[d0].task_type == defs[d0].task_type && defs2[d0].repo_id == defs[d0].repo_id
                && defs2[d0].cron_expr == defs[d0].cron_expr && defs2[d0].created_at == defs[d0].created_at);
            let i0 = gp[d0];
            assert(st2.0[d0].name == rows[i0].name);
            let m = st.1[d0];
            assert(def_key(defs[d0]) == key);
            assert(group_max(p, key) == Some(m));
            assert(writes_update_time(rows, n) == (keeps_active(r) || r.updated_at > m)) by {
                assert(!first_of_key(rows, n));
                if r.updated_at > m {
                    assert forall|k: int| 0 <= k < n && row_key(#[trigger] rows[k]) == row_key(rows[n]) implies rows[k].updated_at < rows[n].updated_at by {
                        assert(rows[k] == p[k]);
                    }
                } else {
                    let j = choose|j: int| 0 <= j < p.len() && row_key(#[trigger] p[j]) == key && p[j].updated_at == m;
                    assert(rows[j] == p[j]);
                }
            }
            assert(st2.0[d0].updated_at == group_updated_at(rows, key));
            assert forall|d: int| 0 <= d < st2.0.len() implies group_max(rows, def_key(#[trigger] st2.0[d])) == Some(st2.1[d]) by {
                if d != d0 {
                    assert(st2.0[d] == defs[d]);
                    assert(def_key(defs[d]) != def_key(defs[d0]));
                }
            }
            assert(st2.0[d0].status == (if group_active(rows, row_key(rows[i0])) {
                TaskDefinitionStatus::Active
            } else {
                TaskDefinitionStatus::Paused
            }));
            assert(st2.2.len() == rows.len());
            assert forall|i: int| 0 <= i < rows.len() implies {
                let d = (#[trigger] st2.2[i]).definition as int;
                &&& 0 <= d < st2.0.len()
                &&& row_key(rows[gp[d]]) == row_key(rows[i])
                &&& st2.2[i] == run_of(rows[i], d)
            } by {
                if i < n {
                    assert(st2.2[i] == st.2[i]);
                    let d = st.2[i].definition as int;
                    assert(rows[gp[d]] == p[gp[d]]);
                } else {
                    assert(st2.2[i] == run_of(r, d0));
                }
            }
            assert forall|d: int| 0 <= d < gp.len() implies {
                let i = #[trigger] gp[d];
                let f = st2.0[d];
                &&& 0 <= i < rows.len()
                &&& first_of_key(rows, i)
                &&& f.name == rows[i].name
                &&& f.task_type == rows[i].task_type
                &&& f.repo_id == rows[i].repo_id
                &&& f.prompt == rows[i].prompt
                &&& f.cron_expr == rows[i].cron_expr
                &&& f.created_at == rows[i].created_at
                &&& f.status == (if group_active(rows, row_key(rows[i])) {
                    TaskDefinitionStatus::Active
                } else {
                    TaskDefinitionStatus::Paused
                })
                &&& f.updated_at == group_updated_at(rows, row_key(rows[i]))
            } by {
                let i = gp[d];
                assert(rows[i] == p[i]);
                if d != d0 {
                    assert(row_key(p[i]) != row_key(r));
                }
            }
            assert(grouped_by_key(rows, st2.0, st2.2));
        }
    }
}

/// The legacy table is converted only when it exists, holds rows, and no
/// task definition has been stored yet (so the conversion happens at most once).
pub fn needs_legacy_migration(legacy_table_exists: bool, definition_count: i64, legacy_count: i64) -> (r: bool)
    ensures
        r == (legacy_table_exists && definition_count <= 0 && legacy_count != 0),
{
    legacy_table_exists && definition_count <= 0 && legacy_count != 0
}

/// Plans the conversion of the legacy rows, in table order.
pub fn plan_legacy_migration(rows: Vec<LegacyTaskRow>) -> (r: MigrationPlan)
    ensures
        r.definitions@ == migrate_fold(rows@).0,
        r.runs@ == migrate_fold(rows@).2,
        r.runs@.len() == rows@.len(),
        forall|i: int| 0 <= i < rows@.len() ==> (#[trigger] r.runs@[i]).definition < r.definitions@.len()
            && same_key(r.definitions@[r.runs@[i].definition as int], rows@[i]),
        forall|a: int, b: int|
            0 <= a < b < r.definitions@.len() ==> def_key(#[trigger] r.definitions@[a]) != def_key(
                #[trigger] r.definitions@[b],
            ),
        grouped_by_key(rows@, r.definitions@, r.runs@),
{
    let count = rows.len();
    proof {
        assert(rows@.len() == count);
        lemma_grouped_by_key(rows@);
    }
    let mut defs: Vec<PlannedDefinition> = Vec::new();
    let mut last: Vec<i64> = Vec::new();
    let mut runs: Vec<PlannedRun> = Vec::new();
    let ghost all = rows@;
    assert(all.take(0) =~= Seq::<LegacyTaskRow>::empty());
    let mut i: usize = 0;
    while i < rows.len()
        invariant
            i <= rows.len(),
            all == rows@,
            defs@ == migrate_fold(all.take(i as int)).0,
            last@ == migrate_fold(all.take(i as int)).1,
            runs@ == migrate_fold(all.take(i as int)).2,
            defs@.len() == last@.len(),
            runs@.len() == i,
            forall|j: int| 0 <= j < i ==> (#[trigger] runs@[j]).definition < defs@.len()
                && same_key(defs@[runs@[j].definition as int], all[j]),
            forall|a: int, b: int|
                0 <= a < b < defs@.len() ==> def_key(#[trigger] defs@[a]) != def_key(#[trigger] defs@[b]),
        decreases rows.len() - i,
    {
        proof {
            lemma_fold_step(all, i as int);
        }
        let row = &rows[i];
        let mut k: usize = 0;
        while k < defs.len() && !key_matches(&defs[k], row)
            invariant
                k <= defs.len(),
                forall|j: int| 0 <= j < k ==> !same_key(#[trigger] defs@[j], *row),
            decreases defs.len() - k,
        {
            k = k + 1;
        }
        proof {
            lemma_find_key(defs@, *row, k as int);
        }
        if k == defs.len() {
            let active = row.cron_expr.is_some() || row.status == TaskStatus::Pending || row.status == TaskStatus::Running;
            let def = PlannedDefinition {
                name: row.name.clone(),
                task_type: row.task_type,
                repo_id: row.repo_id,
                prompt: row.prompt.clone(),
                cron_expr: crate::text::clone_opt(&row.cron_expr),
                status: if active { TaskDefinitionStatus::Active } else { TaskDefinitionStatus::Paused },
                created_at: row.created_at,
                updated_at: row.updated_at,
            };
            assert(def == new_definition(*row));
            defs.push(def);
            last.push(row.updated_at);
        }
        let ghost defs1 = defs@;
        if row.updated_at > last[k] {
            let d = &defs[k];
            let updated = PlannedDefinition {
                name: d.name.clone(),
                task_type: d.task_type,
                repo_id: d.repo_id,
                prompt: d.prompt.clone(),
                cron_expr: crate::text::clone_opt(&d.cron_expr),
                status: d.status,
                created_at: d.created_at,
                updated_at: row.updated_at,
            };
            defs.set(k, updated);
            last.set(k, row.updated_at);
        }
        if row.cron_expr.is_some() || row.status == TaskStatus::Pending || row.status == TaskStatus::Running {
            let d = &defs[k];
            let updated = PlannedDefinition {
                name: d.name.clone(),
                task_type: d.task_type,
                repo_id: d.repo_id,
                prompt: d.prompt.clone(),
                cron_expr: crate::text::clone_opt(&d.cron_expr),
                status: TaskDefinitionStatus::Active,
                created_at: d.created_at,
                updated_at: row.updated_at,
            };
            defs.set(k, updated);
        }
        let finished = crate::schedule::is_finished(row.status);
        let run = PlannedRun {
            definition: k,
            scheduled_at: row.scheduled_at,
            started_at: row.started_at,
            finished_at: if finished { Some(row.updated_at) } else { None },
            status: row.status,
            result: crate::text::clone_opt(&row.result),
            retry_count: row.retry_count,
            created_at: row.created_at,
        };
        runs.push(run);
        proof {
            let st = migrate_fold(all.take(i as int));
            let st2 = migrate_fold(all.take(i + 1));
            assert(defs@ =~= st2.0);
            assert(last@ =~= st2.1);
            assert(runs@ =~= st2.2);
            assert forall|j: int| 0 <= j < i + 1 implies (#[trigger] runs@[j]).definition < defs@.len()
                && same_key(defs@[runs@[j].definition as int], all[j]) by {
                if j < i {
                    assert(runs@[j] == st.2[j]);
                }
            }
        }
        i = i + 1;
    }
    assert(all.take(rows.len() as int) =~= all);
    MigrationPlan { definitions: defs, runs }
}

} // verus!
