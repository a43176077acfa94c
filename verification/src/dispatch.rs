//! What the dispatcher records and announces when a task run ends: who
//! receives the inbox message, the users discovered among commit authors,
//! the message itself, and the notification sent to the channels.

use vstd::prelude::*;

use crate::jobs::JobOutput;
use crate::models::{task_status_name, task_type_name, NewMessage, NewUser, Task, TaskStatus, User};
use crate::notifier::{truncated, Notification};

verus! {

/// The title of the inbox message of a finished run: the repository, the
/// task type and the commit range when the output names them, else the
/// task's name.
pub open spec fn message_title(task: Task, output: JobOutput) -> Seq<char> {
    match (output.repo_name, output.commit_range) {
        (Some(repo), Some(range)) => repo@ + " "@ + task_type_name(task.task_type) + " "@ + range@,
        (Some(repo), None) => repo@ + " "@ + task_type_name(task.task_type),
        _ => task.name@,
    }
}

/// Builds the title of the inbox message of a finished run.
pub fn build_message_title(task: &Task, output: &JobOutput) -> (r: String)
    ensures
        r@ == message_title(*task, *output),
{
    match (&output.repo_name, &output.commit_range) {
        (Some(repo), Some(range)) => {
            let mut r = repo.clone();
            r.append(" ");
            r.append(task.task_type.as_str());
            r.append(" ");
            r.append(range.as_str());
            r
        },
        (Some(repo), None) => {
            let mut r = repo.clone();
            r.append(" ");
            r.append(task.task_type.as_str());
            r
        },
        _ => task.name.clone(),
    }
}

/// The message a user finds in the inbox after a run succeeded: the output
/// with its summary cut to 500 characters.
pub fn task_message(user_id: i64, title: &str, output: &JobOutput) -> (r: NewMessage)
    ensures
        r.user_id == user_id,
        r.title@ == title@,
        r.repo_name == output.repo_name,
        r.content@ == output.content@,
        r.summary@ == truncated(output.summary@, 500),
        r.report_path == output.report_path,
        r.commit_range == output.commit_range,
{
    NewMessage {
        user_id,
        title: title.to_owned(),
        repo_name: crate::text::clone_opt(&output.repo_name),
        content: output.content.clone(),
        summary: crate::notifier::truncate_chars(output.summary.as_str(), 500),
        report_path: crate::text::clone_opt(&output.report_path),
        commit_range: crate::text::clone_opt(&output.commit_range),
    }
}

/// Whole seconds from `started` to `now` (nanosecond instants), cut toward
/// zero and never negative; zero for a run that never started.
pub open spec fn elapsed_secs(started: Option<i64>, now: i64) -> int {
    match started {
        Some(s) => if now - s <= 0 { 0 } else { (now - s) / 1_000_000_000 },
        None => 0,
    }
}

/// How long a run took, in whole seconds.
pub fn run_duration_secs(started: Option<i64>, now: i64) -> (r: u64)
    ensures
        r == elapsed_secs(started, now),
{
    match started {
        Some(s) => {
            let d: i128 = now as i128 - s as i128;
            if d <= 0 {
                0
            } else {
                let secs: i128 = d / 1_000_000_000;
                assert(secs <= d);
                secs as u64
            }
        },
        None => 0,
    }
}

/// The notification of a finished run; the summary is cut to 500 characters.
pub fn task_notification(
    task: &Task,
    status: TaskStatus,
    summary: &str,
    repo_name: Option<String>,
    report_path: Option<String>,
    duration_secs: u64,
) -> (r: Notification)
    ensures
        r.task_name@ == task.name@,
        r.task_type@ == task_type_name(task.task_type),
        r.repo_name == repo_name,
        r.status@ == task_status_name(status),
        r.summary@ == truncated(summary@, 500),
        r.report_path == report_path,
        r.duration_secs == duration_secs,
{
    Notification {
        task_name: task.name.clone(),
        task_type: task.task_type.as_str().to_owned(),
        repo_name,
        status: status.as_str().to_owned(),
        summary: crate::notifier::truncate_chars(summary, 500),
        report_path,
        duration_secs,
    }
}


/// The author of a reviewed commit.
#[derive(Debug, Clone)]
pub struct CommitAuthor {
    pub email: String,
    pub name: String,
}

/// Some author has this email.
pub open spec fn is_author(authors: Seq<CommitAuthor>, email: Seq<char>) -> bool {
    exists|i: int| 0 <= i < authors.len() && (#[trigger] authors[i]).email@ == email
}

/// Some user has this email.
pub open spec fn has_user(users: Seq<User>, email: Seq<char>) -> bool {
    exists|i: int| 0 <= i < users.len() && (#[trigger] users[i]).email@ == email
}

/// The ids of the users whose email is among the authors, in user order.
pub open spec fn author_user_ids(users: Seq<User>, authors: Seq<CommitAuthor>) -> Seq<i64>
    decreases users.len(),
{
    if users.len() == 0 {
        Seq::empty()
    } else if is_author(authors, users.last().email@) {
        author_user_ids(users.drop_last(), authors).push(users.last().id)
    } else {
        author_user_ids(users.drop_last(), authors)
    }
}

fn email_in_authors(authors: &Vec<CommitAuthor>, email: &str) -> (r: bool)
    ensures
        r == is_author(authors@, email@),
{
    let mut i: usize = 0;
    while i < authors.len()
        invariant
            i <= authors.len(),
            forall|j: int| 0 <= j < i ==> (#[trigger] authors@[j]).email@ != email@,
        decreases authors.len() - i,
    {
        if crate::text::str_eq(authors[i].email.as_str(), email) {
            assert(authors@[i as int].email@ == email@);
            return true;
        }
        i = i + 1;
    }
    false
}

fn email_in_users(users: &Vec<User>, email: &str) -> (r: bool)
    ensures
        r == has_user(users@, email@),
{
    let mut i: usize = 0;
    while i < users.len()
        invariant
            i <= users.len(),
            forall|j: int| 0 <= j < i ==> (#[trigger] users@[j]).email@ != email@,
        decreases users.len() - i,
    {
        if crate::text::str_eq(users[i].email.as_str(), email) {
            assert(users@[i as int].email@ == email@);
            return true;
        }
        i = i + 1;
    }
    false
}

/// Who receives the inbox message of a finished run: when the run reviewed
/// a commit range (`authors` given), the users who authored a commit of it;
/// otherwise every user. Both lists keep the users' order.
pub fn message_recipients(users: &Vec<User>, authors: Option<&Vec<CommitAuthor>>) -> (r: Vec<i64>)
    ensures
        match authors {
            Some(a) => r@ == author_user_ids(users@, a@),
            None => r@ == users@.map_values(|u: User| u.id),
        },
{
    let mut r: Vec<i64> = Vec::new();
    let mut i: usize = 0;
    while i < users.len()
        invariant
            i <= users.len(),
            match authors {
                Some(a) => r@ == author_user_ids(users@.take(i as int), a@),
                None => r@ == users@.take(i as int).map_values(|u: User| u.id),
            },
        decreases users.len() - i,
    {
        proof {
            assert(users@.take(i + 1).drop_last() =~= users@.take(i as int));
            assert(users@.take(i + 1).last() == users@[i as int]);
        }
        let wanted = match authors {
            Some(a) => email_in_authors(a, users[i].email.as_str()),
            None => true,
        };
        if wanted {
            r.push(users[i].id);
        }
        proof {
            if authors is None {
                assert(users@.take(i + 1).map_values(|u: User| u.id) =~= users@.take(i as int).map_values(|u: User| u.id).push(users@[i as int].id));
            }
        }
        i = i + 1;
    }
    assert(users@.take(users.len() as int) =~= users@);
    r
}

/// The authors that become new users: each email with no user yet, once,
/// at its first appearance.
pub open spec fn unknown_authors(users: Seq<User>, authors: Seq<CommitAuthor>) -> Seq<CommitAuthor>
    decreases authors.len(),
{
    if authors.len() == 0 {
        Seq::empty()
    } else {
        let a = authors.last();
        let before = authors.drop_last();
        if !has_user(users, a.email@) && !is_author(before, a.email@) {
            unknown_authors(users, before).push(a)
        } else {
            unknown_authors(users, before)
        }
    }
}

/// The users to create for the authors of a reviewed range: one per author
/// email that no user has, not activated (no password), named after the author.
pub fn discovered_users(users: &Vec<User>, authors: &Vec<CommitAuthor>) -> (r: Vec<NewUser>)
    ensures
        r@.len() == unknown_authors(users@, authors@).len(),
        forall|k: int| 0 <= k < r@.len() ==> {
            &&& (#[trigger] r@[k]).email@ == unknown_authors(users@, authors@)[k].email@
            &&& r@[k].display_name@ == unknown_authors(users@, authors@)[k].name@
            &&& r@[k].password_hash is None
            &&& r@[k].avatar_url is None
        },
{
    let mut r: Vec<NewUser> = Vec::new();
    let mut i: usize = 0;
    while i < authors.len()
        invariant
            i <= authors.len(),
            r@.len() == unknown_authors(users@, authors@.take(i as int)).len(),
            forall|k: int| 0 <= k < r@.len() ==> {
                &&& (#[trigger] r@[k]).email@ == unknown_authors(users@, authors@.take(i as int))[k].email@
                &&& r@[k].display_name@ == unknown_authors(users@, authors@.take(i as int))[k].name@
                &&& r@[k].password_hash is None
                &&& r@[k].avatar_url is None
            },
        decreases authors.len() - i,
    {
        let ghost before = authors@.take(i as int);
        proof {
            assert(authors@.take(i + 1).drop_last() =~= before);
            assert(authors@.take(i + 1).last() == authors@[i as int]);
        }
        let a = &authors[i];
        let known = email_in_users(users, a.email.as_str());
        let mut seen = false;
        let mut j: usize = 0;
        while j < i
            invariant
                j <= i < authors.len(),
                before == authors@.take(i as int),
                !seen ==> forall|k: int| 0 <= k < j ==> (#[trigger] authors@[k]).email@ != a.email@,
                seen ==> is_author(before, a.email@),
            decreases i - j,
        {
            if crate::text::str_eq(authors[j].email.as_str(), a.email.as_str()) {
                assert(before[j as int] == authors@[j as int]);
                seen = true;
            }
            j = j + 1;
        }
        proof {
            if !seen {
                assert forall|k: int| 0 <= k < before.len() implies (#[trigger] before[k]).email@ != a.email@ by {
                    assert(before[k] == authors@[k]);
                }
            }
        }
        if !known && !seen {
            r.push(NewUser {
                email: a.email.clone(),
                display_name: a.name.clone(),
                password_hash: None,
                avatar_url: None,
            });
        }
        i = i + 1;
    }
    assert(authors@.take(authors.len() as int) =~= authors@);
    r
}


/// After discovery every author has a user: each author email either
/// belongs to an existing user or is among the users discovered, and no
/// discovered user repeats an existing user's email.
pub proof fn lemma_every_author_has_user(users: Seq<User>, authors: Seq<CommitAuthor>)
    ensures
        forall|i: int| 0 <= i < authors.len() ==> has_user(users, (#[trigger] authors[i]).email@)
            || is_author(unknown_authors(users, authors), authors[i].email@),
        forall|k: int| 0 <= k < unknown_authors(users, authors).len()
            ==> !has_user(users, (#[trigger] unknown_authors(users, authors)[k]).email@),
    decreases authors.len(),
{
    if authors.len() > 0 {
        let before = authors.drop_last();
        let a = authors.last();
        lemma_every_author_has_user(users, before);
        let u0 = unknown_authors(users, before);
        let u = unknown_authors(users, authors);
        assert forall|x: Seq<char>| is_author(u0, x) implies is_author(u, x) by {
            let k = choose|k: int| 0 <= k < u0.len() && (#[trigger] u0[k]).email@ == x;
            assert(u[k] == u0[k]);
        }
        assert forall|i: int| 0 <= i < authors.len() implies has_user(users, (#[trigger] authors[i]).email@)
            || is_author(u, authors[i].email@) by {
            if i < before.len() {
                assert(authors[i] == before[i]);
            } else if !has_user(users, a.email@) {
                if is_author(before, a.email@) {
                    let j = choose|j: int| 0 <= j < before.len() && (#[trigger] before[j]).email@ == a.email@;
                    assert(has_user(users, before[j].email@) || is_author(u0, before[j].email@));
                } else {
                    assert(u[u.len() - 1] == a);
                }
            }
        }
        assert forall|k: int| 0 <= k < u.len() implies !has_user(users, (#[trigger] u[k]).email@) by {
            if k < u0.len() {
                assert(u[k] == u0[k]);
            }
        }
    }
}

} // verus!
