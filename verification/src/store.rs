//! The operations on the task list.
//!
//! The list is a `Vec<Task>` in the order of the backing file, oldest first.
//! Each operation is stated over the views of the tasks: what it returns and
//! what the list holds afterwards are given by the spec functions below.

use vstd::prelude::*;
use crate::clock::local_now;
use crate::due::{due_word, ends_a_day, parse_due_date};
use crate::seqs::{first_where, lemma_filter_step, lemma_first_where, lemma_first_where_is};
use crate::task::{Task, TaskView, views};
use crate::timestamp::Timestamp;

verus! {

/// The id that the next task gets: one more than the id of the last record,
/// or 1 where there is none.
pub open spec fn next_id(tasks: Seq<TaskView>) -> int {
    if tasks.len() == 0 {
        1
    } else {
        tasks.last().id + 1
    }
}

/// Some record has the id.
pub open spec fn has_id(tasks: Seq<TaskView>, id: u32) -> bool {
    exists|i: int| 0 <= i < tasks.len() && (#[trigger] tasks[i]).id == id
}

/// The test that a record has the id.
pub open spec fn with_id(id: u32) -> spec_fn(TaskView) -> bool {
    |t: TaskView| t.id == id
}

/// The position of the first record with the id, or the length of the list
/// where no record has it.
pub open spec fn first_with_id(tasks: Seq<TaskView>, id: u32) -> int {
    first_where(tasks, with_id(id))
}

/// No two records share an id.
pub open spec fn ids_unique(tasks: Seq<TaskView>) -> bool {
    forall|i: int, j: int|
        0 <= i < tasks.len() && 0 <= j < tasks.len() && i != j ==> (#[trigger] tasks[i]).id != (
        #[trigger] tasks[j]).id
}

/// Ids grow along the list, as they do where records are only ever appended.
pub open spec fn ids_increasing(tasks: Seq<TaskView>) -> bool {
    forall|i: int, j: int|
        0 <= i < j < tasks.len() ==> (#[trigger] tasks[i]).id < (#[trigger] tasks[j]).id
}

/// The test that keeps every record but those with the id.
pub open spec fn other_than(id: u32) -> spec_fn(TaskView) -> bool {
    |t: TaskView| t.id != id
}

/// The test that a listing applies: everything, or the pending tasks only.
pub open spec fn shown(show_all: bool) -> spec_fn(TaskView) -> bool {
    |t: TaskView| show_all || t.pending()
}

/// The list after a task was added.
pub open spec fn with_task_added(
    tasks: Seq<TaskView>,
    description: Seq<char>,
    created_at: Timestamp,
    due_date: Option<Timestamp>,
) -> Seq<TaskView> {
    tasks.push(
        TaskView {
            id: next_id(tasks) as u32,
            description,
            created_at,
            completed_at: None,
            due_date,
        },
    )
}

/// The list after the first task with the id was marked complete at `at`;
/// the list itself where no task has the id.
pub open spec fn with_task_completed(tasks: Seq<TaskView>, id: u32, at: Timestamp) -> Seq<
    TaskView,
> {
    let k = first_with_id(tasks, id);
    if k < tasks.len() {
        tasks.update(k, TaskView { completed_at: Some(at), ..tasks[k] })
    } else {
        tasks
    }
}

/// The list after every task with the id was taken out.
pub open spec fn with_task_deleted(tasks: Seq<TaskView>, id: u32) -> Seq<TaskView> {
    tasks.filter(other_than(id))
}

/// What a listing shows, in the order of the list.
pub open spec fn listed(tasks: Seq<TaskView>, show_all: bool) -> Seq<TaskView> {
    tasks.filter(shown(show_all))
}

/// `first_with_id` is `k` where no record before `k` has the id and either
/// the record at `k` has it or `k` is the length of the list.
pub proof fn lemma_first_with_id(tasks: Seq<TaskView>, id: u32, k: int)
    requires
        0 <= k <= tasks.len(),
        forall|j: int| 0 <= j < k ==> (#[trigger] tasks[j]).id != id,
        k < tasks.len() ==> tasks[k].id == id,
    ensures
        first_with_id(tasks, id) == k,
{
    lemma_first_where_is(tasks, with_id(id), k);
}

/// `first_with_id` points at a record with the id exactly where one exists,
/// and no record before it has the id.
pub proof fn lemma_first_with_id_bounds(tasks: Seq<TaskView>, id: u32)
    ensures
        0 <= first_with_id(tasks, id) <= tasks.len(),
        first_with_id(tasks, id) < tasks.len() <==> has_id(tasks, id),
        first_with_id(tasks, id) < tasks.len() ==> tasks[first_with_id(tasks, id)].id == id,
        forall|j: int| 0 <= j < first_with_id(tasks, id) ==> (#[trigger] tasks[j]).id != id,
{
    lemma_first_where(tasks, with_id(id));
    let k = first_with_id(tasks, id);
    assert forall|j: int| 0 <= j < k implies (#[trigger] tasks[j]).id != id by {
        assert(!with_id(id)(tasks[j]));
    }
    if k < tasks.len() {
        assert(with_id(id)(tasks[k]));
    }
    if has_id(tasks, id) {
        let i = choose|i: int| 0 <= i < tasks.len() && (#[trigger] tasks[i]).id == id;
        assert(with_id(id)(tasks[i]));
    }
}

/// The id that the next task gets, or `None` where it is beyond `u32`.
pub fn next_task_id(tasks: &Vec<Task>) -> (r: Option<u32>)
    ensures
        r == (if next_id(views(tasks@)) <= u32::MAX {
            Some(next_id(views(tasks@)) as u32)
        } else {
            None
        }),
{
    let n = tasks.len();
    if n == 0 {
        Some(1)
    } else {
        tasks[n - 1].id.checked_add(1)
    }
}

/// Decides `has_id`.
pub fn has_task(tasks: &Vec<Task>, id: u32) -> (found: bool)
    ensures
        found == has_id(views(tasks@), id),
{
    let n = tasks.len();
    let mut i: usize = 0;
    while i < n
        invariant
            n == tasks.len(),
            0 <= i <= n,
            forall|j: int| 0 <= j < i ==> (#[trigger] views(tasks@)[j]).id != id,
        decreases n - i,
    {
        if tasks[i].id == id {
            assert(views(tasks@)[i as int].id == id);
            return true;
        }
        i += 1;
    }
    false
}

/// Appends a task that was created at `created_at`, not yet complete, and
/// returns its id.
pub fn add_task_at(
    tasks: &mut Vec<Task>,
    description: String,
    created_at: Timestamp,
    due_date: Option<Timestamp>,
) -> (id: u32)
    requires
        next_id(views(old(tasks)@)) <= u32::MAX,
    ensures
        id == next_id(views(old(tasks)@)),
        views(final(tasks)@) == with_task_added(
            views(old(tasks)@),
            description@,
            created_at,
            due_date,
        ),
{
    let n = tasks.len();
    let id: u32 = if n == 0 {
        1
    } else {
        tasks[n - 1].id + 1
    };
    let task = Task { id, description, created_at, completed_at: None, due_date };
    tasks.push(task);
    assert(views(tasks@) =~= with_task_added(
        views(old(tasks)@),
        description@,
        created_at,
        due_date,
    ));
    id
}

/// Appends a task created now, with the due date that `due` names if it names
/// one, and returns a copy of it.
///
/// The creation time is the reading of the clock and the due date is resolved
/// in the local time zone, so the contract fixes everything else: where the
/// task stands, its id, its description, that it is pending, and that a due
/// date is the end of a civil day and is there only for a text that names one.
pub fn add_task(tasks: &mut Vec<Task>, description: String, due: Option<String>) -> (task: Task)
    requires
        next_id(views(old(tasks)@)) <= u32::MAX,
    ensures
        views(final(tasks)@) == with_task_added(
            views(old(tasks)@),
            description@,
            task@.created_at,
            task@.due_date,
        ),
        final(tasks)@.len() == old(tasks)@.len() + 1,
        task@ == views(final(tasks)@).last(),
        task@.due_date matches Some(ts) ==> ends_a_day(ts),
        task@.due_date is Some ==> (due matches Some(text) && due_word(text@) is Some),
{
    let created_at = local_now();
    let due_date = match &due {
        Some(text) => parse_due_date(text.as_str()),
        None => None,
    };
    add_task_at(tasks, description, created_at, due_date);
    assert(views(tasks@).len() == tasks@.len());
    assert(views(old(tasks)@).len() == old(tasks)@.len());
    let n = tasks.len();
    assert(views(tasks@)[n - 1] == tasks@[n - 1]@);
    assert(views(tasks@).last().due_date == due_date);
    tasks[n - 1].duplicate()
}

/// Marks the first task with the id complete at `at`, whether or not it was
/// complete before, and says whether there was such a task.
pub fn complete_task_at(tasks: &mut Vec<Task>, id: u32, at: Timestamp) -> (found: bool)
    ensures
        found == has_id(views(old(tasks)@), id),
        views(final(tasks)@) == with_task_completed(views(old(tasks)@), id, at),
{
    let ghost before = views(tasks@);
    let n = tasks.len();
    let mut i: usize = 0;
    while i < n
        invariant
            n == tasks.len(),
            tasks@ == old(tasks)@,
            before == views(tasks@),
            0 <= i <= n,
            forall|j: int| 0 <= j < i ==> (#[trigger] before[j]).id != id,
        decreases n - i,
    {
        if tasks[i].id == id {
            proof {
                lemma_first_with_id(before, id, i as int);
                assert(before[i as int].id == id);
            }
            let earlier = tasks.remove(i);
            let done = Task {
                id: earlier.id,
                description: earlier.description,
                created_at: earlier.created_at,
                completed_at: Some(at),
                due_date: earlier.due_date,
            };
            tasks.insert(i, done);
            assert(views(tasks@) =~= with_task_completed(before, id, at));
            return true;
        }
        i += 1;
    }
    proof {
        lemma_first_with_id(before, id, n as int);
    }
    false
}

/// Marks the first task with the id complete now, whether or not it was
/// complete before, and says whether there was such a task. The completion
/// time is the reading of the clock; the list is otherwise as
/// `with_task_completed` gives it.
pub fn complete_task(tasks: &mut Vec<Task>, id: u32) -> (found: bool)
    ensures
        found == has_id(views(old(tasks)@), id),
        exists|at: Timestamp|
            views(final(tasks)@) == #[trigger] with_task_completed(views(old(tasks)@), id, at),
{
    let at = local_now();
    complete_task_at(tasks, id, at)
}

/// Takes every task with the id out of the list and says whether there was one.
pub fn delete_task(tasks: &mut Vec<Task>, id: u32) -> (removed: bool)
    ensures
        removed == has_id(views(old(tasks)@), id),
        views(final(tasks)@) == with_task_deleted(views(old(tasks)@), id),
{
    let ghost before = views(tasks@);
    let ghost keep = other_than(id);
    let ghost mut seen: int = 0;
    let mut removed = false;
    let mut i: usize = 0;
    proof {
        reveal(Seq::filter);
        assert(before.take(0).filter(keep) =~= views(tasks@).take(0));
        assert(before.skip(0) =~= views(tasks@).skip(0));
    }
    while i < tasks.len()
        invariant
            before == views(old(tasks)@),
            keep == other_than(id),
            0 <= i <= tasks.len(),
            0 <= seen <= before.len(),
            views(tasks@).take(i as int) == before.take(seen).filter(keep),
            views(tasks@).skip(i as int) == before.skip(seen),
            removed == has_id(before.take(seen), id),
        decreases tasks.len() - i,
    {
        let ghost now = views(tasks@);
        proof {
            assert(now.skip(i as int).len() == before.skip(seen).len());
            assert(now.skip(i as int)[0] == before.skip(seen)[0]);
            assert(now[i as int] == before[seen]);
            lemma_filter_step(before, keep, seen);
        }
        if tasks[i].id == id {
            tasks.remove(i);
            proof {
                assert(views(tasks@) =~= now.remove(i as int));
                assert(views(tasks@).take(i as int) =~= now.take(i as int));
                let rest = views(tasks@).skip(i as int);
                let tail = before.skip(seen + 1);
                assert forall|j: int| 0 <= j < rest.len() implies #[trigger] rest[j] == tail[j] by {
                    assert(now.skip(i as int)[j + 1] == before.skip(seen)[j + 1]);
                }
                assert(rest =~= tail);
                assert(before.take(seen + 1)[seen].id == id);
            }
            removed = true;
        } else {
            proof {
                assert(now.take(i as int + 1) =~= now.take(i as int).push(now[i as int]));
                let rest = now.skip(i as int + 1);
                let tail = before.skip(seen + 1);
                assert forall|j: int| 0 <= j < rest.len() implies #[trigger] rest[j] == tail[j] by {
                    assert(now.skip(i as int)[j + 1] == before.skip(seen)[j + 1]);
                }
                assert(rest =~= tail);
                if has_id(before.take(seen + 1), id) {
                    let k = choose|k: int|
                        0 <= k < before.take(seen + 1).len() && (#[trigger] before.take(
                            seen + 1,
                        )[k]).id == id;
                    assert(k < seen);
                    assert(before.take(seen)[k].id == id);
                }
                if has_id(before.take(seen), id) {
                    let k = choose|k: int|
                        0 <= k < before.take(seen).len() && (#[trigger] before.take(seen)[k]).id
                            == id;
                    assert(before.take(seen + 1)[k].id == id);
                }
            }
            i += 1;
        }
        proof {
            seen = seen + 1;
        }
    }
    proof {
        assert(before.skip(seen).len() == 0);
        assert(before.take(seen) =~= before);
        assert(views(tasks@).take(i as int) =~= views(tasks@));
    }
    removed
}

/// The tasks that a listing shows, in the order of the list: all of them, or
/// those that are not complete.
pub fn list_tasks(tasks: &Vec<Task>, show_all: bool) -> (shown_tasks: Vec<Task>)
    ensures
        views(shown_tasks@) == listed(views(tasks@), show_all),
{
    let ghost all = views(tasks@);
    let ghost keep = shown(show_all);
    let mut out: Vec<Task> = Vec::new();
    let n = tasks.len();
    let mut i: usize = 0;
    proof {
        reveal(Seq::filter);
        assert(all.take(0).filter(keep) =~= views(out@));
    }
    while i < n
        invariant
            n == tasks.len(),
            all == views(tasks@),
            keep == shown(show_all),
            0 <= i <= n,
            views(out@) == all.take(i as int).filter(keep),
        decreases n - i,
    {
        proof {
            lemma_filter_step(all, keep, i as int);
        }
        if show_all || tasks[i].is_pending() {
            let ghost earlier = views(out@);
            out.push(tasks[i].duplicate());
            assert(views(out@) =~= earlier.push(all[i as int]));
        }
        i += 1;
    }
    assert(all.take(n as int) =~= all);
    out
}

} // verus!
