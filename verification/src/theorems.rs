//! What holds of the operations on the task list, whatever the list.

use vstd::prelude::*;
use crate::codec::{
    faulty, header, record_of_task, rows_of_tasks, task_of_record, tasks_of_records,
    tasks_of_rows, tasks_of_text, text_of_rows, text_of_tasks, time_of_text, time_text, Fault,
    ReadError,
};
use crate::csvtext::csv_rows_of;
use crate::decimal::decimal_text_reads_back;
use crate::due::{ends_day, DueWord};
use crate::seqs::{lemma_filter_keeps_all, lemma_first_where_is};
use crate::store::{
    first_with_id, has_id, ids_increasing, ids_unique, lemma_first_with_id,
    lemma_first_with_id_bounds, listed, next_id, other_than, shown, with_task_added,
    with_task_completed, with_task_deleted,
};
use crate::task::TaskView;
use crate::timestamp::Timestamp;

verus! {

/// The first task of an empty list gets the id 1 and is not complete.
pub proof fn first_task_gets_id_one(
    description: Seq<char>,
    created_at: Timestamp,
    due_date: Option<Timestamp>,
)
    ensures
        with_task_added(Seq::empty(), description, created_at, due_date) == seq![
            TaskView { id: 1, description, created_at, completed_at: None, due_date },
        ],
{
    let added = with_task_added(Seq::empty(), description, created_at, due_date);
    assert(added =~= seq![
        TaskView { id: 1, description, created_at, completed_at: None, due_date },
    ]);
}

/// A task added to a list whose last record has the id `k` gets `k + 1`,
/// and the records before it stay as they were.
pub proof fn added_task_follows_last(
    tasks: Seq<TaskView>,
    description: Seq<char>,
    created_at: Timestamp,
    due_date: Option<Timestamp>,
)
    requires
        tasks.len() > 0,
        tasks.last().id < u32::MAX,
    ensures
        with_task_added(tasks, description, created_at, due_date).len() == tasks.len() + 1,
        with_task_added(tasks, description, created_at, due_date).last().id == tasks.last().id
            + 1,
        with_task_added(tasks, description, created_at, due_date).drop_last() == tasks,
{
    let added = with_task_added(tasks, description, created_at, due_date);
    assert(added.drop_last() =~= tasks);
}

/// Deleting a task that is not the last one leaves the next id as it was:
/// gaps among the earlier ids play no part.
pub proof fn next_id_ignores_gaps(tasks: Seq<TaskView>, gone: u32)
    requires
        tasks.len() > 0,
        tasks.last().id != gone,
    ensures
        next_id(with_task_deleted(tasks, gone)) == next_id(tasks),
{
    reveal(Seq::filter);
    let keep = other_than(gone);
    assert(keep(tasks.last()));
    assert(tasks.filter(keep) == tasks.drop_last().filter(keep).push(tasks.last()));
}

/// Ids that grow along the list are unique.
pub proof fn increasing_ids_are_unique(tasks: Seq<TaskView>)
    requires
        ids_increasing(tasks),
    ensures
        ids_unique(tasks),
{
    assert forall|i: int, j: int|
        0 <= i < tasks.len() && 0 <= j < tasks.len() && i != j implies (#[trigger] tasks[i]).id
        != (#[trigger] tasks[j]).id by {
        if i < j {
            assert(tasks[i].id < tasks[j].id);
        } else {
            assert(tasks[j].id < tasks[i].id);
        }
    }
}

/// Where ids grow along the list, the id of an added task is larger than
/// every id in the list, so no record has it, and the ids still grow.
pub proof fn added_id_is_fresh(
    tasks: Seq<TaskView>,
    description: Seq<char>,
    created_at: Timestamp,
    due_date: Option<Timestamp>,
)
    requires
        ids_increasing(tasks),
        next_id(tasks) <= u32::MAX,
    ensures
        forall|i: int| 0 <= i < tasks.len() ==> (#[trigger] tasks[i]).id < next_id(tasks),
        !has_id(tasks, next_id(tasks) as u32),
        ids_increasing(with_task_added(tasks, description, created_at, due_date)),
{
    assert forall|i: int| 0 <= i < tasks.len() implies (#[trigger] tasks[i]).id < next_id(
        tasks,
    ) by {
        if i < tasks.len() - 1 {
            assert(tasks[i].id < tasks[tasks.len() - 1].id);
        }
    }
    let added = with_task_added(tasks, description, created_at, due_date);
    assert forall|i: int, j: int| 0 <= i < j < added.len() implies (#[trigger] added[i]).id < (
    #[trigger] added[j]).id by {
        assert(added[i] == tasks[i]);
        if j < tasks.len() {
            assert(added[j] == tasks[j]);
        }
    }
}

/// Every record of a filtered list is a record of the list, and where ids grow
/// along the list they grow along the filtered list.
pub proof fn filter_keeps_order(tasks: Seq<TaskView>, keep: spec_fn(TaskView) -> bool)
    ensures
        forall|i: int|
            0 <= i < tasks.filter(keep).len() ==> tasks.contains(#[trigger] tasks.filter(keep)[i])
                && keep(tasks.filter(keep)[i]),
        ids_increasing(tasks) ==> ids_increasing(tasks.filter(keep)),
    decreases tasks.len(),
{
    reveal(Seq::filter);
    if tasks.len() > 0 {
        let front = tasks.drop_last();
        let kept = front.filter(keep);
        filter_keeps_order(front, keep);
        assert forall|i: int| 0 <= i < kept.len() implies tasks.contains(#[trigger] kept[i]) by {
            let k = choose|k: int| 0 <= k < front.len() && front[k] == kept[i];
            assert(tasks[k] == kept[i]);
        }
        assert(tasks.contains(tasks.last())) by {
            assert(tasks[tasks.len() - 1] == tasks.last());
        }
        if ids_increasing(tasks) {
            assert(ids_increasing(front)) by {
                assert forall|i: int, j: int| 0 <= i < j < front.len() implies (
                #[trigger] front[i]).id < (#[trigger] front[j]).id by {
                    assert(front[i] == tasks[i] && front[j] == tasks[j]);
                }
            }
            let out = tasks.filter(keep);
            assert forall|i: int, j: int| 0 <= i < j < out.len() implies (#[trigger] out[i]).id
                < (#[trigger] out[j]).id by {
                if j < kept.len() {
                    assert(out[i] == kept[i] && out[j] == kept[j]);
                } else {
                    assert(out[i] == kept[i]);
                    let k = choose|k: int| 0 <= k < front.len() && front[k] == kept[i];
                    assert(tasks[k].id < tasks[tasks.len() - 1].id);
                }
            }
        }
    }
}

/// A listing of everything is the list itself.
pub proof fn listing_all_shows_everything(tasks: Seq<TaskView>)
    ensures
        listed(tasks, true) == tasks,
{
    lemma_filter_keeps_all(tasks, shown(true));
}

/// A listing of the pending tasks holds pending tasks only, each of them a
/// record of the list, and every pending record of the list is in it.
pub proof fn listing_pending_shows_exactly_the_pending(tasks: Seq<TaskView>)
    ensures
        forall|i: int|
            0 <= i < listed(tasks, false).len() ==> (#[trigger] listed(tasks, false)[i]).pending()
                && tasks.contains(listed(tasks, false)[i]),
        forall|i: int|
            0 <= i < tasks.len() && tasks[i].pending() ==> listed(tasks, false).contains(
                #[trigger] tasks[i],
            ),
        ids_increasing(tasks) ==> ids_increasing(listed(tasks, false)),
{
    let keep = shown(false);
    filter_keeps_order(tasks, keep);
    assert forall|i: int| 0 <= i < tasks.len() && tasks[i].pending() implies listed(
        tasks,
        false,
    ).contains(#[trigger] tasks[i]) by {
        assert(keep(tasks[i]));
        tasks.lemma_filter_contains(keep, i);
    }
}

/// Completing a task keeps the number of records and every id, and changes
/// nothing but the completion time of the first record with the id.
pub proof fn completing_changes_one_field(tasks: Seq<TaskView>, id: u32, at: Timestamp)
    ensures
        with_task_completed(tasks, id, at).len() == tasks.len(),
        forall|i: int|
            0 <= i < tasks.len() ==> (#[trigger] with_task_completed(tasks, id, at)[i]) == (if i
                == first_with_id(tasks, id) {
                TaskView { completed_at: Some(at), ..tasks[i] }
            } else {
                tasks[i]
            }),
        has_id(tasks, id) ==> with_task_completed(tasks, id, at)[first_with_id(
            tasks,
            id,
        )].completed_at == Some(at),
        !has_id(tasks, id) ==> with_task_completed(tasks, id, at) == tasks,
        ids_increasing(tasks) ==> ids_increasing(with_task_completed(tasks, id, at)),
{
    lemma_first_with_id_bounds(tasks, id);
    let done = with_task_completed(tasks, id, at);
    if ids_increasing(tasks) {
        assert forall|i: int, j: int| 0 <= i < j < done.len() implies (#[trigger] done[i]).id < (
        #[trigger] done[j]).id by {
            assert(done[i].id == tasks[i].id && done[j].id == tasks[j].id);
        }
    }
}

/// Completing a task that is already complete succeeds again and leaves the
/// later completion time: the result is that of completing it once, at the
/// later time.
pub proof fn completing_again_updates_the_time(
    tasks: Seq<TaskView>,
    id: u32,
    first: Timestamp,
    second: Timestamp,
)
    ensures
        has_id(with_task_completed(tasks, id, first), id) == has_id(tasks, id),
        with_task_completed(with_task_completed(tasks, id, first), id, second)
            == with_task_completed(tasks, id, second),
{
    lemma_first_with_id_bounds(tasks, id);
    let k = first_with_id(tasks, id);
    let once = with_task_completed(tasks, id, first);
    if k < tasks.len() {
        assert forall|j: int| 0 <= j < k implies (#[trigger] once[j]).id != id by {
            assert(once[j] == tasks[j]);
        }
        lemma_first_with_id(once, id, k);
        assert(once[k].id == id);
        assert(with_task_completed(once, id, second) =~= with_task_completed(tasks, id, second));
    } else {
        assert(once == tasks);
    }
    lemma_first_with_id_bounds(once, id);
}

/// Deleting an id that exactly one record has takes that record out and
/// nothing else: the list gets shorter by one, and the id is gone.
pub proof fn deleting_removes_exactly_one(tasks: Seq<TaskView>, id: u32)
    requires
        ids_unique(tasks),
        has_id(tasks, id),
    ensures
        with_task_deleted(tasks, id) == tasks.remove(first_with_id(tasks, id)),
        with_task_deleted(tasks, id).len() == tasks.len() - 1,
        !has_id(with_task_deleted(tasks, id), id),
{
    lemma_first_with_id_bounds(tasks, id);
    let k = first_with_id(tasks, id);
    let keep = other_than(id);
    let front = tasks.take(k);
    let hit = seq![tasks[k]];
    let back = tasks.skip(k + 1);
    assert(tasks =~= (front + hit) + back);
    Seq::filter_distributes_over_add(front + hit, back, keep);
    Seq::filter_distributes_over_add(front, hit, keep);
    assert forall|i: int| 0 <= i < front.len() implies keep(#[trigger] front[i]) by {
        assert(front[i] == tasks[i]);
    }
    lemma_filter_keeps_all(front, keep);
    assert forall|i: int| 0 <= i < back.len() implies keep(#[trigger] back[i]) by {
        assert(back[i] == tasks[k + 1 + i]);
        assert(tasks[k + 1 + i].id != tasks[k].id);
    }
    lemma_filter_keeps_all(back, keep);
    assert(hit.filter(keep) =~= Seq::<TaskView>::empty()) by {
        reveal_with_fuel(Seq::filter, 2);
        assert(hit.drop_last() =~= Seq::<TaskView>::empty());
        assert(!keep(hit.last()));
    }
    assert((front + Seq::<TaskView>::empty()) + back =~= tasks.remove(k));
    let after = tasks.remove(k);
    if has_id(after, id) {
        let i = choose|i: int| 0 <= i < after.len() && (#[trigger] after[i]).id == id;
        if i < k {
            assert(after[i] == tasks[i]);
        } else {
            assert(after[i] == tasks[i + 1]);
            assert(tasks[i + 1].id != tasks[k].id);
        }
    }
}

/// Deleting an id that no record has changes nothing.
pub proof fn deleting_absent_id_changes_nothing(tasks: Seq<TaskView>, id: u32)
    requires
        !has_id(tasks, id),
    ensures
        with_task_deleted(tasks, id) == tasks,
{
    let keep = other_than(id);
    assert forall|i: int| 0 <= i < tasks.len() implies keep(#[trigger] tasks[i]) by {
        if tasks[i].id == id {
            assert(has_id(tasks, id));
        }
    }
    lemma_filter_keeps_all(tasks, keep);
}

/// Deleting keeps the order of the records that stay: where ids grew along
/// the list they still do, and every record left is a record of the list
/// with another id.
pub proof fn deleting_keeps_order(tasks: Seq<TaskView>, id: u32)
    ensures
        forall|i: int|
            0 <= i < with_task_deleted(tasks, id).len() ==> tasks.contains(
                #[trigger] with_task_deleted(tasks, id)[i],
            ) && with_task_deleted(tasks, id)[i].id != id,
        ids_increasing(tasks) ==> ids_increasing(with_task_deleted(tasks, id)),
{
    filter_keeps_order(tasks, other_than(id));
}

/// The text of the timestamp is not empty and is read back as the timestamp.
pub open spec fn time_reads_back(ts: Timestamp) -> bool {
    time_text(ts).len() > 0 && time_of_text(time_text(ts)) == Some(ts)
}

/// Each timestamp of the task is read back from its text.
pub open spec fn times_read_back(t: TaskView) -> bool {
    &&& time_reads_back(t.created_at)
    &&& (t.completed_at matches Some(ts) ==> time_reads_back(ts))
    &&& (t.due_date matches Some(ts) ==> time_reads_back(ts))
}

/// The records are read back from their text.
pub open spec fn rows_read_back(rows: Seq<Seq<Seq<char>>>) -> bool {
    csv_rows_of(text_of_rows(rows)) == Some(rows)
}

/// A task whose timestamps are read back from their text is read back from
/// its record, field for field.
pub proof fn record_reads_back(t: TaskView)
    ensures
        record_of_task(t).len() == 5,
        times_read_back(t) ==> task_of_record(record_of_task(t)) == Ok::<TaskView, Fault>(t),
{
    decimal_text_reads_back(t.id as nat);
}

/// Reading inverts writing as far as the outside notations do: where `chrono`
/// reads back each timestamp of the list from its text and `csv` reads back
/// the records from theirs, the text of a task list is read back as that list,
/// in order and field for field.
pub proof fn reading_inverts_writing(tasks: Seq<TaskView>)
    ensures
        (forall|i: int| 0 <= i < tasks.len() ==> times_read_back(#[trigger] tasks[i]))
            && rows_read_back(rows_of_tasks(tasks)) ==> tasks_of_text(text_of_tasks(tasks)) == Ok::<
            Seq<TaskView>,
            ReadError,
        >(tasks),
{
    let rows = rows_of_tasks(tasks);
    if (forall|i: int| 0 <= i < tasks.len() ==> times_read_back(#[trigger] tasks[i]))
        && rows_read_back(rows) {
        if tasks.len() == 0 {
            assert(tasks =~= Seq::<TaskView>::empty());
        } else {
            let records = rows.skip(1);
            assert(rows[0] == header());
            assert(records =~= tasks.map_values(|t: TaskView| record_of_task(t)));
            assert forall|j: int| 0 <= j < records.len() implies !faulty()(
                #[trigger] records[j],
            ) by {
                record_reads_back(tasks[j]);
            }
            lemma_first_where_is(records, faulty(), records.len() as int);
            let read = records.map_values(|fields: Seq<Seq<char>>| task_of_record(fields)->Ok_0);
            assert forall|j: int| 0 <= j < tasks.len() implies read[j] == tasks[j] by {
                record_reads_back(tasks[j]);
            }
            assert(read =~= tasks);
            assert(tasks_of_records(records) == Ok::<Seq<TaskView>, ReadError>(tasks));
            assert(tasks_of_rows(rows) == Ok::<Seq<TaskView>, ReadError>(tasks));
        }
    }
}

/// The due date that `tomorrow` names is the one that `today` names a civil
/// day later: the same time of day on the next day, whatever the offsets.
pub proof fn tomorrow_is_a_day_after_today(today: Timestamp, tomorrow: Timestamp, day: int)
    requires
        ends_day(today, day + DueWord::Today.days_ahead()),
        ends_day(tomorrow, day + DueWord::Tomorrow.days_ahead()),
    ensures
        tomorrow.local_secs() == today.local_secs() + 86_400,
        tomorrow.local_second_of_day() == today.local_second_of_day(),
        tomorrow.nanos == today.nanos,
{
}

} // verus!
