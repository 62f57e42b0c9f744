//! The listing as lines of text.
//!
//! A listing is a heading and one line for each task that it shows. A line
//! has four columns, or five where completed tasks are shown too: the id, the
//! description, and the times of creation, of the due date and of completion
//! in words relative to the time of the listing. Each column is filled with
//! spaces to its width, never cut, and one space stands between two columns.

use vstd::prelude::*;
use vstd::string::*;
use crate::clock::local_now;
use crate::decimal::{decimal_text, u32_text};
use crate::human::{human_text, relative_text};
use crate::store::{list_tasks, listed, shown};
use crate::task::{all_well_formed, Task, TaskView, views};
use crate::theorems::filter_keeps_order;
use crate::timestamp::Timestamp;

verus! {

/// The width of the id column.
pub const ID_WIDTH: usize = 4;

/// The width of the description column.
pub const TASK_WIDTH: usize = 50;

/// The width of each of the time columns.
pub const TIME_WIDTH: usize = 20;

/// A text filled with spaces on the right up to a width; unchanged where it
/// is that wide or wider.
pub open spec fn padded(text: Seq<char>, width: nat) -> Seq<char> {
    if text.len() >= width {
        text
    } else {
        text + Seq::new((width - text.len()) as nat, |i: int| ' ')
    }
}

/// A line of the listing: the columns, each filled to its width, with one
/// space between them. The last column is there only where completed tasks
/// are shown.
pub open spec fn row_text(
    id: Seq<char>,
    task: Seq<char>,
    created: Seq<char>,
    due: Seq<char>,
    completed: Option<Seq<char>>,
) -> Seq<char> {
    let four = padded(id, ID_WIDTH as nat) + seq![' '] + padded(task, TASK_WIDTH as nat) + seq![
        ' ',
    ] + padded(created, TIME_WIDTH as nat) + seq![' '] + padded(due, TIME_WIDTH as nat);
    match completed {
        Some(text) => four + seq![' '] + padded(text, TIME_WIDTH as nat),
        None => four,
    }
}

/// The heading of the listing.
pub open spec fn heading(show_all: bool) -> Seq<char> {
    row_text(
        "ID"@,
        "Task"@,
        "Created"@,
        "Due"@,
        if show_all {
            Some("Completed"@)
        } else {
            None
        },
    )
}

/// A time in words relative to `now`.
pub open spec fn time_words(ts: Timestamp, now: Timestamp) -> Seq<char> {
    relative_text(ts.secs, ts.nanos, now.secs, now.nanos)
}

/// The due date in words, or `None` where the task has none.
pub open spec fn due_words(t: TaskView, now: Timestamp) -> Seq<char> {
    match t.due_date {
        Some(ts) => time_words(ts, now),
        None => "None"@,
    }
}

/// The time of completion in words, or `Incomplete` where the task is pending.
pub open spec fn completed_words(t: TaskView, now: Timestamp) -> Seq<char> {
    match t.completed_at {
        Some(ts) => time_words(ts, now),
        None => "Incomplete"@,
    }
}

/// The line of a task in a listing made at `now`.
pub open spec fn task_row(t: TaskView, show_all: bool, now: Timestamp) -> Seq<char> {
    row_text(
        decimal_text(t.id as nat),
        t.description,
        time_words(t.created_at, now),
        due_words(t, now),
        if show_all {
            Some(completed_words(t, now))
        } else {
            None
        },
    )
}

/// The lines of a listing made at `now`: the heading, then the tasks that the
/// listing shows, in the order of the list.
pub open spec fn table_of(tasks: Seq<TaskView>, show_all: bool, now: Timestamp) -> Seq<Seq<char>> {
    seq![heading(show_all)] + listed(tasks, show_all).map_values(
        |t: TaskView| task_row(t, show_all, now),
    )
}

/// Appends a text and fills it with spaces up to a width.
fn push_padded(line: &mut String, text: &str, width: usize)
    ensures
        final(line)@ == old(line)@ + padded(text@, width as nat),
{
    line.append(text);
    let n = text.unicode_len();
    let mut k: usize = n;
    proof {
        reveal_strlit(" ");
        assert(line@ =~= old(line)@ + (text@ + Seq::new(0, |i: int| ' ')));
    }
    while k < width
        invariant
            n == text@.len(),
            n <= k,
            k <= width || k == n,
            line@ == old(line)@ + (text@ + Seq::new((k - n) as nat, |i: int| ' ')),
        decreases width - k,
    {
        line.append(" ");
        proof {
            reveal_strlit(" ");
            assert(" "@ =~= seq![' ']);
            assert(line@ =~= old(line)@ + (text@ + Seq::new((k + 1 - n) as nat, |i: int| ' ')));
        }
        k += 1;
    }
    proof {
        if n >= width {
            assert(text@ + Seq::new(0, |i: int| ' ') =~= text@);
        }
    }
}

/// Appends the space that stands between two columns.
fn push_gap(line: &mut String)
    ensures
        final(line)@ == old(line)@ + seq![' '],
{
    line.append(" ");
    proof {
        reveal_strlit(" ");
        assert(" "@ =~= seq![' ']);
    }
}

/// Lays out one line of the listing.
pub fn row_line(id: &str, task: &str, created: &str, due: &str, completed: Option<&str>) -> (line:
    String)
    ensures
        line@ == row_text(
            id@,
            task@,
            created@,
            due@,
            match completed {
                Some(text) => Some(text@),
                None => None,
            },
        ),
{
    let mut line = String::new();
    push_padded(&mut line, id, ID_WIDTH);
    push_gap(&mut line);
    push_padded(&mut line, task, TASK_WIDTH);
    push_gap(&mut line);
    push_padded(&mut line, created, TIME_WIDTH);
    push_gap(&mut line);
    push_padded(&mut line, due, TIME_WIDTH);
    assert(line@ =~= padded(id@, ID_WIDTH as nat) + seq![' '] + padded(task@, TASK_WIDTH as nat)
        + seq![' '] + padded(created@, TIME_WIDTH as nat) + seq![' '] + padded(
        due@,
        TIME_WIDTH as nat,
    ));
    match completed {
        Some(text) => {
            push_gap(&mut line);
            push_padded(&mut line, text, TIME_WIDTH);
        },
        None => {},
    }
    line
}

/// The heading of the listing.
pub fn heading_line(show_all: bool) -> (line: String)
    ensures
        line@ == heading(show_all),
{
    row_line(
        "ID",
        "Task",
        "Created",
        "Due",
        if show_all {
            Some("Completed")
        } else {
            None
        },
    )
}

/// The line of a task in a listing made at `now`.
pub fn task_line(task: &Task, show_all: bool, now: &Timestamp) -> (line: String)
    requires
        task@.well_formed(),
        now.representable(),
    ensures
        line@ == task_row(task@, show_all, *now),
{
    let id = u32_text(task.id);
    let created = human_text(&task.created_at, now);
    let due = match &task.due_date {
        Some(ts) => human_text(ts, now),
        None => String::from_str("None"),
    };
    if show_all {
        let completed = match &task.completed_at {
            Some(ts) => human_text(ts, now),
            None => String::from_str("Incomplete"),
        };
        row_line(
            id.as_str(),
            task.description.as_str(),
            created.as_str(),
            due.as_str(),
            Some(completed.as_str()),
        )
    } else {
        row_line(id.as_str(), task.description.as_str(), created.as_str(), due.as_str(), None)
    }
}

/// The lines of a listing made at `now`.
pub fn table_lines_at(tasks: &Vec<Task>, show_all: bool, now: &Timestamp) -> (lines: Vec<String>)
    requires
        all_well_formed(views(tasks@)),
        now.representable(),
    ensures
        lines.deep_view() == table_of(views(tasks@), show_all, *now),
{
    let shown_tasks = list_tasks(tasks, show_all);
    let ghost rows = views(shown_tasks@);
    proof {
        filter_keeps_order(views(tasks@), shown(show_all));
        assert forall|i: int| 0 <= i < rows.len() implies (#[trigger] rows[i]).well_formed() by {
            let k = choose|k: int| 0 <= k < views(tasks@).len() && views(tasks@)[k] == rows[i];
            assert(views(tasks@)[k].well_formed());
        }
    }
    let mut lines: Vec<String> = Vec::new();
    lines.push(heading_line(show_all));
    let n = shown_tasks.len();
    let mut i: usize = 0;
    assert(lines.deep_view() =~= seq![heading(show_all)] + rows.take(0).map_values(
        |t: TaskView| task_row(t, show_all, *now),
    ));
    while i < n
        invariant
            n == shown_tasks.len(),
            rows == views(shown_tasks@),
            all_well_formed(rows),
            now.representable(),
            0 <= i <= n,
            lines.deep_view() == seq![heading(show_all)] + rows.take(i as int).map_values(
                |t: TaskView| task_row(t, show_all, *now),
            ),
        decreases n - i,
    {
        assert(rows[i as int].well_formed());
        let ghost earlier = lines.deep_view();
        let line = task_line(&shown_tasks[i], show_all, now);
        lines.push(line);
        assert(lines.deep_view() =~= earlier.push(task_row(rows[i as int], show_all, *now)));
        assert(lines.deep_view() =~= seq![heading(show_all)] + rows.take(i as int + 1).map_values(
            |t: TaskView| task_row(t, show_all, *now),
        ));
        i += 1;
    }
    assert(rows.take(n as int) =~= rows);
    lines
}

/// The lines of a listing made now. The time of the listing is the reading of
/// the clock; the lines are those of `table_of` for that time.
pub fn table_lines(tasks: &Vec<Task>, show_all: bool) -> (lines: Vec<String>)
    requires
        all_well_formed(views(tasks@)),
    ensures
        exists|now: Timestamp| lines.deep_view() == #[trigger] table_of(views(tasks@), show_all, now),
{
    let now = local_now();
    table_lines_at(tasks, show_all, &now)
}

} // verus!
