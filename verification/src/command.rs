//! One run of the tool: from a command and the text of the backing file to
//! the text to write back and the lines to print.
//!
//! A command is first resolved: the clock is read and a due word becomes a due
//! date. What a resolved command does to a given text is then fixed: `apply`
//! reads nothing from outside.

use vstd::prelude::*;
use vstd::string::*;
use crate::clock::local_now;
use crate::codec::{read_tasks, tasks_of_text, text_of_tasks, write_tasks, ReadError};
use crate::decimal::{decimal_text, u32_text};
use crate::due::{due_word, ends_a_day, parse_due_date};
use crate::store::{
    add_task_at, complete_task_at, delete_task, has_id, has_task, next_id, next_task_id,
    with_task_added, with_task_completed, with_task_deleted,
};
use crate::table::{table_lines_at, table_of};
use crate::task::{all_well_formed, Task, TaskView, views};
use crate::theorems::{completing_changes_one_field, deleting_keeps_order};
use crate::timestamp::Timestamp;

verus! {

/// What the user asks for.
#[derive(Clone, Debug, PartialEq, Eq)]
pub enum Command {
    /// Add a task, due at the day that `due` names if it names one.
    Add { description: String, due: Option<String> },
    /// List the pending tasks, or all of them.
    List { all: bool },
    /// Mark a task complete.
    Complete { task_id: u32 },
    /// Delete a task.
    Delete { task_id: u32 },
}

/// A command with what it needs from the clock.
#[derive(Clone, Debug, PartialEq, Eq)]
pub enum Action {
    /// Add a task created at `created_at`.
    Add { description: String, created_at: Timestamp, due_date: Option<Timestamp> },
    /// List the tasks as seen at `now`.
    List { all: bool, now: Timestamp },
    /// Mark a task complete at `at`.
    Complete { task_id: u32, at: Timestamp },
    /// Delete a task.
    Delete { task_id: u32 },
}

/// Why a run ends without a result.
#[derive(Clone, Copy, Debug, PartialEq, Eq, Structural)]
pub enum Failure {
    /// The backing file holds no task list.
    Read(ReadError),
    /// The id of the new task would not fit 32 bits.
    IdsExhausted,
    /// A time that the action carries cannot be written down or put into words.
    TimeOutOfRange,
}

/// What a run gives back.
#[derive(Clone, Debug, PartialEq, Eq)]
pub struct Outcome {
    /// The new text of the backing file, where the list changed.
    pub save: Option<Vec<u8>>,
    /// The lines for standard output.
    pub out: Vec<String>,
    /// The lines for standard error.
    pub err: Vec<String>,
}

/// An outcome as mathematical values.
pub struct OutcomeView {
    pub save: Option<Seq<u8>>,
    pub out: Seq<Seq<char>>,
    pub err: Seq<Seq<char>>,
}

impl View for Outcome {
    type V = OutcomeView;

    open spec fn view(&self) -> OutcomeView {
        OutcomeView {
            save: match self.save {
                Some(text) => Some(text@),
                None => None,
            },
            out: self.out.deep_view(),
            err: self.err.deep_view(),
        }
    }
}

/// The line that reports a missing task.
pub open spec fn not_found_text(id: u32) -> Seq<char> {
    "Task with ID "@ + decimal_text(id as nat) + " not found."@
}

/// The outcome of a change to the list: the new text and one line of success.
pub open spec fn changed(tasks: Seq<TaskView>, message: Seq<char>) -> OutcomeView {
    OutcomeView { save: Some(text_of_tasks(tasks)), out: seq![message], err: Seq::empty() }
}

/// The outcome where no task has the id: nothing to save, one line of complaint.
pub open spec fn missing(id: u32) -> OutcomeView {
    OutcomeView { save: None, out: Seq::empty(), err: seq![not_found_text(id)] }
}

/// What adding a task gives on a list.
pub open spec fn outcome_of_add(
    tasks: Seq<TaskView>,
    description: Seq<char>,
    created_at: Timestamp,
    due_date: Option<Timestamp>,
) -> Result<OutcomeView, Failure> {
    if next_id(tasks) > u32::MAX {
        Err(Failure::IdsExhausted)
    } else if !created_at.well_formed() || (due_date matches Some(ts) && !ts.well_formed()) {
        Err(Failure::TimeOutOfRange)
    } else {
        Ok(
            changed(
                with_task_added(tasks, description, created_at, due_date),
                "Task added successfully!"@,
            ),
        )
    }
}

/// What a listing gives on a list.
pub open spec fn outcome_of_list(tasks: Seq<TaskView>, all: bool, now: Timestamp) -> Result<
    OutcomeView,
    Failure,
> {
    if !now.representable() {
        Err(Failure::TimeOutOfRange)
    } else {
        Ok(OutcomeView { save: None, out: table_of(tasks, all, now), err: Seq::empty() })
    }
}

/// What completing a task gives on a list.
pub open spec fn outcome_of_complete(tasks: Seq<TaskView>, id: u32, at: Timestamp) -> Result<
    OutcomeView,
    Failure,
> {
    if !has_id(tasks, id) {
        Ok(missing(id))
    } else if !at.well_formed() {
        Err(Failure::TimeOutOfRange)
    } else {
        Ok(changed(with_task_completed(tasks, id, at), "Task marked as complete!"@))
    }
}

/// What deleting a task gives on a list.
pub open spec fn outcome_of_delete(tasks: Seq<TaskView>, id: u32) -> Result<OutcomeView, Failure> {
    if !has_id(tasks, id) {
        Ok(missing(id))
    } else {
        Ok(changed(with_task_deleted(tasks, id), "Task deleted successfully!"@))
    }
}

/// What an action gives on a list.
pub open spec fn outcome_on(tasks: Seq<TaskView>, action: Action) -> Result<OutcomeView, Failure> {
    match action {
        Action::Add { description, created_at, due_date } => outcome_of_add(
            tasks,
            description@,
            created_at,
            due_date,
        ),
        Action::List { all, now } => outcome_of_list(tasks, all, now),
        Action::Complete { task_id, at } => outcome_of_complete(tasks, task_id, at),
        Action::Delete { task_id } => outcome_of_delete(tasks, task_id),
    }
}

/// What an action gives on the text of the backing file: a text that is no
/// task list fails the run whatever the action.
pub open spec fn outcome_of(text: Seq<u8>, action: Action) -> Result<OutcomeView, Failure> {
    match tasks_of_text(text) {
        Err(e) => Err(Failure::Read(e)),
        Ok(tasks) => outcome_on(tasks, action),
    }
}

/// The action agrees with the command in everything that does not come from
/// the clock, and a due date is the end of a civil day and is there only for
/// a text that names a day.
pub open spec fn resolves(command: Command, action: Action) -> bool {
    match command {
        Command::Add { description, due } => {
            &&& action matches Action::Add { description: text, created_at, due_date }
            &&& text@ == description@
            &&& created_at.representable()
            &&& (due_date matches Some(ts) ==> ends_a_day(ts))
            &&& (due_date is Some ==> (due matches Some(word) && due_word(word@) is Some))
        },
        Command::List { all } => {
            &&& action matches Action::List { all: same, now }
            &&& same == all
            &&& now.representable()
        },
        Command::Complete { task_id } => {
            &&& action matches Action::Complete { task_id: same, at }
            &&& same == task_id
            &&& at.representable()
        },
        Command::Delete { task_id } => action == (Action::Delete { task_id }),
    }
}

/// A list of one line.
fn one_line(text: String) -> (lines: Vec<String>)
    ensures
        lines.deep_view() == seq![text@],
{
    let mut lines: Vec<String> = Vec::new();
    lines.push(text);
    assert(lines.deep_view() =~= seq![text@]);
    lines
}

/// No lines.
fn no_lines() -> (lines: Vec<String>)
    ensures
        lines.deep_view() == Seq::<Seq<char>>::empty(),
{
    let lines: Vec<String> = Vec::new();
    assert(lines.deep_view() =~= Seq::<Seq<char>>::empty());
    lines
}

/// The outcome of a change to the list.
fn outcome_changed(tasks: &Vec<Task>, message: &str) -> (outcome: Outcome)
    requires
        all_well_formed(views(tasks@)),
    ensures
        outcome@ == changed(views(tasks@), message@),
{
    Outcome {
        save: Some(write_tasks(tasks)),
        out: one_line(String::from_str(message)),
        err: no_lines(),
    }
}

/// The outcome where no task has the id.
fn outcome_missing(id: u32) -> (outcome: Outcome)
    ensures
        outcome@ == missing(id),
{
    let mut line = String::from_str("Task with ID ");
    line.append(u32_text(id).as_str());
    line.append(" not found.");
    Outcome { save: None, out: no_lines(), err: one_line(line) }
}

/// Applies an action to a well-formed task list.
pub fn apply_to(tasks: Vec<Task>, action: Action) -> (r: Result<Outcome, Failure>)
    requires
        all_well_formed(views(tasks@)),
    ensures
        match r {
            Ok(outcome) => outcome_on(views(tasks@), action) == Ok::<OutcomeView, Failure>(
                outcome@,
            ),
            Err(failure) => outcome_on(views(tasks@), action) == Err::<OutcomeView, Failure>(
                failure,
            ),
        },
{
    let mut tasks = tasks;
    let ghost before = views(tasks@);
    match action {
        Action::Add { description, created_at, due_date } => {
            if next_task_id(&tasks).is_none() {
                return Err(Failure::IdsExhausted);
            }
            let due_ok = match &due_date {
                Some(ts) => ts.is_well_formed(),
                None => true,
            };
            if !created_at.is_well_formed() || !due_ok {
                return Err(Failure::TimeOutOfRange);
            }
            add_task_at(&mut tasks, description, created_at, due_date);
            assert(all_well_formed(views(tasks@))) by {
                assert forall|i: int| 0 <= i < views(tasks@).len() implies (#[trigger] views(
                    tasks@,
                )[i]).well_formed() by {
                    if i < before.len() {
                        assert(views(tasks@)[i] == before[i]);
                    }
                }
            }
            Ok(outcome_changed(&tasks, "Task added successfully!"))
        },
        Action::List { all, now } => {
            if !now.is_representable() {
                return Err(Failure::TimeOutOfRange);
            }
            Ok(Outcome { save: None, out: table_lines_at(&tasks, all, &now), err: no_lines() })
        },
        Action::Complete { task_id, at } => {
            if !has_task(&tasks, task_id) {
                return Ok(outcome_missing(task_id));
            }
            if !at.is_well_formed() {
                return Err(Failure::TimeOutOfRange);
            }
            complete_task_at(&mut tasks, task_id, at);
            assert(all_well_formed(views(tasks@))) by {
                completing_changes_one_field(before, task_id, at);
                assert forall|i: int| 0 <= i < views(tasks@).len() implies (#[trigger] views(
                    tasks@,
                )[i]).well_formed() by {
                    assert(before[i].well_formed());
                }
            }
            Ok(outcome_changed(&tasks, "Task marked as complete!"))
        },
        Action::Delete { task_id } => {
            let removed = delete_task(&mut tasks, task_id);
            if !removed {
                return Ok(outcome_missing(task_id));
            }
            assert(all_well_formed(views(tasks@))) by {
                deleting_keeps_order(before, task_id);
                assert forall|i: int| 0 <= i < views(tasks@).len() implies (#[trigger] views(
                    tasks@,
                )[i]).well_formed() by {
                    let k = choose|k: int| 0 <= k < before.len() && before[k] == views(tasks@)[i];
                    assert(before[k].well_formed());
                }
            }
            Ok(outcome_changed(&tasks, "Task deleted successfully!"))
        },
    }
}

/// Applies an action to the text of the backing file. The empty text is the
/// empty list.
pub fn apply(text: &[u8], action: Action) -> (r: Result<Outcome, Failure>)
    ensures
        match r {
            Ok(outcome) => outcome_of(text@, action) == Ok::<OutcomeView, Failure>(outcome@),
            Err(failure) => outcome_of(text@, action) == Err::<OutcomeView, Failure>(failure),
        },
{
    match read_tasks(text) {
        Ok(tasks) => apply_to(tasks, action),
        Err(e) => Err(Failure::Read(e)),
    }
}

/// Gives a command what it needs from the clock and the local time zone.
pub fn resolve(command: Command) -> (action: Action)
    ensures
        resolves(command, action),
{
    match command {
        Command::Add { description, due } => {
            let created_at = local_now();
            let due_date = match &due {
                Some(word) => parse_due_date(word.as_str()),
                None => None,
            };
            Action::Add { description, created_at, due_date }
        },
        Command::List { all } => Action::List { all, now: local_now() },
        Command::Complete { task_id } => Action::Complete { task_id, at: local_now() },
        Command::Delete { task_id } => Action::Delete { task_id },
    }
}

/// Runs a command on the text of the backing file: resolves it, then applies
/// it. The outcome is that of some action that the command resolves to.
pub fn run(text: &[u8], command: Command) -> (r: Result<Outcome, Failure>)
    ensures
        exists|action: Action|
            resolves(command, action) && (match r {
                Ok(outcome) => #[trigger] outcome_of(text@, action) == Ok::<
                    OutcomeView,
                    Failure,
                >(outcome@),
                Err(failure) => outcome_of(text@, action) == Err::<OutcomeView, Failure>(failure),
            }),
{
    let action = resolve(command);
    apply(text, action)
}

} // verus!
