//! The text form of the task list.
//!
//! The backing file is comma-separated text. Its first record names the
//! columns; each further record is one task: the id as a decimal number, the
//! description, and three timestamps in the notation of RFC 3339, of which the
//! last two are empty where the task is not complete or has no due date. A
//! list without tasks is written as the empty text.
//!
//! Quoting and splitting are the `csv` crate's and the notation of timestamps
//! is `chrono`'s; the contracts here speak of them by the names that
//! `csvtext` and `timetext` give them.

use vstd::prelude::*;
use vstd::string::*;
use crate::csvtext::{csv_line, csv_line_of, csv_rows, csv_rows_of};
use crate::decimal::{decimal_text, parse_u32, u32_of_text, u32_text};
use crate::seqs::{first_where, lemma_first_where_is};
use crate::task::{all_well_formed, Task, TaskView, views};
use crate::timestamp::Timestamp;
use crate::timetext::{format_timestamp, parse_timestamp, rfc3339_text, rfc3339_value};

verus! {

/// The number of columns of a record.
pub const COLUMNS: usize = 5;

/// What is wrong with a record that is no task.
#[derive(Clone, Copy, Debug, PartialEq, Eq, Structural)]
pub enum Fault {
    /// The record does not have five fields.
    Columns,
    /// The id is not a decimal number that fits 32 bits.
    Id,
    /// The creation time is no timestamp.
    CreatedAt,
    /// The completion time is neither empty nor a timestamp.
    CompletedAt,
    /// The due date is neither empty nor a timestamp.
    DueDate,
}

/// Why a text is no task list.
#[derive(Clone, Copy, Debug, PartialEq, Eq, Structural)]
pub enum ReadError {
    /// The text is not comma-separated records of one length in UTF-8.
    Malformed,
    /// The first record does not name the five columns of a task, in order.
    Header,
    /// The record at `index`, counted from 0 after the header, is no task.
    Record { index: usize, fault: Fault },
}

/// The record that names the columns.
pub open spec fn header() -> Seq<Seq<char>> {
    seq!["id"@, "description"@, "created_at"@, "completed_at"@, "due_date"@]
}

/// The text of a timestamp.
pub open spec fn time_text(ts: Timestamp) -> Seq<char> {
    rfc3339_text(ts.secs, ts.nanos, ts.offset)
}

/// The text of a timestamp that may be absent: empty where it is.
pub open spec fn optional_time_text(t: Option<Timestamp>) -> Seq<char> {
    match t {
        Some(ts) => time_text(ts),
        None => Seq::empty(),
    }
}

/// The record of a task.
pub open spec fn record_of_task(t: TaskView) -> Seq<Seq<char>> {
    seq![
        decimal_text(t.id as nat),
        t.description,
        time_text(t.created_at),
        optional_time_text(t.completed_at),
        optional_time_text(t.due_date),
    ]
}

/// The records of a task list: none for the empty list, else the header and
/// one record for each task.
pub open spec fn rows_of_tasks(tasks: Seq<TaskView>) -> Seq<Seq<Seq<char>>> {
    if tasks.len() == 0 {
        Seq::empty()
    } else {
        seq![header()] + tasks.map_values(|t: TaskView| record_of_task(t))
    }
}

/// The text of some records: their lines one after the other.
pub open spec fn text_of_rows(rows: Seq<Seq<Seq<char>>>) -> Seq<u8>
    decreases rows.len(),
{
    if rows.len() == 0 {
        Seq::empty()
    } else {
        text_of_rows(rows.drop_last()) + csv_line_of(rows.last())
    }
}

/// The text of a task list.
pub open spec fn text_of_tasks(tasks: Seq<TaskView>) -> Seq<u8> {
    text_of_rows(rows_of_tasks(tasks))
}

/// The timestamp that a text stands for: what `chrono` reads from it, where
/// that is well-formed.
pub open spec fn time_of_text(text: Seq<char>) -> Option<Timestamp> {
    match rfc3339_value(text) {
        Some((secs, nanos, offset)) => {
            let ts = Timestamp { secs, nanos, offset };
            if ts.well_formed() {
                Some(ts)
            } else {
                None
            }
        },
        None => None,
    }
}

/// The timestamp that a text stands for where the empty text stands for none.
/// The outer `None` says that the text is neither.
pub open spec fn optional_time_of_text(text: Seq<char>) -> Option<Option<Timestamp>> {
    if text.len() == 0 {
        Some(None)
    } else {
        match time_of_text(text) {
            Some(ts) => Some(Some(ts)),
            None => None,
        }
    }
}

/// The task that a record stands for, or the first thing wrong with it, the
/// fields taken in order.
pub open spec fn task_of_record(fields: Seq<Seq<char>>) -> Result<TaskView, Fault> {
    if fields.len() != COLUMNS {
        Err(Fault::Columns)
    } else {
        match u32_of_text(fields[0]) {
            None => Err(Fault::Id),
            Some(id) => match time_of_text(fields[2]) {
                None => Err(Fault::CreatedAt),
                Some(created_at) => match optional_time_of_text(fields[3]) {
                    None => Err(Fault::CompletedAt),
                    Some(completed_at) => match optional_time_of_text(fields[4]) {
                        None => Err(Fault::DueDate),
                        Some(due_date) => Ok(
                            TaskView {
                                id,
                                description: fields[1],
                                created_at,
                                completed_at,
                                due_date,
                            },
                        ),
                    },
                },
            },
        }
    }
}

/// The test that a record is no task.
pub open spec fn faulty() -> spec_fn(Seq<Seq<char>>) -> bool {
    |fields: Seq<Seq<char>>| task_of_record(fields) is Err
}

/// The tasks that some records stand for, or the first record that is no
/// task and what is wrong with it.
pub open spec fn tasks_of_records(records: Seq<Seq<Seq<char>>>) -> Result<
    Seq<TaskView>,
    ReadError,
> {
    let k = first_where(records, faulty());
    if k < records.len() {
        Err(ReadError::Record { index: k as usize, fault: task_of_record(records[k])->Err_0 })
    } else {
        Ok(records.map_values(|fields: Seq<Seq<char>>| task_of_record(fields)->Ok_0))
    }
}

/// The task list that the records of a file stand for: empty where there is
/// no record; else the first one must be the header, and the others are the
/// tasks.
pub open spec fn tasks_of_rows(rows: Seq<Seq<Seq<char>>>) -> Result<Seq<TaskView>, ReadError> {
    if rows.len() == 0 {
        Ok(Seq::empty())
    } else if rows[0] != header() {
        Err(ReadError::Header)
    } else {
        tasks_of_records(rows.skip(1))
    }
}

/// The task list that a text stands for.
pub open spec fn tasks_of_text(text: Seq<u8>) -> Result<Seq<TaskView>, ReadError> {
    match csv_rows_of(text) {
        None => Err(ReadError::Malformed),
        Some(rows) => tasks_of_rows(rows),
    }
}

/// The record that names the columns.
pub fn header_record() -> (fields: Vec<String>)
    ensures
        fields.deep_view() == header(),
{
    let mut fields: Vec<String> = Vec::new();
    fields.push(String::from_str("id"));
    fields.push(String::from_str("description"));
    fields.push(String::from_str("created_at"));
    fields.push(String::from_str("completed_at"));
    fields.push(String::from_str("due_date"));
    assert(fields.deep_view() =~= header());
    fields
}

/// The text of a timestamp that may be absent.
fn write_optional_time(t: &Option<Timestamp>) -> (text: String)
    requires
        t matches Some(ts) ==> ts.well_formed(),
    ensures
        text@ == optional_time_text(*t),
        t is Some ==> text@.len() > 0,
{
    match t {
        Some(ts) => format_timestamp(ts),
        None => String::new(),
    }
}

/// The record of a task.
pub fn record_from_task(task: &Task) -> (fields: Vec<String>)
    requires
        task@.well_formed(),
    ensures
        fields.deep_view() == record_of_task(task@),
{
    let mut fields: Vec<String> = Vec::new();
    fields.push(u32_text(task.id));
    fields.push(task.description.clone());
    fields.push(format_timestamp(&task.created_at));
    fields.push(write_optional_time(&task.completed_at));
    fields.push(write_optional_time(&task.due_date));
    assert(fields.deep_view() =~= record_of_task(task@));
    fields
}

/// Writes a task list as text: nothing for the empty list, else the header
/// line and one line for each task, in the order of the list.
pub fn write_tasks(tasks: &Vec<Task>) -> (text: Vec<u8>)
    requires
        all_well_formed(views(tasks@)),
    ensures
        text@ == text_of_tasks(views(tasks@)),
{
    let ghost all = views(tasks@);
    let ghost rows = rows_of_tasks(all);
    let mut text: Vec<u8> = Vec::new();
    let n = tasks.len();
    if n == 0 {
        return text;
    }
    let mut line = csv_line(&header_record());
    text.append(&mut line);
    proof {
        assert(rows.take(1).drop_last() =~= Seq::<Seq<Seq<char>>>::empty());
        assert(text_of_rows(rows.take(1).drop_last()) =~= Seq::<u8>::empty());
        assert(rows.take(1).last() == header());
        assert(text@ =~= text_of_rows(rows.take(1)));
    }
    let mut i: usize = 0;
    while i < n
        invariant
            n == tasks.len(),
            n > 0,
            all == views(tasks@),
            all_well_formed(all),
            rows == rows_of_tasks(all),
            0 <= i <= n,
            text@ == text_of_rows(rows.take(i as int + 1)),
        decreases n - i,
    {
        assert(all[i as int].well_formed());
        let mut line = csv_line(&record_from_task(&tasks[i]));
        proof {
            let upto = rows.take(i as int + 2);
            assert(upto.drop_last() =~= rows.take(i as int + 1));
            assert(upto.last() == record_of_task(all[i as int]));
        }
        text.append(&mut line);
        i += 1;
    }
    assert(rows.take(n as int + 1) =~= rows);
    text
}

/// Reads a timestamp.
fn read_time(text: &str) -> (r: Option<Timestamp>)
    ensures
        r == time_of_text(text@),
{
    match parse_timestamp(text) {
        Ok(ts) => if ts.is_well_formed() {
            Some(ts)
        } else {
            None
        },
        Err(_) => None,
    }
}

/// Reads a timestamp that may be absent.
fn read_optional_time(text: &str) -> (r: Option<Option<Timestamp>>)
    ensures
        r == optional_time_of_text(text@),
{
    if text.is_empty() {
        Some(None)
    } else {
        match read_time(text) {
            Some(ts) => Some(Some(ts)),
            None => None,
        }
    }
}

/// Reads the task that a record stands for, or says what is wrong with the
/// record. A task that comes back is well-formed.
pub fn task_from_record(fields: &Vec<String>) -> (r: Result<Task, Fault>)
    ensures
        match r {
            Ok(task) => task_of_record(fields.deep_view()) == Ok::<TaskView, Fault>(task@)
                && task@.well_formed(),
            Err(fault) => task_of_record(fields.deep_view()) == Err::<TaskView, Fault>(fault),
        },
{
    let ghost texts = fields.deep_view();
    if fields.len() != COLUMNS {
        return Err(Fault::Columns);
    }
    assert(texts[0] == fields@[0]@ && texts[1] == fields@[1]@ && texts[2] == fields@[2]@
        && texts[3] == fields@[3]@ && texts[4] == fields@[4]@);
    let id = match parse_u32(fields[0].as_str()) {
        Some(id) => id,
        None => {
            return Err(Fault::Id);
        },
    };
    let created_at = match read_time(fields[2].as_str()) {
        Some(ts) => ts,
        None => {
            return Err(Fault::CreatedAt);
        },
    };
    let completed_at = match read_optional_time(fields[3].as_str()) {
        Some(t) => t,
        None => {
            return Err(Fault::CompletedAt);
        },
    };
    let due_date = match read_optional_time(fields[4].as_str()) {
        Some(t) => t,
        None => {
            return Err(Fault::DueDate);
        },
    };
    Ok(Task { id, description: fields[1].clone(), created_at, completed_at, due_date })
}

/// Decides whether a record is the header.
pub fn is_header(fields: &Vec<String>) -> (r: bool)
    ensures
        r == (fields.deep_view() == header()),
{
    let ghost texts = fields.deep_view();
    assert(header().len() == COLUMNS);
    if fields.len() != COLUMNS {
        return false;
    }
    assert(texts[0] == fields@[0]@ && texts[1] == fields@[1]@ && texts[2] == fields@[2]@
        && texts[3] == fields@[3]@ && texts[4] == fields@[4]@);
    let r = fields[0] == String::from_str("id") && fields[1] == String::from_str("description")
        && fields[2] == String::from_str("created_at") && fields[3] == String::from_str(
        "completed_at",
    ) && fields[4] == String::from_str("due_date");
    if r {
        assert(texts =~= header());
    }
    r
}

/// Reads the task list that the records of a file stand for. Every task that
/// comes back is well-formed.
pub fn tasks_from_rows(rows: &Vec<Vec<String>>) -> (r: Result<Vec<Task>, ReadError>)
    ensures
        match r {
            Ok(tasks) => tasks_of_rows(rows.deep_view()) == Ok::<Seq<TaskView>, ReadError>(
                views(tasks@),
            ) && all_well_formed(views(tasks@)),
            Err(e) => tasks_of_rows(rows.deep_view()) == Err::<Seq<TaskView>, ReadError>(e),
        },
{
    let ghost texts = rows.deep_view();
    let mut tasks: Vec<Task> = Vec::new();
    let n = rows.len();
    if n == 0 {
        assert(views(tasks@) =~= Seq::<TaskView>::empty());
        return Ok(tasks);
    }
    assert(texts[0] == rows@[0].deep_view());
    if !is_header(&rows[0]) {
        return Err(ReadError::Header);
    }
    let ghost records = texts.skip(1);
    let mut i: usize = 1;
    while i < n
        invariant
            n == rows.len(),
            texts == rows.deep_view(),
            texts[0] == header(),
            records == texts.skip(1),
            1 <= i <= n,
            tasks@.len() == i - 1,
            forall|j: int|
                0 <= j < i - 1 ==> task_of_record(#[trigger] records[j]) == Ok::<TaskView, Fault>(
                    views(tasks@)[j],
                ),
            all_well_formed(views(tasks@)),
        decreases n - i,
    {
        assert(records[i as int - 1] == rows@[i as int].deep_view());
        match task_from_record(&rows[i]) {
            Ok(task) => {
                let ghost earlier = views(tasks@);
                tasks.push(task);
                assert(views(tasks@) =~= earlier.push(task@));
            },
            Err(fault) => {
                proof {
                    assert forall|j: int| 0 <= j < i - 1 implies !faulty()(
                        #[trigger] records[j],
                    ) by {
                        assert(task_of_record(records[j]) is Ok);
                    }
                    assert(faulty()(records[i as int - 1]));
                    lemma_first_where_is(records, faulty(), i as int - 1);
                }
                return Err(ReadError::Record { index: i - 1, fault });
            },
        }
        i += 1;
    }
    proof {
        assert forall|j: int| 0 <= j < records.len() implies !faulty()(#[trigger] records[j]) by {
            assert(task_of_record(records[j]) is Ok);
        }
        lemma_first_where_is(records, faulty(), records.len() as int);
        assert(views(tasks@) =~= records.map_values(
            |fields: Seq<Seq<char>>| task_of_record(fields)->Ok_0,
        ));
    }
    Ok(tasks)
}

/// Reads a task list from the text of the backing file. The empty text is the
/// empty list. Every task that comes back is well-formed.
pub fn read_tasks(text: &[u8]) -> (r: Result<Vec<Task>, ReadError>)
    ensures
        match r {
            Ok(tasks) => tasks_of_text(text@) == Ok::<Seq<TaskView>, ReadError>(views(tasks@))
                && all_well_formed(views(tasks@)),
            Err(e) => tasks_of_text(text@) == Err::<Seq<TaskView>, ReadError>(e),
        },
{
    match csv_rows(text) {
        Ok(rows) => tasks_from_rows(&rows),
        Err(_) => Err(ReadError::Malformed),
    }
}

} // verus!
