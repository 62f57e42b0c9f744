use todo_list::codec::{read_tasks, write_tasks, Fault, ReadError};
use todo_list::command::{apply, apply_to, resolve, run, Action, Command, Failure, Outcome};
use todo_list::table::table_lines_at;
use todo_list::task::Task;
use todo_list::timestamp::{Timestamp, MAX_SECS};

const NOW: i64 = 1_704_161_045;
const HEADER: &str = "id,description,created_at,completed_at,due_date\n";

fn at(secs: i64) -> Timestamp {
    Timestamp { secs, nanos: 0, offset: 0 }
}

fn text(lines: &[&str]) -> Vec<u8> {
    let mut out = String::from(HEADER);
    for line in lines {
        out.push_str(line);
        out.push('\n');
    }
    out.into_bytes()
}

fn saved(outcome: &Outcome) -> String {
    String::from_utf8(outcome.save.clone().expect("something to save")).unwrap()
}

fn add(description: &str, secs: i64, due: Option<i64>) -> Action {
    Action::Add {
        description: description.to_string(),
        created_at: at(secs),
        due_date: due.map(at),
    }
}

#[test]
fn adding_to_no_file_writes_header_and_record() {
    let outcome = apply(b"", add("buy milk", NOW, None)).unwrap();
    assert_eq!(saved(&outcome), format!("{}1,buy milk,2024-01-02T02:04:05Z,,\n", HEADER));
    assert_eq!(outcome.out, vec!["Task added successfully!".to_string()]);
    assert_eq!(outcome.err, Vec::<String>::new());
}

#[test]
fn adding_appends_with_the_next_id_and_the_due_date() {
    let before = text(&["1,a,2024-01-02T02:04:05Z,,", "5,b,2024-01-02T02:04:05Z,,"]);
    let outcome = apply(&before, add("c, d", NOW + 1, Some(NOW + 10))).unwrap();
    assert_eq!(
        saved(&outcome),
        String::from_utf8(text(&[
            "1,a,2024-01-02T02:04:05Z,,",
            "5,b,2024-01-02T02:04:05Z,,",
            "6,\"c, d\",2024-01-02T02:04:06Z,,2024-01-02T02:04:15Z",
        ]))
        .unwrap()
    );
}

#[test]
fn whole_scenario_on_the_text() {
    let one = apply(b"", add("buy milk", NOW, None)).unwrap().save.unwrap();
    let two = apply(&one, add("call mom", NOW + 1, None)).unwrap().save.unwrap();
    let tasks = read_tasks(&two).unwrap();
    assert_eq!(tasks.len(), 2);
    assert_eq!((tasks[0].id, tasks[1].id), (1, 2));
    assert_eq!(tasks[0].completed_at, None);

    let done = apply(&two, Action::Complete { task_id: 1, at: at(NOW + 2) }).unwrap();
    assert_eq!(done.out, vec!["Task marked as complete!".to_string()]);
    let three = done.save.unwrap();
    let tasks = read_tasks(&three).unwrap();
    assert_eq!(tasks[0].completed_at, Some(at(NOW + 2)));
    assert_eq!(tasks[1].completed_at, None);
    assert_eq!(tasks[1].description, "call mom");

    let listing = apply(&three, Action::List { all: false, now: at(NOW + 3) }).unwrap();
    assert_eq!(listing.save, None);
    assert_eq!(listing.out.len(), 2);
    assert!(listing.out[1].starts_with("2    call mom "));

    let gone = apply(&three, Action::Delete { task_id: 2 }).unwrap();
    assert_eq!(gone.out, vec!["Task deleted successfully!".to_string()]);
    let four = gone.save.unwrap();
    let left = apply(&four, Action::List { all: false, now: at(NOW + 4) }).unwrap();
    assert_eq!(left.out.len(), 1);
    assert_eq!(read_tasks(&four).unwrap().len(), 1);
}

#[test]
fn deleting_the_only_task_leaves_the_empty_text() {
    let before = text(&["1,a,2024-01-02T02:04:05Z,,"]);
    let outcome = apply(&before, Action::Delete { task_id: 1 }).unwrap();
    assert_eq!(outcome.save, Some(Vec::new()));
}

#[test]
fn a_missing_task_is_reported_and_nothing_is_saved() {
    let before = text(&["1,a,2024-01-02T02:04:05Z,,"]);
    let expected = Outcome {
        save: None,
        out: Vec::new(),
        err: vec!["Task with ID 42 not found.".to_string()],
    };
    assert_eq!(apply(&before, Action::Delete { task_id: 42 }), Ok(expected.clone()));
    assert_eq!(apply(&before, Action::Complete { task_id: 42, at: at(NOW) }), Ok(expected));
    let none = apply(b"", Action::Complete { task_id: 0, at: at(NOW) }).unwrap();
    assert_eq!(none.err, vec!["Task with ID 0 not found.".to_string()]);
    assert_eq!(none.save, None);
}

#[test]
fn completing_writes_the_time() {
    let before = text(&["1,a,2024-01-02T02:04:05Z,,", "2,b,2024-01-02T02:04:05Z,,"]);
    let outcome = apply(&before, Action::Complete { task_id: 2, at: at(NOW + 60) }).unwrap();
    assert_eq!(
        saved(&outcome),
        String::from_utf8(text(&[
            "1,a,2024-01-02T02:04:05Z,,",
            "2,b,2024-01-02T02:04:05Z,2024-01-02T02:05:05Z,",
        ]))
        .unwrap()
    );
    let again = apply(
        outcome.save.as_ref().unwrap(),
        Action::Complete { task_id: 2, at: at(NOW + 120) },
    )
    .unwrap();
    assert_eq!(
        saved(&again),
        String::from_utf8(text(&[
            "1,a,2024-01-02T02:04:05Z,,",
            "2,b,2024-01-02T02:04:05Z,2024-01-02T02:06:05Z,",
        ]))
        .unwrap()
    );
}

#[test]
fn listing_saves_nothing_and_prints_the_table() {
    let before = text(&[
        "1,a,2024-01-02T02:04:05Z,2024-01-02T02:04:06Z,",
        "2,b,2024-01-02T02:04:05Z,,",
    ]);
    let tasks = read_tasks(&before).unwrap();
    let all = apply(&before, Action::List { all: true, now: at(NOW + 3600) }).unwrap();
    assert_eq!(all.save, None);
    assert_eq!(all.err, Vec::<String>::new());
    assert_eq!(all.out, table_lines_at(&tasks, true, &at(NOW + 3600)));
    assert_eq!(all.out.len(), 3);
    let pending = apply(&before, Action::List { all: false, now: at(NOW + 3600) }).unwrap();
    assert_eq!(pending.out, table_lines_at(&tasks, false, &at(NOW + 3600)));
    assert_eq!(pending.out.len(), 2);
}

#[test]
fn a_text_that_is_no_task_list_fails_every_action() {
    let bad = text(&["x,a,2024-01-02T02:04:05Z,,"]);
    let failure = Failure::Read(ReadError::Record { index: 0, fault: Fault::Id });
    assert_eq!(apply(&bad, add("a", NOW, None)), Err(failure));
    assert_eq!(apply(&bad, Action::List { all: true, now: at(NOW) }), Err(failure));
    assert_eq!(apply(&bad, Action::Complete { task_id: 1, at: at(NOW) }), Err(failure));
    assert_eq!(apply(&bad, Action::Delete { task_id: 1 }), Err(failure));
    assert_eq!(apply(b"a,b\n", Action::Delete { task_id: 1 }), Err(Failure::Read(ReadError::Header)));
    assert_eq!(
        apply(b"a,b\nc\n", Action::Delete { task_id: 1 }),
        Err(Failure::Read(ReadError::Malformed))
    );
}

#[test]
fn no_id_is_left_after_the_largest() {
    let full = text(&["4294967295,a,2024-01-02T02:04:05Z,,"]);
    assert_eq!(apply(&full, add("b", NOW, None)), Err(Failure::IdsExhausted));
    let almost = text(&["4294967294,a,2024-01-02T02:04:05Z,,"]);
    let outcome = apply(&almost, add("b", NOW, None)).unwrap();
    assert!(saved(&outcome).ends_with("4294967295,b,2024-01-02T02:04:05Z,,\n"));
}

#[test]
fn times_that_cannot_be_written_fail_the_run() {
    let before = text(&["1,a,2024-01-02T02:04:05Z,,"]);
    let late = Timestamp { secs: MAX_SECS, nanos: 0, offset: 3600 };
    assert_eq!(
        apply(
            &before,
            Action::Add { description: "b".to_string(), created_at: late, due_date: None }
        ),
        Err(Failure::TimeOutOfRange)
    );
    assert_eq!(apply(&before, add("b", NOW, Some(MAX_SECS + 1))), Err(Failure::TimeOutOfRange));
    assert_eq!(
        apply(&before, Action::Complete { task_id: 1, at: late }),
        Err(Failure::TimeOutOfRange)
    );
    assert_eq!(
        apply(&before, Action::List { all: true, now: at(MAX_SECS + 1) }),
        Err(Failure::TimeOutOfRange)
    );
    let missing = apply(&before, Action::Complete { task_id: 9, at: late }).unwrap();
    assert_eq!(missing.err, vec!["Task with ID 9 not found.".to_string()]);
}

#[test]
fn applying_to_a_list_is_applying_to_its_text() {
    let tasks = vec![Task {
        id: 3,
        description: "x".to_string(),
        created_at: at(NOW),
        completed_at: None,
        due_date: None,
    }];
    let on_list = apply_to(read_tasks(&write_tasks(&tasks)).unwrap(), add("y", NOW, None));
    assert_eq!(on_list, apply(&write_tasks(&tasks), add("y", NOW, None)));
}

#[test]
fn resolving_keeps_what_the_user_gave() {
    match resolve(Command::Delete { task_id: 7 }) {
        Action::Delete { task_id } => assert_eq!(task_id, 7),
        other => panic!("{:?}", other),
    }
    let before = chrono::Utc::now().timestamp();
    match resolve(Command::Complete { task_id: 8 }) {
        Action::Complete { task_id, at } => {
            assert_eq!(task_id, 8);
            assert!(at.secs >= before && at.is_well_formed());
        }
        other => panic!("{:?}", other),
    }
    match resolve(Command::List { all: true }) {
        Action::List { all, now } => {
            assert!(all);
            assert!(now.secs >= before);
        }
        other => panic!("{:?}", other),
    }
    match resolve(Command::Add { description: "a".to_string(), due: Some("TODAY".to_string()) }) {
        Action::Add { description, created_at, due_date } => {
            assert_eq!(description, "a");
            assert!(created_at.secs >= before);
            let due = due_date.expect("today names a day");
            assert_eq!((due.secs + due.offset as i64).rem_euclid(86_400), 86_399);
            assert!(due.secs >= created_at.secs);
        }
        other => panic!("{:?}", other),
    }
    match resolve(Command::Add { description: "a".to_string(), due: Some("soon".to_string()) }) {
        Action::Add { due_date, .. } => assert_eq!(due_date, None),
        other => panic!("{:?}", other),
    }
}

#[test]
fn running_a_command() {
    let first = run(b"", Command::Add { description: "buy milk".to_string(), due: None }).unwrap();
    assert_eq!(first.out, vec!["Task added successfully!".to_string()]);
    let text = first.save.unwrap();
    let tasks = read_tasks(&text).unwrap();
    assert_eq!(tasks.len(), 1);
    assert_eq!(tasks[0].id, 1);
    assert_eq!(tasks[0].description, "buy milk");
    let listing = run(&text, Command::List { all: false }).unwrap();
    assert_eq!(listing.out.len(), 2);
    assert!(listing.out[1].starts_with("1    buy milk "));
    assert!(listing.out[1].contains(" now "));
    let missing = run(&text, Command::Complete { task_id: 2 }).unwrap();
    assert_eq!(missing.err, vec!["Task with ID 2 not found.".to_string()]);
    let done = run(&text, Command::Complete { task_id: 1 }).unwrap();
    let after = read_tasks(done.save.as_ref().unwrap()).unwrap();
    assert!(after[0].completed_at.is_some());
    let gone = run(&text, Command::Delete { task_id: 1 }).unwrap();
    assert_eq!(gone.save, Some(Vec::new()));
    assert_eq!(
        run(b"nonsense\n", Command::List { all: true }),
        Err(Failure::Read(ReadError::Header))
    );
}
