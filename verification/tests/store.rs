use todo_list::store::{
    add_task, add_task_at, complete_task, complete_task_at, delete_task, has_task, list_tasks,
    next_task_id,
};
use todo_list::task::{are_well_formed, Task};
use todo_list::timestamp::Timestamp;

fn at(secs: i64) -> Timestamp {
    Timestamp { secs, nanos: 0, offset: 0 }
}

fn task(id: u32, description: &str, completed_at: Option<Timestamp>) -> Task {
    Task {
        id,
        description: description.to_string(),
        created_at: at(1_700_000_000),
        completed_at,
        due_date: None,
    }
}

fn ids(tasks: &[Task]) -> Vec<u32> {
    let mut out = Vec::new();
    for t in tasks {
        out.push(t.id);
    }
    out
}

#[test]
fn buy_milk_scenario() {
    let mut tasks: Vec<Task> = Vec::new();

    let first = add_task_at(&mut tasks, "buy milk".to_string(), at(1_700_000_000), None);
    assert_eq!(first, 1);
    assert_eq!(tasks.len(), 1);
    assert_eq!(tasks[0].id, 1);
    assert_eq!(tasks[0].description, "buy milk");
    assert_eq!(tasks[0].completed_at, None);

    let second = add_task_at(&mut tasks, "call mom".to_string(), at(1_700_000_100), None);
    assert_eq!(second, 2);

    assert!(complete_task_at(&mut tasks, 1, at(1_700_000_200)));
    assert_eq!(tasks[0].completed_at, Some(at(1_700_000_200)));
    assert_eq!(tasks[1], task_created(2, "call mom", 1_700_000_100));

    let pending = list_tasks(&tasks, false);
    assert_eq!(ids(&pending), vec![2]);

    assert!(delete_task(&mut tasks, 2));
    assert_eq!(list_tasks(&tasks, false).len(), 0);
    assert_eq!(ids(&tasks), vec![1]);
}

fn task_created(id: u32, description: &str, secs: i64) -> Task {
    Task {
        id,
        description: description.to_string(),
        created_at: at(secs),
        completed_at: None,
        due_date: None,
    }
}

#[test]
fn first_id_is_one() {
    let mut tasks: Vec<Task> = Vec::new();
    assert_eq!(next_task_id(&tasks), Some(1));
    assert_eq!(add_task_at(&mut tasks, "a".to_string(), at(0), None), 1);
}

#[test]
fn id_follows_the_last_record_whatever_the_gaps() {
    let mut tasks = vec![task(1, "a", None), task(2, "b", None), task(7, "c", None)];
    assert_eq!(next_task_id(&tasks), Some(8));
    assert!(delete_task(&mut tasks, 2));
    assert_eq!(next_task_id(&tasks), Some(8));
    assert_eq!(add_task_at(&mut tasks, "d".to_string(), at(5), Some(at(9))), 8);
    assert_eq!(ids(&tasks), vec![1, 7, 8]);
    assert_eq!(tasks[2].due_date, Some(at(9)));
    assert_eq!(tasks[2].created_at, at(5));
}

#[test]
fn id_goes_by_the_last_record_not_the_largest() {
    let tasks = vec![task(9, "a", None), task(3, "b", None)];
    assert_eq!(next_task_id(&tasks), Some(4));
}

#[test]
fn id_after_deleting_the_last_record_is_handed_out_again() {
    let mut tasks = vec![task(1, "a", None), task(2, "b", None)];
    assert!(delete_task(&mut tasks, 2));
    assert_eq!(next_task_id(&tasks), Some(2));
}

#[test]
fn no_id_beyond_32_bits() {
    let tasks = vec![task(u32::MAX, "last", None)];
    assert_eq!(next_task_id(&tasks), None);
    let tasks = vec![task(u32::MAX - 1, "almost", None)];
    assert_eq!(next_task_id(&tasks), Some(u32::MAX));
}

#[test]
fn listing_all_keeps_everything_in_order() {
    let tasks = vec![task(1, "a", Some(at(5))), task(2, "b", None), task(3, "c", Some(at(6)))];
    let all = list_tasks(&tasks, true);
    assert_eq!(all, tasks);
}

#[test]
fn listing_pending_keeps_the_incomplete_in_order() {
    let tasks = vec![
        task(1, "a", Some(at(5))),
        task(2, "b", None),
        task(3, "c", Some(at(6))),
        task(4, "d", None),
    ];
    let pending = list_tasks(&tasks, false);
    assert_eq!(pending, vec![task(2, "b", None), task(4, "d", None)]);
    assert_eq!(list_tasks(&Vec::new(), false), Vec::new());
}

#[test]
fn completing_a_missing_task_reports_false_and_changes_nothing() {
    let mut tasks = vec![task(1, "a", None)];
    assert!(!complete_task_at(&mut tasks, 2, at(9)));
    assert_eq!(tasks, vec![task(1, "a", None)]);
}

#[test]
fn completing_again_updates_the_time() {
    let mut tasks = vec![task(1, "a", None), task(2, "b", None)];
    assert!(complete_task_at(&mut tasks, 2, at(10)));
    assert_eq!(tasks[1].completed_at, Some(at(10)));
    assert!(complete_task_at(&mut tasks, 2, at(20)));
    assert_eq!(tasks, vec![task(1, "a", None), task(2, "b", Some(at(20)))]);
}

#[test]
fn completing_marks_the_first_of_two_records_with_one_id() {
    let mut tasks = vec![task(4, "a", None), task(4, "b", None)];
    assert!(complete_task_at(&mut tasks, 4, at(10)));
    assert_eq!(tasks, vec![task(4, "a", Some(at(10))), task(4, "b", None)]);
}

#[test]
fn deleting_removes_exactly_one_record() {
    let mut tasks = vec![task(1, "a", None), task(2, "b", None), task(3, "c", None)];
    assert!(delete_task(&mut tasks, 2));
    assert_eq!(tasks, vec![task(1, "a", None), task(3, "c", None)]);
    assert!(!has_task(&tasks, 2));
    assert!(has_task(&tasks, 3));
}

#[test]
fn deleting_a_missing_task_reports_false_and_changes_nothing() {
    let mut tasks = vec![task(1, "a", None)];
    assert!(!delete_task(&mut tasks, 5));
    assert_eq!(tasks, vec![task(1, "a", None)]);
    let mut none: Vec<Task> = Vec::new();
    assert!(!delete_task(&mut none, 1));
}

#[test]
fn deleting_removes_every_record_with_the_id() {
    let mut tasks = vec![task(4, "a", None), task(5, "b", None), task(4, "c", None)];
    assert!(delete_task(&mut tasks, 4));
    assert_eq!(tasks, vec![task(5, "b", None)]);
}

#[test]
fn adding_now_reads_the_clock() {
    let before = chrono::Utc::now().timestamp();
    let mut tasks = vec![task(3, "old", None)];
    let added = add_task(&mut tasks, "new".to_string(), None);
    let after = chrono::Utc::now().timestamp();
    assert_eq!(added.id, 4);
    assert_eq!(added.description, "new");
    assert_eq!(added.completed_at, None);
    assert_eq!(added.due_date, None);
    assert!(before <= added.created_at.secs && added.created_at.secs <= after);
    assert_eq!(tasks.len(), 2);
    assert_eq!(tasks[1], added);
    assert!(are_well_formed(&tasks));
}

#[test]
fn adding_with_a_due_word_sets_the_end_of_a_day() {
    let mut tasks: Vec<Task> = Vec::new();
    let added = add_task(&mut tasks, "pay rent".to_string(), Some("Tomorrow".to_string()));
    let due = added.due_date.expect("tomorrow names a day");
    assert_eq!((due.secs + due.offset as i64).rem_euclid(86_400), 86_399);
    assert_eq!(due.nanos, 999_000_000);
    assert!(due.secs > added.created_at.secs);
    let unknown = add_task(&mut tasks, "x".to_string(), Some("next week".to_string()));
    assert_eq!(unknown.due_date, None);
    assert_eq!(unknown.id, 2);
}

#[test]
fn completing_now_reads_the_clock() {
    let before = chrono::Utc::now().timestamp();
    let mut tasks = vec![task(1, "a", None)];
    assert!(complete_task(&mut tasks, 1));
    let after = chrono::Utc::now().timestamp();
    let done = tasks[0].completed_at.expect("marked complete");
    assert!(before <= done.secs && done.secs <= after);
    assert!(!complete_task(&mut tasks, 2));
}
