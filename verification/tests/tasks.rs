use task_manager::list::{create_task, delete_task, mark_task_completed};
use task_manager::task::Task;

fn task(id: u32, description: &str, completed: bool) -> Task {
    Task {
        id,
        description: description.to_string(),
        completed,
        created_at: format!("2024-01-0{} 10:00:00 +00:00", id),
    }
}

fn ids(tasks: &[Task]) -> Vec<u32> {
    tasks.iter().map(|t| t.id).collect()
}

#[test]
fn new_task_is_not_completed() {
    let t = Task::new(7, "Water plants".to_string(), "yesterday".to_string());
    assert_eq!(
        t,
        Task {
            id: 7,
            description: "Water plants".to_string(),
            completed: false,
            created_at: "yesterday".to_string(),
        }
    );
}

#[test]
fn create_on_empty_list_gives_id_one() {
    let mut tasks: Vec<Task> = Vec::new();
    create_task(&mut tasks, "Buy milk", "2024-05-01 09:30:00 +02:00".to_string());
    assert_eq!(tasks.len(), 1);
    assert_eq!(tasks[0].id, 1);
    assert_eq!(tasks[0].description, "Buy milk");
    assert!(!tasks[0].completed);
    assert!(!tasks[0].created_at.is_empty());
    assert_eq!(tasks[0].created_at, "2024-05-01 09:30:00 +02:00");
}

#[test]
fn create_trims_the_description() {
    let mut tasks: Vec<Task> = Vec::new();
    create_task(&mut tasks, "  \tBuy  milk \r\n", "t".to_string());
    assert_eq!(tasks[0].description, "Buy  milk");
    create_task(&mut tasks, "\n", "t".to_string());
    assert_eq!(tasks[1].description, "");
    assert_eq!(tasks[1].id, 2);
}

#[test]
fn create_appends_and_keeps_the_rest() {
    let mut tasks = vec![task(1, "a", true), task(2, "b", false)];
    let before = tasks.clone();
    create_task(&mut tasks, "c", "later".to_string());
    assert_eq!(tasks.len(), 3);
    assert_eq!(&tasks[..2], &before[..]);
    assert_eq!(tasks[2], Task::new(3, "c".to_string(), "later".to_string()));
}

#[test]
fn create_after_delete_reuses_an_id() {
    let mut tasks = vec![task(1, "first", false), task(2, "second", false)];
    delete_task(&mut tasks, 1);
    assert_eq!(ids(&tasks), vec![2]);
    create_task(&mut tasks, "third", "now".to_string());
    assert_eq!(ids(&tasks), vec![2, 2]);
    assert_eq!(tasks[0].description, "second");
    assert_eq!(tasks[1].description, "third");
}

#[test]
fn complete_marks_the_task_with_that_id() {
    let mut tasks = vec![task(1, "a", false), task(2, "b", false)];
    let before = tasks.clone();
    mark_task_completed(&mut tasks, 2);
    assert_eq!(tasks[0], before[0]);
    assert_eq!(
        tasks[1],
        Task { completed: true, ..before[1].clone() }
    );
    assert_eq!(tasks.len(), 2);
}

#[test]
fn complete_without_match_changes_nothing() {
    let mut tasks = vec![task(1, "a", false), task(2, "b", true)];
    let before = tasks.clone();
    mark_task_completed(&mut tasks, 3);
    assert_eq!(tasks, before);
    let mut none: Vec<Task> = Vec::new();
    mark_task_completed(&mut none, 1);
    assert!(none.is_empty());
}

#[test]
fn complete_marks_only_the_first_of_equal_ids() {
    let mut tasks = vec![task(2, "a", false), task(2, "b", false), task(2, "c", false)];
    mark_task_completed(&mut tasks, 2);
    assert!(tasks[0].completed);
    assert!(!tasks[1].completed);
    assert!(!tasks[2].completed);
    mark_task_completed(&mut tasks, 2);
    assert!(tasks[0].completed);
    assert!(!tasks[1].completed);
}

#[test]
fn complete_keeps_a_completed_task_completed() {
    let mut tasks = vec![task(1, "a", true)];
    let before = tasks.clone();
    mark_task_completed(&mut tasks, 1);
    assert_eq!(tasks, before);
}

#[test]
fn delete_removes_the_task_and_keeps_the_order() {
    let mut tasks = vec![task(1, "a", false), task(2, "b", true), task(3, "c", false)];
    let before = tasks.clone();
    delete_task(&mut tasks, 2);
    assert_eq!(ids(&tasks), vec![1, 3]);
    assert_eq!(tasks[0], before[0]);
    assert_eq!(tasks[1], before[2]);
}

#[test]
fn delete_removes_every_task_with_that_id() {
    let mut tasks = vec![task(2, "a", false), task(1, "b", false), task(2, "c", false), task(2, "d", true)];
    delete_task(&mut tasks, 2);
    assert_eq!(tasks, vec![task(1, "b", false)]);
}

#[test]
fn delete_without_match_changes_nothing() {
    let mut tasks = vec![task(1, "a", false), task(3, "c", false)];
    let before = tasks.clone();
    delete_task(&mut tasks, 2);
    assert_eq!(tasks, before);
    let mut none: Vec<Task> = Vec::new();
    delete_task(&mut none, 2);
    assert!(none.is_empty());
}
