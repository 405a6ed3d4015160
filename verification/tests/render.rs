use task_manager::notice::Notice;
use task_manager::render::{render_task, render_tasks, render_total};
use task_manager::task::Task;

fn task(id: u32, description: &str, completed: bool, created_at: &str) -> Task {
    Task {
        id,
        description: description.to_string(),
        completed,
        created_at: created_at.to_string(),
    }
}

#[test]
fn task_line_of_an_open_task() {
    let t = task(1, "Buy milk", false, "2024-05-01 09:30:00.123456789 +02:00");
    assert_eq!(
        render_task(&t),
        "[1] Buy milk - Not Completed (2024-05-01 09:30:00.123456789 +02:00)"
    );
}

#[test]
fn task_line_of_a_completed_task() {
    let t = task(4294967295, "", true, "");
    assert_eq!(render_task(&t), "[4294967295]  - Completed ()");
}

#[test]
fn task_line_is_the_formatted_line() {
    for (id, completed) in [(0u32, false), (12, true), (305, false)] {
        let t = task(id, "näme", completed, "then");
        let status = if completed { "Completed" } else { "Not Completed" };
        assert_eq!(
            render_task(&t),
            format!("[{}] {} - {} ({})", t.id, t.description, status, t.created_at)
        );
    }
}

#[test]
fn total_line() {
    assert_eq!(render_total(0), "\nTotal tasks: 0\n");
    assert_eq!(render_total(3), "\nTotal tasks: 3\n");
    assert_eq!(render_total(120), "\nTotal tasks: 120\n");
}

#[test]
fn listing_of_no_tasks() {
    assert_eq!(render_tasks(&Vec::new()), vec!["No tasks found.\n".to_string()]);
}

#[test]
fn listing_of_some_tasks() {
    let tasks = vec![task(1, "a", false, "x"), task(2, "b", true, "y")];
    assert_eq!(
        render_tasks(&tasks),
        vec![
            "[1] a - Not Completed (x)".to_string(),
            "[2] b - Completed (y)".to_string(),
            "\nTotal tasks: 2\n".to_string(),
        ]
    );
}

#[test]
fn notice_texts() {
    assert_eq!(Notice::Welcome.text(), "Welcome to the Task Manager!\n");
    assert_eq!(Notice::MenuTitle.text(), "### Please choose an option:");
    assert_eq!(Notice::MenuCreate.text(), "1. Create a new task");
    assert_eq!(Notice::MenuList.text(), "2. View all tasks");
    assert_eq!(Notice::MenuComplete.text(), "3. Mark task as completed");
    assert_eq!(Notice::MenuDelete.text(), "4. Delete a task");
    assert_eq!(Notice::MenuExit.text(), "5. Exit");
    assert_eq!(
        Notice::InvalidInput.text(),
        "Invalid input. Please enter a number between 1 and 5."
    );
    assert_eq!(Notice::InvalidChoice.text(), "Invalid choice. Please try again.");
    assert_eq!(Notice::Exiting.text(), "Exiting...");
    assert_eq!(Notice::AskDescription.text(), "Enter task description:");
    assert_eq!(Notice::Created.text(), "Task created successfully!\n");
    assert_eq!(Notice::NothingToComplete.text(), "No tasks to mark as completed.\n");
    assert_eq!(
        Notice::AskCompleteId.text(),
        "Enter the ID of the task to mark as completed:"
    );
    assert_eq!(Notice::Completed.text(), "Task marked as completed!\n");
    assert_eq!(Notice::NothingToDelete.text(), "No tasks to delete.\n");
    assert_eq!(Notice::AskDeleteId.text(), "Enter the ID of the task to delete:");
    assert_eq!(Notice::Deleted.text(), "Task deleted successfully!\n");
    assert_eq!(Notice::InvalidId.text(), "Invalid input. Please enter a valid task ID.");
}
