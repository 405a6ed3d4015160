use crate::number::{decimal, render_decimal};
use crate::task::{views, Task, TaskView};
use vstd::prelude::*;
use vstd::string::StringExecFns;

verus! {

/// The contents of a run of texts, in order.
pub open spec fn texts(lines: Seq<String>) -> Seq<Seq<char>> {
    lines.map_values(|line: String| line@)
}

/// How the state of a task is written.
pub open spec fn status_text(completed: bool) -> Seq<char> {
    if completed {
        "Completed"@
    } else {
        "Not Completed"@
    }
}

/// The line that shows one task: `[id] description - status (created_at)`.
pub open spec fn task_line(task: TaskView) -> Seq<char> {
    "["@ + decimal(task.id) + "] "@ + task.description + " - "@ + status_text(task.completed)
        + " ("@ + task.created_at + ")"@
}

/// The line that closes a listing of `count` tasks.
pub open spec fn total_line(count: nat) -> Seq<char> {
    "\nTotal tasks: "@ + decimal(count) + "\n"@
}

/// The lines that show a list of tasks: one line for each task, in order, then the
/// total; for an empty list a single line that says so.
pub open spec fn listing(tasks: Seq<TaskView>) -> Seq<Seq<char>> {
    if tasks.len() == 0 {
        seq!["No tasks found.\n"@]
    } else {
        tasks.map_values(|task: TaskView| task_line(task)).push(total_line(tasks.len()))
    }
}

/// Writes the line that shows `task`.
pub fn render_task(task: &Task) -> (line: String)
    ensures
        line@ == task_line(task@),
{
    let mut line = String::from_str("[");
    let id = render_decimal(task.id as u64);
    line.append(id.as_str());
    line.append("] ");
    line.append(task.description.as_str());
    line.append(" - ");
    if task.completed {
        line.append("Completed");
    } else {
        line.append("Not Completed");
    }
    line.append(" (");
    line.append(task.created_at.as_str());
    line.append(")");
    line
}

/// Writes the line that closes a listing of `count` tasks.
pub fn render_total(count: usize) -> (line: String)
    ensures
        line@ == total_line(count as nat),
{
    let mut line = String::from_str("\nTotal tasks: ");
    let digits = render_decimal(count as u64);
    line.append(digits.as_str());
    line.append("\n");
    line
}

/// Writes the lines that show `tasks`.
pub fn render_tasks(tasks: &Vec<Task>) -> (lines: Vec<String>)
    ensures
        texts(lines@) == listing(views(tasks@)),
{
    let mut lines: Vec<String> = Vec::new();
    if tasks.len() == 0 {
        lines.push(String::from_str("No tasks found.\n"));
        assert(texts(lines@) =~= listing(views(tasks@)));
        return lines;
    }
    let mut i: usize = 0;
    while i < tasks.len()
        invariant
            i <= tasks.len(),
            lines.len() == i,
            forall|j: int| 0 <= j < i ==> (#[trigger] lines[j])@ == task_line(tasks[j]@),
        decreases tasks.len() - i,
    {
        lines.push(render_task(&tasks[i]));
        i = i + 1;
    }
    lines.push(render_total(tasks.len()));
    assert(texts(lines@) =~= listing(views(tasks@)));
    lines
}

} // verus!
