use vstd::prelude::*;

verus! {

/// A single entry of the task list.
#[derive(Clone, Debug, PartialEq, Eq)]
pub struct Task {
    pub id: u32,
    pub description: String,
    pub completed: bool,
    pub created_at: String,
}

/// The mathematical value of a [`Task`]: its texts as sequences of characters.
pub struct TaskView {
    pub id: nat,
    pub description: Seq<char>,
    pub completed: bool,
    pub created_at: Seq<char>,
}

impl View for Task {
    type V = TaskView;

    open spec fn view(&self) -> TaskView {
        TaskView {
            id: self.id as nat,
            description: self.description@,
            completed: self.completed,
            created_at: self.created_at@,
        }
    }
}

/// The values of a run of tasks, in order.
pub open spec fn views(tasks: Seq<Task>) -> Seq<TaskView> {
    tasks.map_values(|task: Task| task@)
}

impl TaskView {
    /// The same entry, marked as done.
    pub open spec fn done(self) -> TaskView {
        TaskView { completed: true, ..self }
    }
}

impl Task {
    /// A task that is not yet completed.
    pub fn new(id: u32, description: String, created_at: String) -> (task: Task)
        ensures
            task@ == (TaskView {
                id: id as nat,
                description: description@,
                completed: false,
                created_at: created_at@,
            }),
    {
        Task { id, description, completed: false, created_at }
    }
}

} // verus!
