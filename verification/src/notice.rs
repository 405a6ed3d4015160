use vstd::prelude::*;

verus! {

/// The fixed messages of the console dialogue.
#[derive(Clone, Copy, Debug, PartialEq, Eq)]
pub enum Notice {
    Welcome,
    MenuTitle,
    MenuCreate,
    MenuList,
    MenuComplete,
    MenuDelete,
    MenuExit,
    InvalidInput,
    InvalidChoice,
    Exiting,
    AskDescription,
    Created,
    NothingToComplete,
    AskCompleteId,
    Completed,
    NothingToDelete,
    AskDeleteId,
    Deleted,
    InvalidId,
}

/// The wording of each message. A text that ends in a line break leaves an empty line
/// behind it when it is printed as a line.
pub open spec fn notice_text(notice: Notice) -> Seq<char> {
    match notice {
        Notice::Welcome => "Welcome to the Task Manager!\n"@,
        Notice::MenuTitle => "### Please choose an option:"@,
        Notice::MenuCreate => "1. Create a new task"@,
        Notice::MenuList => "2. View all tasks"@,
        Notice::MenuComplete => "3. Mark task as completed"@,
        Notice::MenuDelete => "4. Delete a task"@,
        Notice::MenuExit => "5. Exit"@,
        Notice::InvalidInput => "Invalid input. Please enter a number between 1 and 5."@,
        Notice::InvalidChoice => "Invalid choice. Please try again."@,
        Notice::Exiting => "Exiting..."@,
        Notice::AskDescription => "Enter task description:"@,
        Notice::Created => "Task created successfully!\n"@,
        Notice::NothingToComplete => "No tasks to mark as completed.\n"@,
        Notice::AskCompleteId => "Enter the ID of the task to mark as completed:"@,
        Notice::Completed => "Task marked as completed!\n"@,
        Notice::NothingToDelete => "No tasks to delete.\n"@,
        Notice::AskDeleteId => "Enter the ID of the task to delete:"@,
        Notice::Deleted => "Task deleted successfully!\n"@,
        Notice::InvalidId => "Invalid input. Please enter a valid task ID."@,
    }
}

impl Notice {
    /// The wording of this message.
    pub fn text(self) -> (text: &'static str)
        ensures
            text@ == notice_text(self),
    {
        match self {
            Notice::Welcome => "Welcome to the Task Manager!\n",
            Notice::MenuTitle => "### Please choose an option:",
            Notice::MenuCreate => "1. Create a new task",
            Notice::MenuList => "2. View all tasks",
            Notice::MenuComplete => "3. Mark task as completed",
            Notice::MenuDelete => "4. Delete a task",
            Notice::MenuExit => "5. Exit",
            Notice::InvalidInput => "Invalid input. Please enter a number between 1 and 5.",
            Notice::InvalidChoice => "Invalid choice. Please try again.",
            Notice::Exiting => "Exiting...",
            Notice::AskDescription => "Enter task description:",
            Notice::Created => "Task created successfully!\n",
            Notice::NothingToComplete => "No tasks to mark as completed.\n",
            Notice::AskCompleteId => "Enter the ID of the task to mark as completed:",
            Notice::Completed => "Task marked as completed!\n",
            Notice::NothingToDelete => "No tasks to delete.\n",
            Notice::AskDeleteId => "Enter the ID of the task to delete:",
            Notice::Deleted => "Task deleted successfully!\n",
            Notice::InvalidId => "Invalid input. Please enter a valid task ID.",
        }
    }
}

} // verus!
