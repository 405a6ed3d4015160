//! A task list for one user, and the console dialogue that keeps it.
//!
//! A task has a number, a description, a flag that says whether it is done, and the
//! time of its creation as text ([`task`]). The list is a `Vec` of tasks in the order
//! of their creation; [`list`] adds a task, marks one as done and deletes by number.
//! [`render`] writes the lines that show a list, [`number`] and [`text`] read and write
//! the numbers and trim the lines that a user types.
//!
//! [`session`] is the dialogue itself, as a state machine: it is told what happened (a
//! line was typed, the stored tasks were read or could not be read) and answers with
//! the next state and with what is to be printed and saved. Reading the console and
//! reading and writing the store are left to the caller.
//!
//! Every function carries its contract, stated over the views of the data: a task as a
//! [`task::TaskView`], a text as a `Seq<char>`, a list as a `Seq` of task views.

mod clock;
pub mod list;
pub mod notice;
pub mod number;
pub mod render;
pub mod session;
pub mod task;
pub mod text;
