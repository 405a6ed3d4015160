use crate::task::{views, Task, TaskView};
use crate::text::{trim, trimmed};
use vstd::prelude::*;

verus! {

/// The task that a new entry of a list of `count` tasks becomes: numbered one past the
/// count, not yet done, its description freed of the blank space around it.
pub open spec fn new_task(count: nat, description: Seq<char>, created_at: Seq<char>) -> TaskView {
    TaskView { id: count + 1, description: trimmed(description), completed: false, created_at }
}

/// Whether position `i` holds the first task of `tasks` that carries the number `id`.
pub open spec fn is_first_with_id(tasks: Seq<TaskView>, id: nat, i: int) -> bool {
    &&& 0 <= i < tasks.len()
    &&& tasks[i].id == id
    &&& forall|j: int| 0 <= j < i ==> (#[trigger] tasks[j]).id != id
}

/// The list after the first task numbered `id` has been marked as done. A list without
/// such a task stays as it is.
pub open spec fn with_completed(tasks: Seq<TaskView>, id: nat) -> Seq<TaskView> {
    Seq::new(
        tasks.len(),
        |i: int|
            if is_first_with_id(tasks, id, i) {
                tasks[i].done()
            } else {
                tasks[i]
            },
    )
}

/// The list without the tasks numbered `id`, the others in the order they had.
pub open spec fn without_id(tasks: Seq<TaskView>, id: nat) -> Seq<TaskView> {
    tasks.filter(|task: TaskView| task.id != id)
}

/// Deleting from a list that grew by one task drops that task or keeps it at the end,
/// and treats the rest as before.
proof fn lemma_without_id_push(tasks: Seq<TaskView>, task: TaskView, id: nat)
    ensures
        without_id(tasks.push(task), id) == if task.id == id {
            without_id(tasks, id)
        } else {
            without_id(tasks, id).push(task)
        },
{
    reveal(Seq::filter);
    assert(tasks.push(task).drop_last() == tasks);
}

/// Appends a new task to the list.
pub fn create_task(tasks: &mut Vec<Task>, description: &str, created_at: String)
    requires
        old(tasks).len() < u32::MAX,
    ensures
        views(final(tasks)@) == views(old(tasks)@).push(
            new_task(old(tasks)@.len(), description@, created_at@),
        ),
{
    let id: u32 = tasks.len() as u32 + 1;
    let task = Task::new(id, trim(description).to_owned(), created_at);
    tasks.push(task);
}

/// Marks the first task numbered `id` as done.
pub fn mark_task_completed(tasks: &mut Vec<Task>, id: u32)
    ensures
        views(final(tasks)@) == with_completed(views(old(tasks)@), id as nat),
{
    let mut i: usize = 0;
    while i < tasks.len()
        invariant
            tasks@ == old(tasks)@,
            i <= tasks.len(),
            forall|j: int| 0 <= j < i ==> (#[trigger] views(tasks@)[j]).id != id as nat,
        decreases tasks.len() - i,
    {
        if tasks[i].id == id {
            tasks[i].completed = true;
            assert(is_first_with_id(views(old(tasks)@), id as nat, i as int));
            assert(views(tasks@) =~= with_completed(views(old(tasks)@), id as nat));
            return;
        }
        i = i + 1;
    }
    assert(views(tasks@) =~= with_completed(views(old(tasks)@), id as nat));
}

/// Removes every task numbered `id`.
pub fn delete_task(tasks: &mut Vec<Task>, id: u32)
    ensures
        views(final(tasks)@) == without_id(views(old(tasks)@), id as nat),
{
    let mut all: Vec<Task> = Vec::new();
    core::mem::swap(tasks, &mut all);
    assert(without_id(Seq::empty(), id as nat) == Seq::<TaskView>::empty()) by {
        reveal(Seq::filter);
    }
    for task in it: all
        invariant
            it.seq() == old(tasks)@,
            views(tasks@) == without_id(views(old(tasks)@.take(it.index())), id as nat),
    {
        proof {
            let seen = old(tasks)@.take(it.index());
            let next = old(tasks)@.take(it.index() + 1);
            assert(views(next) == views(seen).push(task@));
            lemma_without_id_push(views(seen), task@, id as nat);
        }
        if task.id != id {
            tasks.push(task);
        }
    }
    assert(old(tasks)@.take(old(tasks)@.len() as int) == old(tasks)@);
}

/// Marking a task as done touches one entry at most, and of that entry only the
/// `completed` flag: the list keeps its length, every entry keeps its number, its
/// description and its time of creation, and an entry is done afterwards if it was done
/// before or is the first one numbered `id`.
pub proof fn lemma_completed_changes_one_flag(tasks: Seq<TaskView>, id: nat)
    ensures
        with_completed(tasks, id).len() == tasks.len(),
        forall|i: int|
            0 <= i < tasks.len() ==> {
                let before = tasks[i];
                let after = #[trigger] with_completed(tasks, id)[i];
                &&& after.id == before.id
                &&& after.description == before.description
                &&& after.created_at == before.created_at
                &&& after.completed == (before.completed || is_first_with_id(tasks, id, i))
            },
        forall|i: int, j: int|
            is_first_with_id(tasks, id, i) && is_first_with_id(tasks, id, j) ==> i == j,
{
}

/// Deleting leaves no task numbered `id` behind.
pub proof fn lemma_deleted_id_is_gone(tasks: Seq<TaskView>, id: nat)
    ensures
        without_id(tasks, id).len() <= tasks.len(),
        forall|i: int|
            0 <= i < without_id(tasks, id).len() ==> (#[trigger] without_id(tasks, id)[i]).id
                != id,
{
    let keep = |task: TaskView| task.id != id;
    tasks.lemma_filter_len(keep);
    assert forall|i: int| 0 <= i < without_id(tasks, id).len() implies (#[trigger] without_id(
        tasks,
        id,
    )[i]).id != id by {
        tasks.lemma_filter_pred(keep, i);
    }
}

/// Deleting goes entry by entry and keeps the order: a task with another number stays
/// where it stands among the others, and a list in two parts is cleared part by part.
pub proof fn lemma_deleted_keeps_the_others(a: Seq<TaskView>, b: Seq<TaskView>, id: nat)
    ensures
        without_id(Seq::empty(), id) == Seq::<TaskView>::empty(),
        forall|task: TaskView|
            #[trigger] without_id(seq![task], id) == if task.id == id {
                Seq::empty()
            } else {
                seq![task]
            },
        without_id(a + b, id) == without_id(a, id) + without_id(b, id),
{
    assert(without_id(Seq::empty(), id) == Seq::<TaskView>::empty()) by {
        reveal(Seq::filter);
    }
    assert forall|task: TaskView|
        #[trigger] without_id(seq![task], id) == if task.id == id {
            Seq::empty()
        } else {
            seq![task]
        } by {
        assert(seq![task] == Seq::<TaskView>::empty().push(task));
        lemma_without_id_push(Seq::empty(), task, id);
    }
    Seq::filter_distributes_over_add(a, b, |task: TaskView| task.id != id);
}

} // verus!
