use crate::clock::local_timestamp;
use crate::list::{create_task, delete_task, mark_task_completed, new_task, with_completed, without_id};
use crate::notice::{notice_text, Notice};
use crate::number::{parse_number, parsed_number};
use crate::render::{listing, render_tasks, texts};
use crate::task::{views, Task, TaskView};
use vstd::prelude::*;
use vstd::string::StringExecFns;

verus! {

/// A change to one task that is chosen by its number.
#[derive(Clone, Copy, Debug, PartialEq, Eq)]
pub enum Edit {
    Complete,
    Delete,
}

/// What the session does as soon as it has the stored tasks.
#[derive(Clone, Debug, PartialEq, Eq)]
pub enum Pending {
    /// Add a task with this description, as it was typed.
    Create(String),
    /// Show the tasks.
    List,
    /// Ask which task to change, unless there is none.
    Edit(Edit),
}

/// Where the dialogue stands.
#[derive(Clone, Debug, PartialEq, Eq)]
pub enum State {
    /// The menu is shown; the session waits for a choice.
    Menu,
    /// The session waits for the description of a new task.
    Describing,
    /// The session waits for the stored tasks.
    Loading(Pending),
    /// The session holds the stored tasks and waits for the number of one of them.
    Selecting(Edit, Vec<Task>),
    /// The user has left.
    Finished,
}

/// What happened outside since the last step.
#[derive(Clone, Debug, PartialEq, Eq)]
pub enum Event {
    /// A line was read from the console.
    Line(String),
    /// The stored tasks were read.
    Loaded(Vec<Task>),
    /// The stored tasks could not be read, or what was read is no list of tasks.
    LoadFailed,
}

/// What the session asks to have done before the next step, in order.
#[derive(Clone, Debug, PartialEq, Eq)]
pub enum Effect {
    /// Print this text as a line.
    Print(String),
    /// Replace the stored tasks by these.
    Save(Vec<Task>),
}

/// What a session needs next.
#[derive(Clone, Copy, Debug, PartialEq, Eq)]
pub enum Awaited {
    /// A line from the console.
    Line,
    /// The stored tasks.
    Tasks,
    /// Nothing: the session is over.
    Nothing,
}

/// The value of a [`Pending`].
pub enum PendingView {
    Create(Seq<char>),
    List,
    Edit(Edit),
}

/// The value of a [`State`].
pub enum StateView {
    Menu,
    Describing,
    Loading(PendingView),
    Selecting(Edit, Seq<TaskView>),
    Finished,
}

/// The value of an [`Event`].
pub enum EventView {
    Line(Seq<char>),
    Loaded(Seq<TaskView>),
    LoadFailed,
}

/// The value of an [`Effect`].
pub enum EffectView {
    Print(Seq<char>),
    Save(Seq<TaskView>),
}

impl View for Pending {
    type V = PendingView;

    open spec fn view(&self) -> PendingView {
        match *self {
            Pending::Create(description) => PendingView::Create(description@),
            Pending::List => PendingView::List,
            Pending::Edit(edit) => PendingView::Edit(edit),
        }
    }
}

impl View for State {
    type V = StateView;

    open spec fn view(&self) -> StateView {
        match *self {
            State::Menu => StateView::Menu,
            State::Describing => StateView::Describing,
            State::Loading(pending) => StateView::Loading(pending@),
            State::Selecting(edit, tasks) => StateView::Selecting(edit, views(tasks@)),
            State::Finished => StateView::Finished,
        }
    }
}

impl View for Event {
    type V = EventView;

    open spec fn view(&self) -> EventView {
        match *self {
            Event::Line(line) => EventView::Line(line@),
            Event::Loaded(tasks) => EventView::Loaded(views(tasks@)),
            Event::LoadFailed => EventView::LoadFailed,
        }
    }
}

impl View for Effect {
    type V = EffectView;

    open spec fn view(&self) -> EffectView {
        match *self {
            Effect::Print(text) => EffectView::Print(text@),
            Effect::Save(tasks) => EffectView::Save(views(tasks@)),
        }
    }
}

/// The values of a run of effects, in order.
pub open spec fn effect_views(effects: Seq<Effect>) -> Seq<EffectView> {
    effects.map_values(|effect: Effect| effect@)
}

/// Printing one of the fixed messages.
pub open spec fn say(notice: Notice) -> EffectView {
    EffectView::Print(notice_text(notice))
}

/// Printing the menu.
pub open spec fn menu() -> Seq<EffectView> {
    seq![
        say(Notice::MenuTitle),
        say(Notice::MenuCreate),
        say(Notice::MenuList),
        say(Notice::MenuComplete),
        say(Notice::MenuDelete),
        say(Notice::MenuExit),
    ]
}

/// What a session opens with: the greeting, then the menu.
pub open spec fn opening() -> Seq<EffectView> {
    seq![say(Notice::Welcome)] + menu()
}

/// Printing each of `lines`.
pub open spec fn shown(lines: Seq<Seq<char>>) -> Seq<EffectView> {
    lines.map_values(|line: Seq<char>| EffectView::Print(line))
}

/// Back to the menu after `effects`.
pub open spec fn to_menu(effects: Seq<EffectView>) -> (StateView, Seq<EffectView>) {
    (StateView::Menu, effects + menu())
}

/// The step from the menu on the line `line`: choices 1 to 5 start their operation, any
/// other number and any text that is no number are refused and the menu is shown again.
pub open spec fn on_choice(line: Seq<char>) -> (StateView, Seq<EffectView>) {
    match parsed_number(line) {
        None => to_menu(seq![say(Notice::InvalidInput)]),
        Some(choice) => if choice == 1 {
            (StateView::Describing, seq![say(Notice::AskDescription)])
        } else if choice == 2 {
            (StateView::Loading(PendingView::List), Seq::empty())
        } else if choice == 3 {
            (StateView::Loading(PendingView::Edit(Edit::Complete)), Seq::empty())
        } else if choice == 4 {
            (StateView::Loading(PendingView::Edit(Edit::Delete)), Seq::empty())
        } else if choice == 5 {
            (StateView::Finished, seq![say(Notice::Exiting)])
        } else {
            to_menu(seq![say(Notice::InvalidChoice)])
        },
    }
}

/// The step that follows the arrival of the stored tasks. A new task is added and the
/// list saved; or the tasks are shown; or, for a change to one task, the session asks
/// for its number, unless the list is empty.
pub open spec fn on_loaded(pending: PendingView, tasks: Seq<TaskView>, now: Seq<char>) -> (
    StateView,
    Seq<EffectView>,
) {
    match pending {
        PendingView::Create(description) => to_menu(
            seq![
                EffectView::Save(tasks.push(new_task(tasks.len(), description, now))),
                say(Notice::Created),
            ],
        ),
        PendingView::List => to_menu(shown(listing(tasks))),
        PendingView::Edit(edit) => if tasks.len() == 0 {
            to_menu(
                seq![
                    say(
                        match edit {
                            Edit::Complete => Notice::NothingToComplete,
                            Edit::Delete => Notice::NothingToDelete,
                        },
                    ),
                ],
            )
        } else {
            (
                StateView::Selecting(edit, tasks),
                seq![
                    say(
                        match edit {
                            Edit::Complete => Notice::AskCompleteId,
                            Edit::Delete => Notice::AskDeleteId,
                        },
                    ),
                ],
            )
        },
    }
}

/// The step on the line that should name a task. A number changes the list, which is
/// then saved, whether or not a task carries that number; a text that is no number is
/// refused and nothing is saved.
pub open spec fn on_selection(edit: Edit, tasks: Seq<TaskView>, line: Seq<char>) -> (
    StateView,
    Seq<EffectView>,
) {
    match parsed_number(line) {
        None => to_menu(seq![say(Notice::InvalidId)]),
        Some(id) => match edit {
            Edit::Complete => to_menu(
                seq![EffectView::Save(with_completed(tasks, id as nat)), say(Notice::Completed)],
            ),
            Edit::Delete => to_menu(
                seq![EffectView::Save(without_id(tasks, id as nat)), say(Notice::Deleted)],
            ),
        },
    }
}

/// The next state and the effects of one step. `now` is the time of the step, as text;
/// only the creation of a task reads it. A failed load counts as an empty list. An
/// event that the state does not wait for changes nothing.
pub open spec fn transition(state: StateView, event: EventView, now: Seq<char>) -> (
    StateView,
    Seq<EffectView>,
) {
    match (state, event) {
        (StateView::Menu, EventView::Line(line)) => on_choice(line),
        (StateView::Describing, EventView::Line(line)) => (
            StateView::Loading(PendingView::Create(line)),
            Seq::empty(),
        ),
        (StateView::Loading(pending), EventView::Loaded(tasks)) => on_loaded(pending, tasks, now),
        (StateView::Loading(pending), EventView::LoadFailed) => on_loaded(
            pending,
            Seq::empty(),
            now,
        ),
        (StateView::Selecting(edit, tasks), EventView::Line(line)) => on_selection(
            edit,
            tasks,
            line,
        ),
        _ => (state, Seq::empty()),
    }
}

/// Whether the step creates a task, and so reads the clock.
pub open spec fn creates(state: StateView, event: EventView) -> bool {
    state matches StateView::Loading(PendingView::Create(_)) && !(event is Line)
}

/// Whether the step changes a task that is chosen by its number: the session holds the
/// tasks and the line names a number.
pub open spec fn edits(state: StateView, event: EventView) -> bool {
    state is Selecting && match event {
        EventView::Line(line) => parsed_number(line) is Some,
        _ => false,
    }
}

/// Whether the step can be taken: a list that a task is added to must leave room for
/// its number, which is the length of the list plus one, in 32 bits.
pub open spec fn steppable(state: StateView, event: EventView) -> bool {
    state matches StateView::Loading(PendingView::Create(_)) ==> (event matches EventView::Loaded(
        tasks,
    ) ==> tasks.len() < u32::MAX)
}

/// Whether `effects` asks for no save.
pub open spec fn saves_nothing(effects: Seq<EffectView>) -> bool {
    forall|i: int| 0 <= i < effects.len() ==> #[trigger] effects[i] is Print
}

/// What a session in the state `state` needs next.
pub open spec fn awaited(state: StateView) -> Awaited {
    match state {
        StateView::Menu | StateView::Describing | StateView::Selecting(_, _) => Awaited::Line,
        StateView::Loading(_) => Awaited::Tasks,
        StateView::Finished => Awaited::Nothing,
    }
}

/// Whether `event` is what a session in the state `state` waits for.
pub open spec fn expected(state: StateView, event: EventView) -> bool {
    match awaited(state) {
        Awaited::Line => event is Line,
        Awaited::Tasks => !(event is Line),
        Awaited::Nothing => false,
    }
}

/// The number of steps that an operation in the state `state` is from its end, at most.
/// At the menu no operation is under way.
pub open spec fn steps_left(state: StateView) -> nat {
    match state {
        StateView::Menu | StateView::Finished => 0,
        StateView::Describing | StateView::Loading(PendingView::Edit(_)) => 2,
        StateView::Loading(_) | StateView::Selecting(_, _) => 1,
    }
}

/// Adds the printing of `notice` to `effects`.
fn push_notice(effects: &mut Vec<Effect>, notice: Notice)
    ensures
        effect_views(final(effects)@) == effect_views(old(effects)@).push(say(notice)),
{
    effects.push(Effect::Print(String::from_str(notice.text())));
    assert(effect_views(effects@) =~= effect_views(old(effects)@).push(say(notice)));
}

/// Adds the printing of the menu to `effects`.
fn push_menu(effects: &mut Vec<Effect>)
    ensures
        effect_views(final(effects)@) == effect_views(old(effects)@) + menu(),
{
    push_notice(effects, Notice::MenuTitle);
    push_notice(effects, Notice::MenuCreate);
    push_notice(effects, Notice::MenuList);
    push_notice(effects, Notice::MenuComplete);
    push_notice(effects, Notice::MenuDelete);
    push_notice(effects, Notice::MenuExit);
    assert(effect_views(effects@) =~= effect_views(old(effects)@) + menu());
}

/// Adds the saving of `tasks` to `effects`.
fn push_save(effects: &mut Vec<Effect>, tasks: Vec<Task>)
    ensures
        effect_views(final(effects)@) == effect_views(old(effects)@).push(
            EffectView::Save(views(tasks@)),
        ),
{
    effects.push(Effect::Save(tasks));
    assert(effect_views(effects@) =~= effect_views(old(effects)@).push(
        EffectView::Save(views(tasks@)),
    ));
}

/// The step from the menu.
fn pick(line: &str) -> (r: (State, Vec<Effect>))
    ensures
        (r.0@, effect_views(r.1@)) == on_choice(line@),
{
    let mut effects: Vec<Effect> = Vec::new();
    assert(effect_views(effects@) =~= Seq::empty());
    let state = match parse_number(line) {
        None => {
            push_notice(&mut effects, Notice::InvalidInput);
            push_menu(&mut effects);
            State::Menu
        },
        Some(choice) => {
            if choice == 1 {
                push_notice(&mut effects, Notice::AskDescription);
                State::Describing
            } else if choice == 2 {
                State::Loading(Pending::List)
            } else if choice == 3 {
                State::Loading(Pending::Edit(Edit::Complete))
            } else if choice == 4 {
                State::Loading(Pending::Edit(Edit::Delete))
            } else if choice == 5 {
                push_notice(&mut effects, Notice::Exiting);
                State::Finished
            } else {
                push_notice(&mut effects, Notice::InvalidChoice);
                push_menu(&mut effects);
                State::Menu
            }
        },
    };
    assert(effect_views(effects@) =~= on_choice(line@).1);
    (state, effects)
}

/// The step that follows the arrival of the stored tasks.
fn resume(pending: Pending, tasks: Vec<Task>, now: String) -> (r: (State, Vec<Effect>))
    requires
        pending is Create ==> tasks.len() < u32::MAX,
    ensures
        (r.0@, effect_views(r.1@)) == on_loaded(pending@, views(tasks@), now@),
{
    let mut effects: Vec<Effect> = Vec::new();
    assert(effect_views(effects@) =~= Seq::empty());
    let state = match pending {
        Pending::Create(description) => {
            let mut tasks = tasks;
            create_task(&mut tasks, description.as_str(), now);
            push_save(&mut effects, tasks);
            push_notice(&mut effects, Notice::Created);
            push_menu(&mut effects);
            State::Menu
        },
        Pending::List => {
            let lines = render_tasks(&tasks);
            let ghost shown_lines = lines@;
            for line in it: lines
                invariant
                    it.seq() == shown_lines,
                    effects.len() == it.index(),
                    forall|j: int|
                        0 <= j < it.index() ==> (#[trigger] effects[j])@ == EffectView::Print(
                            shown_lines[j]@,
                        ),
            {
                effects.push(Effect::Print(line));
            }
            assert(effect_views(effects@) =~= shown(texts(shown_lines)));
            push_menu(&mut effects);
            State::Menu
        },
        Pending::Edit(edit) => {
            if tasks.len() == 0 {
                match edit {
                    Edit::Complete => push_notice(&mut effects, Notice::NothingToComplete),
                    Edit::Delete => push_notice(&mut effects, Notice::NothingToDelete),
                }
                push_menu(&mut effects);
                State::Menu
            } else {
                match edit {
                    Edit::Complete => push_notice(&mut effects, Notice::AskCompleteId),
                    Edit::Delete => push_notice(&mut effects, Notice::AskDeleteId),
                }
                State::Selecting(edit, tasks)
            }
        },
    };
    assert(effect_views(effects@) =~= on_loaded(pending@, views(tasks@), now@).1);
    (state, effects)
}

/// The step on the line that should name a task.
fn select(edit: Edit, tasks: Vec<Task>, line: &str) -> (r: (State, Vec<Effect>))
    ensures
        (r.0@, effect_views(r.1@)) == on_selection(edit, views(tasks@), line@),
{
    let mut effects: Vec<Effect> = Vec::new();
    assert(effect_views(effects@) =~= Seq::empty());
    match parse_number(line) {
        None => {
            push_notice(&mut effects, Notice::InvalidId);
        },
        Some(id) => {
            let mut tasks = tasks;
            match edit {
                Edit::Complete => {
                    mark_task_completed(&mut tasks, id);
                    push_save(&mut effects, tasks);
                    push_notice(&mut effects, Notice::Completed);
                },
                Edit::Delete => {
                    delete_task(&mut tasks, id);
                    push_save(&mut effects, tasks);
                    push_notice(&mut effects, Notice::Deleted);
                },
            }
        },
    }
    push_menu(&mut effects);
    assert(effect_views(effects@) =~= on_selection(edit, views(tasks@), line@).1);
    (State::Menu, effects)
}

impl State {
    /// The state in which a session begins, and what it opens with.
    pub fn start() -> (r: (State, Vec<Effect>))
        ensures
            r.0@ == StateView::Menu,
            effect_views(r.1@) == opening(),
    {
        let mut effects: Vec<Effect> = Vec::new();
        assert(effect_views(effects@) =~= Seq::empty());
        push_notice(&mut effects, Notice::Welcome);
        push_menu(&mut effects);
        assert(effect_views(effects@) =~= opening());
        (State::Menu, effects)
    }

    /// What the session needs next.
    pub fn awaits(&self) -> (need: Awaited)
        ensures
            need == awaited(self@),
    {
        match self {
            State::Menu => Awaited::Line,
            State::Describing => Awaited::Line,
            State::Selecting(_, _) => Awaited::Line,
            State::Loading(_) => Awaited::Tasks,
            State::Finished => Awaited::Nothing,
        }
    }
}

/// Takes one step at the time `now`.
pub fn advance(state: State, event: Event, now: String) -> (r: (State, Vec<Effect>))
    requires
        steppable(state@, event@),
    ensures
        (r.0@, effect_views(r.1@)) == transition(state@, event@, now@),
{
    match state {
        State::Menu => match event {
            Event::Line(line) => pick(line.as_str()),
            _ => idle(State::Menu),
        },
        State::Describing => match event {
            Event::Line(line) => idle(State::Loading(Pending::Create(line))),
            _ => idle(State::Describing),
        },
        State::Loading(pending) => match event {
            Event::Loaded(tasks) => resume(pending, tasks, now),
            Event::LoadFailed => {
                let tasks: Vec<Task> = Vec::new();
                assert(views(tasks@) =~= Seq::empty());
                resume(pending, tasks, now)
            },
            Event::Line(_) => idle(State::Loading(pending)),
        },
        State::Selecting(edit, tasks) => match event {
            Event::Line(line) => select(edit, tasks, line.as_str()),
            _ => idle(State::Selecting(edit, tasks)),
        },
        State::Finished => idle(State::Finished),
    }
}

/// A step without effects into `state`.
fn idle(state: State) -> (r: (State, Vec<Effect>))
    ensures
        r.0 == state,
        effect_views(r.1@) == Seq::<EffectView>::empty(),
{
    let effects: Vec<Effect> = Vec::new();
    assert(effect_views(effects@) =~= Seq::empty());
    (state, effects)
}

/// Takes one step now. The clock is read where the step creates a task. Returns `None`,
/// and does nothing, where the step cannot be taken.
pub fn step(state: State, event: Event) -> (r: Option<(State, Vec<Effect>)>)
    ensures
        r is Some <==> steppable(state@, event@),
        r matches Some(next) ==> exists|now: Seq<char>|
            {
                &&& (next.0@, effect_views(next.1@)) == #[trigger] transition(state@, event@, now)
                &&& creates(state@, event@) ==> now.len() > 0
            },
{
    let creating = match &state {
        State::Loading(Pending::Create(_)) => match &event {
            Event::Loaded(tasks) => {
                if tasks.len() >= u32::MAX as usize {
                    return None;
                }
                true
            },
            Event::LoadFailed => true,
            Event::Line(_) => false,
        },
        _ => false,
    };
    let now = if creating {
        local_timestamp()
    } else {
        String::new()
    };
    let next = advance(state, event, now);
    assert((next.0@, effect_views(next.1@)) == transition(state@, event@, now@));
    Some(next)
}

/// The time of a step matters only where the step creates a task.
pub proof fn lemma_time_matters_only_to_creation(
    state: StateView,
    event: EventView,
    now: Seq<char>,
    later: Seq<char>,
)
    requires
        !creates(state, event),
    ensures
        transition(state, event, now) == transition(state, event, later),
{
}

/// A step asks for a save in two cases and in no other: where it creates a task, and
/// where it has the tasks and reads the number of the one to change.
pub proof fn lemma_saves_only_after_a_change(state: StateView, event: EventView, now: Seq<char>)
    ensures
        !saves_nothing(transition(state, event, now).1) <==> creates(state, event) || edits(
            state,
            event,
        ),
{
    let effects = transition(state, event, now).1;
    if creates(state, event) || edits(state, event) {
        assert(effects[0] is Save);
    }
    if let StateView::Loading(PendingView::List) = state {
        assert(forall|i: int| 0 <= i < effects.len() ==> #[trigger] effects[i] is Print);
    }
}

/// A session ends in one way only: at the menu, by the choice of number 5. No failure
/// and no other input ends it, and a session that is over stays so.
pub proof fn lemma_only_exit_finishes(state: StateView, event: EventView, now: Seq<char>)
    ensures
        transition(state, event, now).0 is Finished <==> state is Finished || (state is Menu
            && match event {
            EventView::Line(line) => parsed_number(line) == Some(5u32),
            _ => false,
        }),
{
}

/// Every operation comes to its end, and none ends the session: a step that an
/// operation waits for brings it closer to the menu, whatever was typed and whether or
/// not the tasks could be read.
pub proof fn lemma_operations_return_to_the_menu(
    state: StateView,
    event: EventView,
    now: Seq<char>,
)
    requires
        steps_left(state) > 0,
        expected(state, event),
    ensures
        steps_left(transition(state, event, now).0) < steps_left(state),
        !(transition(state, event, now).0 is Finished),
{
}

/// A line that holds no number never leads to a save, whatever the state: not at the
/// menu, and not where the number of a task is asked for.
pub proof fn lemma_unreadable_number_saves_nothing(
    state: StateView,
    line: Seq<char>,
    now: Seq<char>,
)
    requires
        parsed_number(line) is None,
    ensures
        saves_nothing(transition(state, EventView::Line(line), now).1),
{
}

/// A failed load is taken for an empty list: the step is the one that the arrival of
/// no tasks would cause.
pub proof fn lemma_failed_load_is_empty_list(state: StateView, now: Seq<char>)
    ensures
        transition(state, EventView::LoadFailed, now) == transition(
            state,
            EventView::Loaded(Seq::empty()),
            now,
        ),
{
}

} // verus!
