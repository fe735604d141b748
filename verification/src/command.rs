//! The five commands, and what each one does to the collection.

use crate::report::{Report, ReportView};
use crate::todo::{
    add_task, added, complete_task, delete_task, deleted, edit_task, edited, finished, has_id,
    next_id, position, position_is_first, tasks_of, unique_ids, unique_ids_are_kept,
    absent_id_changes_nothing, Todo, TodoView,
};
use vstd::prelude::*;

verus! {

/// One command of the user.
#[derive(Clone, Debug, PartialEq, Eq)]
pub enum Command {
    /// Add a task with this description.
    Add { task: String },
    /// List all tasks.
    List,
    /// Give the task with this id a new description.
    Edit { id: u32, new_task: String },
    /// Mark the task with this id as completed.
    Complete { id: u32 },
    /// Remove the task with this id.
    Delete { id: u32 },
}

/// What a [`Command`] holds.
pub enum CommandView {
    Add { task: Seq<char> },
    List,
    Edit { id: nat, new_task: Seq<char> },
    Complete { id: nat },
    Delete { id: nat },
}

impl View for Command {
    type V = CommandView;

    open spec fn view(&self) -> CommandView {
        match self {
            Command::Add { task } => CommandView::Add { task: task@ },
            Command::List => CommandView::List,
            Command::Edit { id, new_task } => CommandView::Edit {
                id: *id as nat,
                new_task: new_task@,
            },
            Command::Complete { id } => CommandView::Complete { id: *id as nat },
            Command::Delete { id } => CommandView::Delete { id: *id as nat },
        }
    }
}

/// What came of a command: what to tell the user, and whether the collection
/// is to be written back to storage.
#[derive(Clone, Debug, PartialEq, Eq)]
pub struct Outcome {
    pub report: Report,
    pub persist: bool,
}

/// The collection after `command`.
pub open spec fn applied(tasks: Seq<TodoView>, command: CommandView) -> Seq<TodoView> {
    match command {
        CommandView::Add { task } => added(tasks, task),
        CommandView::List => tasks,
        CommandView::Edit { id, new_task } => edited(tasks, id, new_task),
        CommandView::Complete { id } => finished(tasks, id),
        CommandView::Delete { id } => deleted(tasks, id),
    }
}

/// What `command` reports of the collection `tasks`.
pub open spec fn reported(tasks: Seq<TodoView>, command: CommandView) -> ReportView {
    match command {
        CommandView::Add { task } => ReportView::Added { id: next_id(tasks), task },
        CommandView::List => if tasks.len() == 0 {
            ReportView::NoTasks
        } else {
            ReportView::Listing { tasks }
        },
        CommandView::Edit { id, new_task } => match position(tasks, id) {
            Some(_) => ReportView::Edited { id, task: new_task },
            None => ReportView::NotFound { id },
        },
        CommandView::Complete { id } => match position(tasks, id) {
            Some(i) => ReportView::Completed { id, task: tasks[i].task },
            None => ReportView::NotFound { id },
        },
        CommandView::Delete { id } => match position(tasks, id) {
            Some(_) => ReportView::Deleted { id },
            None => ReportView::NotFound { id },
        },
    }
}

/// Whether the collection is written back after `command`: after every
/// command but the listing.
pub open spec fn persists(command: CommandView) -> bool {
    !(command is List)
}

/// Whether `command` can be applied to `tasks`: an addition needs an id
/// that fits.
pub open spec fn applicable(tasks: Seq<TodoView>, command: CommandView) -> bool {
    command is Add ==> next_id(tasks) <= u32::MAX
}

/// A copy of `todo`.
fn copy_of(todo: &Todo) -> (copy: Todo)
    ensures
        copy@ == todo@,
{
    Todo { id: todo.id, task: todo.task.clone(), completed: todo.completed }
}

/// A copy of the collection.
fn copies_of(todos: &Vec<Todo>) -> (copies: Vec<Todo>)
    ensures
        tasks_of(copies@) == tasks_of(todos@),
{
    let mut copies: Vec<Todo> = Vec::new();
    let mut i: usize = 0;
    while i < todos.len()
        invariant
            i <= todos.len(),
            copies.len() == i,
            forall|j: int| 0 <= j < i ==> (#[trigger] copies[j])@ == todos[j]@,
        decreases todos.len() - i,
    {
        copies.push(copy_of(&todos[i]));
        i += 1;
    }
    proof {
        assert(tasks_of(copies@) =~= tasks_of(todos@));
    }
    copies
}

/// Whether `command` can be applied to `todos`. Only an addition can fail
/// to: it does where the largest id is `u32::MAX`.
pub fn can_apply(todos: &Vec<Todo>, command: &Command) -> (possible: bool)
    ensures
        possible == applicable(tasks_of(todos@), command@),
{
    match command {
        Command::Add { .. } => crate::todo::next_task_id(todos).is_some(),
        _ => true,
    }
}

/// Applies one command to the collection and says what came of it.
///
/// An id that no task has is reported and changes nothing. The outcome asks
/// for the collection to be written back after every command but the listing,
/// also where nothing changed.
pub fn apply(todos: &mut Vec<Todo>, command: Command) -> (outcome: Outcome)
    requires
        applicable(tasks_of(old(todos)@), command@),
    ensures
        tasks_of(final(todos)@) == applied(tasks_of(old(todos)@), command@),
        outcome.report@ == reported(tasks_of(old(todos)@), command@),
        outcome.persist == persists(command@),
{
    let ghost before = tasks_of(todos@);
    match command {
        Command::Add { task } => {
            let id = add_task(todos, task.clone());
            Outcome { report: Report::Added { id, task }, persist: true }
        },
        Command::List => {
            let report = if todos.len() == 0 {
                Report::NoTasks
            } else {
                Report::Listing { tasks: copies_of(todos) }
            };
            Outcome { report, persist: false }
        },
        Command::Edit { id, new_task } => {
            let report = match edit_task(todos, id, new_task.clone()) {
                Some(_) => Report::Edited { id, task: new_task },
                None => Report::NotFound { id },
            };
            Outcome { report, persist: true }
        },
        Command::Complete { id } => {
            proof {
                position_is_first(before, id as nat);
            }
            let report = match complete_task(todos, id) {
                Some(i) => {
                    proof {
                        assert(tasks_of(todos@).len() == before.len());
                        assert(tasks_of(todos@)[i as int] == todos[i as int]@);
                    }
                    Report::Completed { id, task: todos[i].task.clone() }
                },
                None => Report::NotFound { id },
            };
            Outcome { report, persist: true }
        },
        Command::Delete { id } => {
            proof {
                position_is_first(before, id as nat);
            }
            let report = if delete_task(todos, id) {
                Report::Deleted { id }
            } else {
                Report::NotFound { id }
            };
            Outcome { report, persist: true }
        },
    }
}

/// The listing is read-only: it leaves the collection as it is and asks for
/// nothing to be written back, so the stored file stays as it was.
pub proof fn list_changes_nothing(tasks: Seq<TodoView>)
    ensures
        applied(tasks, CommandView::List) == tasks,
        !persists(CommandView::List),
{
}

/// Not found: a command that names an id that no task has leaves the
/// collection as it is and reports the id as not found. The collection is
/// still written back.
pub proof fn missing_id_is_reported(tasks: Seq<TodoView>, command: CommandView)
    requires
        match command {
            CommandView::Edit { id, .. } => !has_id(tasks, id),
            CommandView::Complete { id } => !has_id(tasks, id),
            CommandView::Delete { id } => !has_id(tasks, id),
            _ => false,
        },
    ensures
        applied(tasks, command) == tasks,
        reported(tasks, command) is NotFound,
        persists(command),
{
    match command {
        CommandView::Edit { id, new_task } => {
            position_is_first(tasks, id);
            absent_id_changes_nothing(tasks, id, new_task);
        },
        CommandView::Complete { id } => {
            position_is_first(tasks, id);
            absent_id_changes_nothing(tasks, id, Seq::empty());
        },
        CommandView::Delete { id } => {
            position_is_first(tasks, id);
            absent_id_changes_nothing(tasks, id, Seq::empty());
        },
        _ => {},
    }
}

/// A command reports an id as not found exactly where no task has it.
pub proof fn not_found_means_absent(tasks: Seq<TodoView>, command: CommandView)
    ensures
        reported(tasks, command) matches ReportView::NotFound { id } ==> !has_id(tasks, id),
{
    match command {
        CommandView::Edit { id, .. } => position_is_first(tasks, id),
        CommandView::Complete { id } => position_is_first(tasks, id),
        CommandView::Delete { id } => position_is_first(tasks, id),
        _ => {},
    }
}

/// The invariant of the collection: where no two tasks share an id before a
/// command, none do after it.
pub proof fn commands_keep_ids_unique(tasks: Seq<TodoView>, command: CommandView)
    requires
        unique_ids(tasks),
    ensures
        unique_ids(applied(tasks, command)),
{
    match command {
        CommandView::Add { task } => unique_ids_are_kept(tasks, 0, task),
        CommandView::List => {},
        CommandView::Edit { id, new_task } => unique_ids_are_kept(tasks, id, new_task),
        CommandView::Complete { id } => unique_ids_are_kept(tasks, id, Seq::empty()),
        CommandView::Delete { id } => unique_ids_are_kept(tasks, id, Seq::empty()),
    }
}

} // verus!
