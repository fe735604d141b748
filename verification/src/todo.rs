//! Tasks and the ordered collection that holds them.
//!
//! The collection is a `Vec<Todo>` in insertion order. Ids are meant to be
//! unique, but a collection read from a file that somebody edited may break
//! that, so every operation is defined for any collection: a lookup takes the
//! first task with the id, a deletion takes all of them.

use vstd::prelude::*;

verus! {

/// One to-do entry.
#[derive(Clone, Debug, PartialEq, Eq)]
pub struct Todo {
    pub id: u32,
    pub task: String,
    pub completed: bool,
}

/// What a [`Todo`] holds.
pub struct TodoView {
    pub id: nat,
    pub task: Seq<char>,
    pub completed: bool,
}

impl View for Todo {
    type V = TodoView;

    open spec fn view(&self) -> TodoView {
        TodoView { id: self.id as nat, task: self.task@, completed: self.completed }
    }
}

/// The tasks of a collection, in order.
pub open spec fn tasks_of(todos: Seq<Todo>) -> Seq<TodoView> {
    todos.map_values(|t: Todo| t@)
}

/// The largest id in `tasks`, or 0 where there is none.
pub open spec fn max_id(tasks: Seq<TodoView>) -> nat
    decreases tasks.len(),
{
    if tasks.len() == 0 {
        0
    } else {
        let rest = max_id(tasks.drop_last());
        if tasks.last().id > rest {
            tasks.last().id
        } else {
            rest
        }
    }
}

/// The id that the next added task gets: one more than the largest.
pub open spec fn next_id(tasks: Seq<TodoView>) -> nat {
    max_id(tasks) + 1
}

/// The least index of a task with the id `id`.
pub open spec fn position(tasks: Seq<TodoView>, id: nat) -> Option<int>
    decreases tasks.len(),
{
    if tasks.len() == 0 {
        None
    } else {
        match position(tasks.drop_last(), id) {
            Some(i) => Some(i),
            None => if tasks.last().id == id {
                Some(tasks.len() - 1)
            } else {
                None
            },
        }
    }
}

/// The task at `i` has the id `id`, and no task before it has.
pub open spec fn first_with_id(tasks: Seq<TodoView>, id: nat, i: int) -> bool {
    &&& 0 <= i < tasks.len()
    &&& tasks[i].id == id
    &&& forall|j: int| 0 <= j < i ==> (#[trigger] tasks[j]).id != id
}

/// Some task of `tasks` has the id `id`.
pub open spec fn has_id(tasks: Seq<TodoView>, id: nat) -> bool {
    exists|i: int| 0 <= i < tasks.len() && (#[trigger] tasks[i]).id == id
}

/// No two tasks share an id.
pub open spec fn unique_ids(tasks: Seq<TodoView>) -> bool {
    forall|i: int, j: int|
        0 <= i < j < tasks.len() ==> (#[trigger] tasks[i]).id != (#[trigger] tasks[j]).id
}

/// The test that a deletion of `id` keeps a task by.
pub open spec fn keeps(id: nat) -> spec_fn(TodoView) -> bool {
    |t: TodoView| t.id != id
}

/// `tasks` with a new, open task at the end.
pub open spec fn added(tasks: Seq<TodoView>, task: Seq<char>) -> Seq<TodoView> {
    tasks.push(TodoView { id: next_id(tasks), task, completed: false })
}

/// `tasks` with the description of the first task with the id `id`
/// replaced; unchanged where there is no such task.
pub open spec fn edited(tasks: Seq<TodoView>, id: nat, task: Seq<char>) -> Seq<TodoView> {
    match position(tasks, id) {
        Some(i) => tasks.update(i, TodoView { task, ..tasks[i] }),
        None => tasks,
    }
}

/// `tasks` with the first task with the id `id` marked as completed;
/// unchanged where there is no such task.
pub open spec fn finished(tasks: Seq<TodoView>, id: nat) -> Seq<TodoView> {
    match position(tasks, id) {
        Some(i) => tasks.update(i, TodoView { completed: true, ..tasks[i] }),
        None => tasks,
    }
}

/// `tasks` without the tasks that have the id `id`; the others stay, in
/// order.
pub open spec fn deleted(tasks: Seq<TodoView>, id: nat) -> Seq<TodoView> {
    tasks.filter(keeps(id))
}

/// No id of `tasks` is above `max_id(tasks)`.
pub proof fn max_id_bounds(tasks: Seq<TodoView>)
    ensures
        forall|i: int| 0 <= i < tasks.len() ==> (#[trigger] tasks[i]).id <= max_id(tasks),
    decreases tasks.len(),
{
    if tasks.len() > 0 {
        max_id_bounds(tasks.drop_last());
        assert forall|i: int| 0 <= i < tasks.len() implies (#[trigger] tasks[i]).id <= max_id(
            tasks,
        ) by {
            if i < tasks.len() - 1 {
                assert(tasks.drop_last()[i] == tasks[i]);
            }
        }
    }
}

/// What `position` finds: the first task with the id, or none where no task
/// has it.
pub proof fn position_is_first(tasks: Seq<TodoView>, id: nat)
    ensures
        match position(tasks, id) {
            Some(i) => first_with_id(tasks, id, i),
            None => !has_id(tasks, id),
        },
    decreases tasks.len(),
{
    if tasks.len() > 0 {
        let rest = tasks.drop_last();
        position_is_first(rest, id);
        match position(rest, id) {
            Some(i) => {
                assert(rest[i] == tasks[i]);
                assert forall|j: int| 0 <= j < i implies (#[trigger] tasks[j]).id != id by {
                    assert(rest[j] == tasks[j]);
                }
            },
            None => {
                assert forall|j: int| 0 <= j < tasks.len() - 1 implies (#[trigger] tasks[j]).id
                    != id by {
                    assert(rest[j] == tasks[j]);
                }
            },
        }
    }
}

/// A task found among the first `n` tasks is the first of all.
proof fn position_extends(tasks: Seq<TodoView>, id: nat, n: int)
    requires
        0 <= n <= tasks.len(),
        position(tasks.take(n), id) is Some,
    ensures
        position(tasks, id) == position(tasks.take(n), id),
    decreases tasks.len() - n,
{
    if n < tasks.len() {
        assert(tasks.take(n + 1).drop_last() =~= tasks.take(n));
        position_extends(tasks, id, n + 1);
    } else {
        assert(tasks.take(n) =~= tasks);
    }
}

/// The largest id among `todos`, or 0 where there is none.
pub fn largest_id(todos: &Vec<Todo>) -> (largest: u32)
    ensures
        largest == max_id(tasks_of(todos@)),
{
    let mut largest: u32 = 0;
    let mut i: usize = 0;
    while i < todos.len()
        invariant
            i <= todos.len(),
            largest == max_id(tasks_of(todos@).take(i as int)),
        decreases todos.len() - i,
    {
        proof {
            let tasks = tasks_of(todos@);
            assert(tasks.take(i + 1).drop_last() =~= tasks.take(i as int));
        }
        if todos[i].id > largest {
            largest = todos[i].id;
        }
        i += 1;
    }
    proof {
        assert(tasks_of(todos@).take(i as int) =~= tasks_of(todos@));
    }
    largest
}

/// The id that the next added task would get, or `None` where the largest
/// id is `u32::MAX` and no further id can be given.
pub fn next_task_id(todos: &Vec<Todo>) -> (id: Option<u32>)
    ensures
        match id {
            Some(n) => n == next_id(tasks_of(todos@)),
            None => next_id(tasks_of(todos@)) > u32::MAX,
        },
{
    largest_id(todos).checked_add(1)
}

/// The index of the first task with the id `id`, or `None` where no task
/// has it.
pub fn find_task(todos: &Vec<Todo>, id: u32) -> (found: Option<usize>)
    ensures
        found_at(found) == position(tasks_of(todos@), id as nat),
        match found {
            Some(i) => first_with_id(tasks_of(todos@), id as nat, i as int),
            None => !has_id(tasks_of(todos@), id as nat),
        },
{
    let ghost tasks = tasks_of(todos@);
    let mut i: usize = 0;
    while i < todos.len()
        invariant
            i <= todos.len(),
            tasks == tasks_of(todos@),
            position(tasks.take(i as int), id as nat) is None,
        decreases todos.len() - i,
    {
        proof {
            assert(tasks.take(i + 1).drop_last() =~= tasks.take(i as int));
        }
        if todos[i].id == id {
            proof {
                assert(position(tasks.take(i + 1), id as nat) == Some(i as int));
                position_extends(tasks, id as nat, i + 1);
                position_is_first(tasks, id as nat);
            }
            return Some(i);
        }
        i += 1;
    }
    proof {
        assert(tasks.take(i as int) =~= tasks);
        position_is_first(tasks, id as nat);
    }
    None
}

/// Appends a new task with the description `task`, not completed, and
/// returns its id: one more than the largest id in the collection, so 1 in an
/// empty one. The largest id has to be below `u32::MAX`; [`next_task_id`]
/// tells.
pub fn add_task(todos: &mut Vec<Todo>, task: String) -> (id: u32)
    requires
        next_id(tasks_of(old(todos)@)) <= u32::MAX,
    ensures
        id == next_id(tasks_of(old(todos)@)),
        tasks_of(final(todos)@) == added(tasks_of(old(todos)@), task@),
{
    let id = largest_id(todos) + 1;
    let ghost before = tasks_of(todos@);
    todos.push(Todo { id, task, completed: false });
    proof {
        assert(tasks_of(todos@) =~= added(before, task@));
    }
    id
}

/// The index that `position` gave, as a machine index.
pub open spec fn found_at(found: Option<usize>) -> Option<int> {
    match found {
        Some(i) => Some(i as int),
        None => None,
    }
}

/// Replaces the description of the first task with the id `id` and returns
/// the index of that task. Where no task has the id, nothing changes and
/// `None` is returned.
pub fn edit_task(todos: &mut Vec<Todo>, id: u32, new_task: String) -> (found: Option<usize>)
    ensures
        found_at(found) == position(tasks_of(old(todos)@), id as nat),
        match found {
            Some(i) => first_with_id(tasks_of(old(todos)@), id as nat, i as int),
            None => !has_id(tasks_of(old(todos)@), id as nat),
        },
        tasks_of(final(todos)@) == edited(tasks_of(old(todos)@), id as nat, new_task@),
{
    let ghost before = tasks_of(todos@);
    proof {
        position_is_first(before, id as nat);
    }
    let found = find_task(todos, id);
    match found {
        Some(i) => {
            todos[i].task = new_task;
            proof {
                assert(tasks_of(todos@) =~= edited(before, id as nat, new_task@));
            }
        },
        None => {},
    }
    found
}

/// Marks the first task with the id `id` as completed and returns the index
/// of that task. Where no task has the id, nothing changes and `None` is
/// returned.
pub fn complete_task(todos: &mut Vec<Todo>, id: u32) -> (found: Option<usize>)
    ensures
        found_at(found) == position(tasks_of(old(todos)@), id as nat),
        match found {
            Some(i) => first_with_id(tasks_of(old(todos)@), id as nat, i as int),
            None => !has_id(tasks_of(old(todos)@), id as nat),
        },
        tasks_of(final(todos)@) == finished(tasks_of(old(todos)@), id as nat),
{
    let ghost before = tasks_of(todos@);
    proof {
        position_is_first(before, id as nat);
    }
    let found = find_task(todos, id);
    match found {
        Some(i) => {
            todos[i].completed = true;
            proof {
                assert(tasks_of(todos@) =~= finished(before, id as nat));
            }
        },
        None => {},
    }
    found
}

/// Removes every task with the id `id` and keeps the others in order.
/// Returns whether the collection became shorter, which is whether there was
/// such a task.
pub fn delete_task(todos: &mut Vec<Todo>, id: u32) -> (removed: bool)
    ensures
        removed == has_id(tasks_of(old(todos)@), id as nat),
        removed == (final(todos).len() < old(todos).len()),
        tasks_of(final(todos)@) == deleted(tasks_of(old(todos)@), id as nat),
        !has_id(tasks_of(final(todos)@), id as nat),
{
    let ghost initial = tasks_of(todos@);
    let initial_len = todos.len();
    let ghost mut seen: int = 0;
    let mut i: usize = 0;
    proof {
        assert(initial.take(0).filter(keeps(id as nat)) =~= Seq::<TodoView>::empty()) by {
            reveal(Seq::filter);
        }
        assert(tasks_of(todos@).take(0) =~= Seq::<TodoView>::empty());
        assert(tasks_of(todos@).skip(0) =~= initial.skip(0));
    }
    while i < todos.len()
        invariant
            i <= todos.len(),
            i <= seen <= initial.len(),
            todos.len() - i == initial.len() - seen,
            tasks_of(todos@).take(i as int) == initial.take(seen).filter(keeps(id as nat)),
            tasks_of(todos@).skip(i as int) == initial.skip(seen),
        decreases todos.len() - i,
    {
        let ghost current = tasks_of(todos@);
        proof {
            assert(current[i as int] == current.skip(i as int)[0]);
            assert(initial[seen] == initial.skip(seen)[0]);
            assert(current.skip(i + 1) =~= initial.skip(seen + 1)) by {
                let ahead = current.skip(i + 1);
                assert forall|k: int| 0 <= k < ahead.len() implies #[trigger] ahead[k]
                    == initial.skip(seen + 1)[k] by {
                    assert(current.skip(i as int)[k + 1] == initial.skip(seen)[k + 1]);
                }
            }
            assert(initial.take(seen + 1) =~= initial.take(seen).push(initial[seen]));
            initial.take(seen).lemma_filter_push(initial[seen], keeps(id as nat));
        }
        if todos[i].id == id {
            todos.remove(i);
            proof {
                assert(tasks_of(todos@) =~= current.remove(i as int));
                assert(tasks_of(todos@).take(i as int) =~= current.take(i as int));
                assert(tasks_of(todos@).skip(i as int) =~= current.skip(i + 1));
                seen = seen + 1;
            }
        } else {
            proof {
                assert(current.take(i + 1) =~= current.take(i as int).push(current[i as int]));
                seen = seen + 1;
            }
            i += 1;
        }
    }
    proof {
        assert(tasks_of(todos@).take(i as int) =~= tasks_of(todos@));
        assert(initial.take(seen) =~= initial);
        deleted_length(initial, id as nat);
        deleted_has_none(initial, id as nat);
    }
    todos.len() < initial_len
}

/// After a deletion no task has the id.
pub proof fn deleted_has_none(tasks: Seq<TodoView>, id: nat)
    ensures
        !has_id(deleted(tasks, id), id),
{
    let left = deleted(tasks, id);
    if has_id(left, id) {
        let i = choose|i: int| 0 <= i < left.len() && (#[trigger] left[i]).id == id;
        tasks.lemma_filter_pred(keeps(id), i);
    }
}

/// A deletion makes the collection shorter exactly where some task has the
/// id.
pub proof fn deleted_length(tasks: Seq<TodoView>, id: nat)
    ensures
        deleted(tasks, id).len() <= tasks.len(),
        deleted(tasks, id).len() < tasks.len() <==> has_id(tasks, id),
    decreases tasks.len(),
{
    reveal(Seq::filter);
    if tasks.len() > 0 {
        let rest = tasks.drop_last();
        deleted_length(rest, id);
        if has_id(rest, id) {
            let i = choose|i: int| 0 <= i < rest.len() && (#[trigger] rest[i]).id == id;
            assert(tasks[i].id == id);
        }
        if has_id(tasks, id) && tasks.last().id != id {
            let i = choose|i: int| 0 <= i < tasks.len() && (#[trigger] tasks[i]).id == id;
            assert(rest[i].id == id);
        }
        if tasks.last().id == id {
            assert(tasks[tasks.len() - 1].id == id);
        }
    }
}

/// The collection after tasks with the descriptions `texts` were added to
/// `tasks`, one after another.
pub open spec fn added_all(tasks: Seq<TodoView>, texts: Seq<Seq<char>>) -> Seq<TodoView>
    decreases texts.len(),
{
    if texts.len() == 0 {
        tasks
    } else {
        added(added_all(tasks, texts.drop_last()), texts.last())
    }
}

/// Id assignment: where tasks are added to a collection that starts empty,
/// the k-th added task gets the id k, and holds its description, not
/// completed.
pub proof fn ids_count_up(texts: Seq<Seq<char>>)
    ensures
        added_all(Seq::empty(), texts).len() == texts.len(),
        max_id(added_all(Seq::empty(), texts)) == texts.len(),
        forall|k: int|
            0 <= k < texts.len() ==> #[trigger] added_all(Seq::empty(), texts)[k] == (TodoView {
                id: (k + 1) as nat,
                task: texts[k],
                completed: false,
            }),
    decreases texts.len(),
{
    if texts.len() > 0 {
        let earlier = added_all(Seq::empty(), texts.drop_last());
        let all = added_all(Seq::empty(), texts);
        ids_count_up(texts.drop_last());
        assert(all.drop_last() =~= earlier);
        assert forall|k: int| 0 <= k < texts.len() implies #[trigger] all[k] == (TodoView {
            id: (k + 1) as nat,
            task: texts[k],
            completed: false,
        }) by {
            if k < texts.len() - 1 {
                assert(all[k] == earlier[k]);
                assert(texts.drop_last()[k] == texts[k]);
            }
        }
    }
}

/// An added task gets an id that no task of the collection has.
pub proof fn added_id_is_fresh(tasks: Seq<TodoView>)
    ensures
        !has_id(tasks, next_id(tasks)),
{
    max_id_bounds(tasks);
}

/// Not found: an id that no task has leaves the collection as it is,
/// whether a task is to be edited, completed or deleted.
pub proof fn absent_id_changes_nothing(tasks: Seq<TodoView>, id: nat, task: Seq<char>)
    requires
        !has_id(tasks, id),
    ensures
        edited(tasks, id, task) == tasks,
        finished(tasks, id) == tasks,
        deleted(tasks, id) == tasks,
{
    position_is_first(tasks, id);
    deleted_keeps_others(tasks, id);
}

/// A deletion keeps every task up to the first with the id, and all tasks
/// where none has it.
proof fn deleted_keeps_others(tasks: Seq<TodoView>, id: nat)
    requires
        !has_id(tasks, id),
    ensures
        deleted(tasks, id) == tasks,
    decreases tasks.len(),
{
    reveal(Seq::filter);
    if tasks.len() > 0 {
        let rest = tasks.drop_last();
        assert forall|i: int| 0 <= i < rest.len() implies (#[trigger] rest[i]).id != id by {
            assert(tasks[i].id != id);
        }
        deleted_keeps_others(rest, id);
        assert(tasks[tasks.len() - 1].id != id);
        assert(rest.push(tasks.last()) =~= tasks);
    }
}

/// Delete: no task of the id is left, and the collection is shorter exactly
/// where there was one. Where ids are unique and a task has the id, that one
/// task leaves and the length goes down by exactly 1.
pub proof fn delete_removes_the_task(tasks: Seq<TodoView>, id: nat)
    ensures
        !has_id(deleted(tasks, id), id),
        deleted(tasks, id).len() < tasks.len() <==> has_id(tasks, id),
        unique_ids(tasks) && has_id(tasks, id) ==> {
            &&& position(tasks, id) is Some
            &&& deleted(tasks, id) == tasks.remove(position(tasks, id).unwrap())
            &&& deleted(tasks, id).len() == tasks.len() - 1
        },
{
    deleted_length(tasks, id);
    deleted_has_none(tasks, id);
    if unique_ids(tasks) && has_id(tasks, id) {
        deleted_is_removal(tasks, id);
        position_is_first(tasks, id);
    }
}

/// With unique ids, deleting an id that a task has is removing that task.
proof fn deleted_is_removal(tasks: Seq<TodoView>, id: nat)
    requires
        unique_ids(tasks),
        has_id(tasks, id),
    ensures
        position(tasks, id) is Some,
        deleted(tasks, id) == tasks.remove(position(tasks, id).unwrap()),
    decreases tasks.len(),
{
    reveal(Seq::filter);
    position_is_first(tasks, id);
    let rest = tasks.drop_last();
    let last = tasks.last();
    position_is_first(rest, id);
    assert forall|i: int, j: int| 0 <= i < j < rest.len() implies (#[trigger] rest[i]).id != (
    #[trigger] rest[j]).id by {
        assert(tasks[i].id != tasks[j].id);
    }
    if last.id == id {
        assert forall|i: int| 0 <= i < rest.len() implies (#[trigger] rest[i]).id != id by {
            assert(tasks[i].id != tasks[tasks.len() - 1].id);
        }
        deleted_keeps_others(rest, id);
        assert(tasks.remove(tasks.len() - 1) =~= rest);
    } else {
        let w = choose|i: int| 0 <= i < tasks.len() && (#[trigger] tasks[i]).id == id;
        assert(rest[w].id == id);
        deleted_is_removal(rest, id);
        let at = position(rest, id).unwrap();
        assert(rest.remove(at).push(last) =~= tasks.remove(at));
    }
}

/// The uniqueness of ids: where no two tasks share an id, none do after a
/// task was added, edited, completed or deleted.
pub proof fn unique_ids_are_kept(tasks: Seq<TodoView>, id: nat, task: Seq<char>)
    requires
        unique_ids(tasks),
    ensures
        unique_ids(added(tasks, task)),
        unique_ids(edited(tasks, id, task)),
        unique_ids(finished(tasks, id)),
        unique_ids(deleted(tasks, id)),
{
    max_id_bounds(tasks);
    position_is_first(tasks, id);
    deleted_keeps_order(tasks, id);
    let left = deleted(tasks, id);
    let from = choose|from: Seq<int>| picks(tasks, left, from);
    assert forall|i: int, j: int| 0 <= i < j < left.len() implies (#[trigger] left[i]).id != (
    #[trigger] left[j]).id by {
        assert(tasks[from[i]].id != tasks[from[j]].id);
    }
}

/// `from` tells for each task of `part` where in `whole` it stands, with
/// the order kept.
spec fn picks(whole: Seq<TodoView>, part: Seq<TodoView>, from: Seq<int>) -> bool {
    &&& from.len() == part.len()
    &&& forall|i: int|
        0 <= i < part.len() ==> 0 <= #[trigger] from[i] < whole.len() && part[i] == whole[from[i]]
    &&& forall|i: int, j: int| 0 <= i < j < part.len() ==> #[trigger] from[i] < #[trigger] from[j]
}

/// What a deletion leaves stands in the collection, in the same order.
proof fn deleted_keeps_order(tasks: Seq<TodoView>, id: nat)
    ensures
        exists|from: Seq<int>| picks(tasks, deleted(tasks, id), from),
    decreases tasks.len(),
{
    reveal(Seq::filter);
    if tasks.len() == 0 {
        assert(picks(tasks, deleted(tasks, id), Seq::<int>::empty()));
    } else {
        let rest = tasks.drop_last();
        deleted_keeps_order(rest, id);
        let from = choose|from: Seq<int>| picks(rest, deleted(rest, id), from);
        if tasks.last().id != id {
            let longer = from.push(tasks.len() - 1);
            assert(picks(tasks, deleted(tasks, id), longer));
        } else {
            assert(picks(tasks, deleted(tasks, id), from));
        }
    }
}

} // verus!
