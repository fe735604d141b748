//! The storage format: a JSON array of objects, one per task, each with a
//! whole number `id`, a string `task` and a boolean `completed`.

use crate::json::{
    array_value, bool_value, distinct_names, first_named, json_of, jsons_of, member_of,
    members_of, number_value, object_value, text_value, Json, JsonNumber,
};
use crate::report::{decimal, decimal_text};
use crate::todo::{tasks_of, Todo, TodoView};
use vstd::prelude::*;
use vstd::string::StringExecFns;

verus! {

/// Why a JSON value is not a list of tasks.
#[derive(Clone, Copy, Debug, PartialEq, Eq)]
pub enum DecodeError {
    /// The value is not an array.
    NotAList,
    /// The item at `index` is the first that is not a task.
    BadEntry { index: usize },
}

/// What is wrong with the value, in words.
pub open spec fn decode_error_text(e: DecodeError) -> Seq<char> {
    match e {
        DecodeError::NotAList => "expected a list of to-dos"@,
        DecodeError::BadEntry { index } => "entry "@ + decimal(index as nat) + " is not a to-do"@,
    }
}

impl DecodeError {
    /// Says in words what is wrong with the value.
    pub fn describe(&self) -> (text: String)
        ensures
            text@ == decode_error_text(*self),
    {
        match self {
            DecodeError::NotAList => String::from_str("expected a list of to-dos"),
            DecodeError::BadEntry { index } => {
                let mut text = String::from_str("entry ");
                let digits = decimal_text(*index as u64);
                text.append(digits.as_str());
                text.append(" is not a to-do");
                text
            },
        }
    }
}

/// The object that stands for `task`: its members are `id`, `task` and
/// `completed`, in this order.
pub open spec fn entry_json(task: TodoView) -> Json {
    Json::Object(
        seq![
            ("id"@, Json::Number(JsonNumber::Unsigned(task.id as u64))),
            ("task"@, Json::Text(task.task)),
            ("completed"@, Json::Bool(task.completed)),
        ],
    )
}

/// The array that stands for `tasks`, entry by entry.
pub open spec fn list_json(tasks: Seq<TodoView>) -> Json {
    Json::Array(tasks.map_values(|t: TodoView| entry_json(t)))
}

/// The task that `json` stands for: an object whose member `id` is a whole
/// number from 0 to `u32::MAX`, whose member `task` is a string and whose
/// member `completed` is a boolean. Other members are passed over.
pub open spec fn entry_task(json: Json) -> Option<TodoView> {
    match (json.member("id"@), json.member("task"@), json.member("completed"@)) {
        (
            Some(Json::Number(JsonNumber::Unsigned(n))),
            Some(Json::Text(task)),
            Some(Json::Bool(completed)),
        ) => if n <= u32::MAX {
            Some(TodoView { id: n as nat, task, completed })
        } else {
            None
        },
        _ => None,
    }
}

/// The least index in `items` whose item is not a task.
pub open spec fn first_bad(items: Seq<Json>) -> Option<int>
    decreases items.len(),
{
    if items.len() == 0 {
        None
    } else {
        match first_bad(items.drop_last()) {
            Some(i) => Some(i),
            None => if entry_task(items.last()) is None {
                Some(items.len() - 1)
            } else {
                None
            },
        }
    }
}

/// The tasks that `json` stands for, or why it stands for none.
pub open spec fn decoded(json: Json) -> Result<Seq<TodoView>, DecodeError> {
    match json {
        Json::Array(items) => match first_bad(items) {
            Some(i) => Err(DecodeError::BadEntry { index: i as usize }),
            None => Ok(items.map_values(|item: Json| entry_task(item).unwrap())),
        },
        _ => Err(DecodeError::NotAList),
    }
}

/// The outcome of decoding, with the tasks by what they hold.
pub open spec fn decoding_of(outcome: Result<Vec<Todo>, DecodeError>) -> Result<
    Seq<TodoView>,
    DecodeError,
> {
    match outcome {
        Ok(todos) => Ok(tasks_of(todos@)),
        Err(e) => Err(e),
    }
}

proof fn names_differ()
    ensures
        "id"@ != "task"@,
        "id"@ != "completed"@,
        "task"@ != "completed"@,
{
    reveal_strlit("id");
    reveal_strlit("task");
    reveal_strlit("completed");
    assert("id"@.len() == 2);
    assert("task"@.len() == 4);
    assert("completed"@.len() == 9);
}

/// Builds the JSON object that stands for `todo`.
pub fn encode_entry(todo: &Todo) -> (value: serde_json::Value)
    ensures
        json_of(value) == entry_json(todo@),
{
    let mut members: Vec<(String, serde_json::Value)> = Vec::new();
    members.push(("id".to_owned(), number_value(todo.id as u64)));
    members.push(("task".to_owned(), text_value(todo.task.clone())));
    members.push(("completed".to_owned(), bool_value(todo.completed)));
    proof {
        names_differ();
        assert(distinct_names(members@));
        assert(members_of(members@) =~= seq![
            ("id"@, Json::Number(JsonNumber::Unsigned(todo@.id as u64))),
            ("task"@, Json::Text(todo@.task)),
            ("completed"@, Json::Bool(todo@.completed)),
        ]);
    }
    object_value(members)
}

/// Builds the JSON array that stands for `todos`.
pub fn encode(todos: &Vec<Todo>) -> (value: serde_json::Value)
    ensures
        json_of(value) == list_json(tasks_of(todos@)),
{
    let mut items: Vec<serde_json::Value> = Vec::new();
    let mut i: usize = 0;
    while i < todos.len()
        invariant
            i <= todos.len(),
            items.len() == i,
            forall|j: int| 0 <= j < i ==> json_of(#[trigger] items[j]) == entry_json(todos[j]@),
        decreases todos.len() - i,
    {
        let entry = encode_entry(&todos[i]);
        items.push(entry);
        i += 1;
    }
    proof {
        assert(jsons_of(items@) =~= tasks_of(todos@).map_values(|t: TodoView| entry_json(t)));
    }
    array_value(items)
}

/// Reads one task out of `value`, or `None` where it holds no task.
pub fn decode_entry(value: &serde_json::Value) -> (task: Option<Todo>)
    ensures
        match task {
            Some(todo) => entry_task(json_of(*value)) == Some(todo@),
            None => entry_task(json_of(*value)) is None,
        },
{
    let id = match member_of(value, "id") {
        Some(member) => match member.as_u64() {
            Some(n) => n,
            None => { return None; },
        },
        None => { return None; },
    };
    let task = match member_of(value, "task") {
        Some(member) => match member.as_str() {
            Some(text) => text,
            None => { return None; },
        },
        None => { return None; },
    };
    let completed = match member_of(value, "completed") {
        Some(member) => match member.as_bool() {
            Some(flag) => flag,
            None => { return None; },
        },
        None => { return None; },
    };
    if id > u32::MAX as u64 {
        return None;
    }
    Some(Todo { id: id as u32, task: task.to_owned(), completed })
}

/// Reads the list of tasks out of `value`. Every item of the array has to be
/// a task; the first that is not is reported by its index.
pub fn decode(value: &serde_json::Value) -> (outcome: Result<Vec<Todo>, DecodeError>)
    ensures
        decoding_of(outcome) == decoded(json_of(*value)),
{
    let items = match value.as_array() {
        Some(items) => items,
        None => { return Err(DecodeError::NotAList); },
    };
    let ghost jsons = jsons_of(items@);
    let mut todos: Vec<Todo> = Vec::new();
    let mut i: usize = 0;
    while i < items.len()
        invariant
            i <= items.len(),
            jsons == jsons_of(items@),
            json_of(*value) == Json::Array(jsons),
            first_bad(jsons.take(i as int)) is None,
            todos.len() == i,
            forall|j: int| 0 <= j < i ==> entry_task(jsons[j]) == Some(#[trigger] todos[j]@),
        decreases items.len() - i,
    {
        proof {
            assert(jsons.take(i + 1).drop_last() =~= jsons.take(i as int));
            assert(jsons.take(i + 1).last() == json_of(items[i as int]));
        }
        match decode_entry(&items[i]) {
            Some(todo) => {
                todos.push(todo);
            },
            None => {
                proof {
                    assert(first_bad(jsons.take(i + 1)) == Some(i as int));
                    first_bad_extends(jsons, i + 1);
                }
                return Err(DecodeError::BadEntry { index: i });
            },
        }
        i += 1;
    }
    proof {
        assert(jsons.take(i as int) =~= jsons);
        assert(tasks_of(todos@) =~= jsons.map_values(|item: Json| entry_task(item).unwrap()));
    }
    Ok(todos)
}

/// A bad item found among the first `n` items is the first bad item of all.
proof fn first_bad_extends(items: Seq<Json>, n: int)
    requires
        0 <= n <= items.len(),
        first_bad(items.take(n)) is Some,
    ensures
        first_bad(items) == first_bad(items.take(n)),
    decreases items.len() - n,
{
    if n < items.len() {
        assert(items.take(n + 1).drop_last() =~= items.take(n));
        first_bad_extends(items, n + 1);
    } else {
        assert(items.take(n) =~= items);
    }
}

/// Every id of `tasks` fits the `u32` that a [`Todo`] keeps it in.
pub open spec fn storable(tasks: Seq<TodoView>) -> bool {
    forall|i: int| 0 <= i < tasks.len() ==> (#[trigger] tasks[i]).id <= u32::MAX
}

/// The object that encodes a task decodes to that task.
pub proof fn entry_round_trip(task: TodoView)
    requires
        task.id <= u32::MAX,
    ensures
        entry_task(entry_json(task)) == Some(task),
{
    names_differ();
    let members = seq![
        ("id"@, Json::Number(JsonNumber::Unsigned(task.id as u64))),
        ("task"@, Json::Text(task.task)),
        ("completed"@, Json::Bool(task.completed)),
    ];
    let rest = members.drop_first();
    assert(rest[0] == members[1]);
    assert(rest.drop_first()[0] == members[2]);
    assert(first_named(members, "id"@) == Some(members[0].1));
    assert(first_named(rest, "task"@) == Some(members[1].1));
    assert(first_named(rest.drop_first(), "completed"@) == Some(members[2].1));
    assert(first_named(rest, "completed"@) == Some(members[2].1));
}

/// Round trip of the storage format: decoding the array that encodes a list
/// of tasks gives the same tasks back, in the same order.
pub proof fn decode_inverts_encode(tasks: Seq<TodoView>)
    requires
        storable(tasks),
    ensures
        decoded(list_json(tasks)) == Ok::<Seq<TodoView>, DecodeError>(tasks),
{
    let items = tasks.map_values(|t: TodoView| entry_json(t));
    assert forall|i: int| 0 <= i < items.len() implies entry_task(#[trigger] items[i]) == Some(
        tasks[i],
    ) by {
        entry_round_trip(tasks[i]);
    }
    no_bad_entry(items);
    assert(items.map_values(|item: Json| entry_task(item).unwrap()) =~= tasks);
}

/// Where every item is a task, none is the first bad one.
proof fn no_bad_entry(items: Seq<Json>)
    requires
        forall|i: int| 0 <= i < items.len() ==> entry_task(#[trigger] items[i]) is Some,
    ensures
        first_bad(items) is None,
    decreases items.len(),
{
    if items.len() > 0 {
        no_bad_entry(items.drop_last());
    }
}

} // verus!
