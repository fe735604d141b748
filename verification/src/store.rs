//! Loading the collection from what a read of the storage file gave, and
//! writing it out as the text to put there. The file itself is the caller's
//! business: this module decides what a read means and what is to be written.

use crate::codec::{
    decode, decode_error_text, decoded, encode, entry_json, list_json, DecodeError,
};
use crate::json::{json_parse, json_pretty, parse_value, pretty_text, Json};
use crate::command::{applied, persists, reported, CommandView};
use crate::todo::{absent_id_changes_nothing, has_id, tasks_of, Todo, TodoView};
use vstd::prelude::*;

verus! {

/// What an attempt to read the storage file gave.
#[derive(Clone, Debug, PartialEq, Eq)]
pub enum FileRead {
    /// There is no file at the path.
    Missing,
    /// The file is there but could not be opened, with the reason.
    OpenFailed(String),
    /// The file was opened but could not be read, with the reason.
    ReadFailed(String),
    /// The whole text of the file.
    Contents(String),
}

/// What a [`FileRead`] holds.
pub enum FileReadView {
    Missing,
    OpenFailed(Seq<char>),
    ReadFailed(Seq<char>),
    Contents(Seq<char>),
}

impl View for FileRead {
    type V = FileReadView;

    open spec fn view(&self) -> FileReadView {
        match self {
            FileRead::Missing => FileReadView::Missing,
            FileRead::OpenFailed(reason) => FileReadView::OpenFailed(reason@),
            FileRead::ReadFailed(reason) => FileReadView::ReadFailed(reason@),
            FileRead::Contents(text) => FileReadView::Contents(text@),
        }
    }
}

/// Why the collection could not be loaded.
#[derive(Clone, Debug, PartialEq, Eq)]
pub enum LoadError {
    /// The file could not be opened, for another reason than its absence.
    Open(String),
    /// The file could not be read.
    Read(String),
    /// The text is not JSON, with the parser's message.
    Syntax(String),
    /// The text is JSON but no list of tasks.
    Shape(DecodeError),
}

/// What a [`LoadError`] holds.
pub enum LoadErrorView {
    Open(Seq<char>),
    Read(Seq<char>),
    Syntax(Seq<char>),
    Shape(DecodeError),
}

impl View for LoadError {
    type V = LoadErrorView;

    open spec fn view(&self) -> LoadErrorView {
        match self {
            LoadError::Open(reason) => LoadErrorView::Open(reason@),
            LoadError::Read(reason) => LoadErrorView::Read(reason@),
            LoadError::Syntax(message) => LoadErrorView::Syntax(message@),
            LoadError::Shape(e) => LoadErrorView::Shape(*e),
        }
    }
}

/// Why the collection could not be saved.
#[derive(Clone, Debug, PartialEq, Eq)]
pub enum SaveError {
    /// The file could not be opened or created for writing.
    Open(String),
    /// The collection could not be written as JSON, with the message.
    Serialize(String),
    /// The text could not be written to the file.
    Write(String),
}

/// What a [`SaveError`] holds.
pub enum SaveErrorView {
    Open(Seq<char>),
    Serialize(Seq<char>),
    Write(Seq<char>),
}

impl View for SaveError {
    type V = SaveErrorView;

    open spec fn view(&self) -> SaveErrorView {
        match self {
            SaveError::Open(reason) => SaveErrorView::Open(reason@),
            SaveError::Serialize(message) => SaveErrorView::Serialize(message@),
            SaveError::Write(reason) => SaveErrorView::Write(reason@),
        }
    }
}

/// The step of loading that failed, in words.
pub open spec fn load_context(e: LoadErrorView) -> Seq<char> {
    match e {
        LoadErrorView::Open(_) => "Failed to open todo file"@,
        LoadErrorView::Read(_) => "Failed to read from todo file"@,
        LoadErrorView::Syntax(_) => "Failed to parse todo file JSON"@,
        LoadErrorView::Shape(_) => "Failed to parse todo file JSON"@,
    }
}

/// The cause of a failure to load, in words.
pub open spec fn load_detail(e: LoadErrorView) -> Seq<char> {
    match e {
        LoadErrorView::Open(reason) => reason,
        LoadErrorView::Read(reason) => reason,
        LoadErrorView::Syntax(message) => message,
        LoadErrorView::Shape(e) => decode_error_text(e),
    }
}

/// The step of saving that failed, in words.
pub open spec fn save_context(e: SaveErrorView) -> Seq<char> {
    match e {
        SaveErrorView::Open(_) => "Failed to open or create todo file for writing"@,
        SaveErrorView::Serialize(_) => "Failed to serialize todos to JSON"@,
        SaveErrorView::Write(_) => "Failed to write to todo file"@,
    }
}

/// The cause of a failure to save, in words.
pub open spec fn save_detail(e: SaveErrorView) -> Seq<char> {
    match e {
        SaveErrorView::Open(reason) => reason,
        SaveErrorView::Serialize(message) => message,
        SaveErrorView::Write(reason) => reason,
    }
}

impl LoadError {
    /// Names the step that failed: opening, reading or parsing.
    pub fn context(&self) -> (text: &'static str)
        ensures
            text@ == load_context(self@),
    {
        match self {
            LoadError::Open(_) => "Failed to open todo file",
            LoadError::Read(_) => "Failed to read from todo file",
            LoadError::Syntax(_) => "Failed to parse todo file JSON",
            LoadError::Shape(_) => "Failed to parse todo file JSON",
        }
    }

    /// Says what caused the failure.
    pub fn detail(&self) -> (text: String)
        ensures
            text@ == load_detail(self@),
    {
        match self {
            LoadError::Open(reason) => reason.clone(),
            LoadError::Read(reason) => reason.clone(),
            LoadError::Syntax(message) => message.clone(),
            LoadError::Shape(e) => e.describe(),
        }
    }
}

impl SaveError {
    /// Names the step that failed: opening, serializing or writing.
    pub fn context(&self) -> (text: &'static str)
        ensures
            text@ == save_context(self@),
    {
        match self {
            SaveError::Open(_) => "Failed to open or create todo file for writing",
            SaveError::Serialize(_) => "Failed to serialize todos to JSON",
            SaveError::Write(_) => "Failed to write to todo file",
        }
    }

    /// Says what caused the failure.
    pub fn detail(&self) -> (text: String)
        ensures
            text@ == save_detail(self@),
    {
        match self {
            SaveError::Open(reason) => reason.clone(),
            SaveError::Serialize(message) => message.clone(),
            SaveError::Write(reason) => reason.clone(),
        }
    }
}

/// The collection that `text` holds. A text without characters holds the
/// empty collection; any other text has to be JSON and a list of tasks.
pub open spec fn parsed(text: Seq<char>) -> Result<Seq<TodoView>, LoadErrorView> {
    if text.len() == 0 {
        Ok(Seq::empty())
    } else {
        match json_parse(text) {
            Err(message) => Err(LoadErrorView::Syntax(message)),
            Ok(json) => match decoded(json) {
                Ok(tasks) => Ok(tasks),
                Err(e) => Err(LoadErrorView::Shape(e)),
            },
        }
    }
}

/// The collection that a read of the storage file stands for. A missing
/// file stands for the empty collection.
pub open spec fn loaded(read: FileReadView) -> Result<Seq<TodoView>, LoadErrorView> {
    match read {
        FileReadView::Missing => Ok(Seq::empty()),
        FileReadView::OpenFailed(reason) => Err(LoadErrorView::Open(reason)),
        FileReadView::ReadFailed(reason) => Err(LoadErrorView::Read(reason)),
        FileReadView::Contents(text) => parsed(text),
    }
}

/// The text that stands for `tasks`, or the message of the serializer.
pub open spec fn saved(tasks: Seq<TodoView>) -> Result<Seq<char>, SaveErrorView> {
    match json_pretty(list_json(tasks)) {
        Ok(text) => Ok(text),
        Err(message) => Err(SaveErrorView::Serialize(message)),
    }
}

/// The outcome of loading, by what it holds.
pub open spec fn loading_of(outcome: Result<Vec<Todo>, LoadError>) -> Result<
    Seq<TodoView>,
    LoadErrorView,
> {
    match outcome {
        Ok(todos) => Ok(tasks_of(todos@)),
        Err(e) => Err(e@),
    }
}

/// The outcome of saving, by what it holds.
pub open spec fn saving_of(outcome: Result<String, SaveError>) -> Result<
    Seq<char>,
    SaveErrorView,
> {
    match outcome {
        Ok(text) => Ok(text@),
        Err(e) => Err(e@),
    }
}

/// The empty collection.
fn no_todos() -> (todos: Vec<Todo>)
    ensures
        tasks_of(todos@) == Seq::<TodoView>::empty(),
{
    let todos = Vec::new();
    assert(tasks_of(todos@) =~= Seq::<TodoView>::empty());
    todos
}

/// Reads the collection out of the text of the storage file.
pub fn parse_todos(text: &str) -> (outcome: Result<Vec<Todo>, LoadError>)
    ensures
        loading_of(outcome) == parsed(text@),
{
    if text.is_empty() {
        return Ok(no_todos());
    }
    match parse_value(text) {
        Err(message) => Err(LoadError::Syntax(message)),
        Ok(value) => match decode(&value) {
            Ok(todos) => Ok(todos),
            Err(e) => Err(LoadError::Shape(e)),
        },
    }
}

/// Loads the collection from what a read of the storage file gave.
pub fn load_todos(read: FileRead) -> (outcome: Result<Vec<Todo>, LoadError>)
    ensures
        loading_of(outcome) == loaded(read@),
{
    match read {
        FileRead::Missing => Ok(no_todos()),
        FileRead::OpenFailed(reason) => Err(LoadError::Open(reason)),
        FileRead::ReadFailed(reason) => Err(LoadError::Read(reason)),
        FileRead::Contents(text) => parse_todos(text.as_str()),
    }
}

/// Writes the collection as the text to put into the storage file:
/// pretty-printed JSON. The empty collection is written as `[]`.
pub fn save_todos(todos: &Vec<Todo>) -> (outcome: Result<String, SaveError>)
    ensures
        saving_of(outcome) == saved(tasks_of(todos@)),
        todos.len() == 0 ==> (saving_of(outcome) == Ok::<Seq<char>, SaveErrorView>("[]"@)),
{
    let value = encode(todos);
    proof {
        if todos.len() == 0 {
            assert(tasks_of(todos@).map_values(|t: TodoView| entry_json(t))
                =~= Seq::<Json>::empty());
        }
    }
    match pretty_text(&value) {
        Ok(text) => Ok(text),
        Err(message) => Err(SaveError::Serialize(message)),
    }
}

/// Bootstrap: where there is no file, or an empty one, a command works on
/// the empty collection. An addition then leaves the one new task, with the
/// id 1; every other command leaves no task, and one that names an id
/// reports it as not found. All but the listing ask for the file to be
/// written.
pub proof fn missing_file_starts_empty(command: CommandView)
    ensures
        loaded(FileReadView::Missing) == Ok::<Seq<TodoView>, LoadErrorView>(Seq::empty()),
        loaded(FileReadView::Contents(Seq::empty())) == Ok::<Seq<TodoView>, LoadErrorView>(
            Seq::empty(),
        ),
        match command {
            CommandView::Add { task } => applied(Seq::empty(), command) == seq![
                TodoView { id: 1, task, completed: false },
            ],
            _ => applied(Seq::empty(), command) == Seq::<TodoView>::empty(),
        },
        command is Edit || command is Complete || command is Delete ==> reported(
            Seq::empty(),
            command,
        ) is NotFound,
        persists(command) <==> !(command is List),
{
    let none = Seq::<TodoView>::empty();
    match command {
        CommandView::Add { task } => {
            assert(applied(none, command) =~= seq![TodoView { id: 1, task, completed: false }]);
        },
        CommandView::Delete { id } => {
            assert(!has_id(none, id));
            absent_id_changes_nothing(none, id, Seq::empty());
        },
        _ => {},
    }
}

} // verus!
