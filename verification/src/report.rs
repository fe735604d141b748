//! What a command reports back: the outcome as a value, and the lines of
//! text that tell the user of it.

use crate::todo::{tasks_of, Todo, TodoView};
use vstd::prelude::*;
use vstd::string::StringExecFns;

verus! {

/// The character of the decimal digit `d`.
pub open spec fn digit(d: nat) -> char {
    if d == 0 {
        '0'
    } else if d == 1 {
        '1'
    } else if d == 2 {
        '2'
    } else if d == 3 {
        '3'
    } else if d == 4 {
        '4'
    } else if d == 5 {
        '5'
    } else if d == 6 {
        '6'
    } else if d == 7 {
        '7'
    } else if d == 8 {
        '8'
    } else {
        '9'
    }
}

/// The decimal digits of `n`, without leading zeros; `0` for zero.
pub open spec fn decimal(n: nat) -> Seq<char>
    decreases n,
{
    if n < 10 {
        seq![digit(n)]
    } else {
        decimal(n / 10).push(digit(n % 10))
    }
}

/// The text of one decimal digit.
fn digit_text(d: u64) -> (text: &'static str)
    requires
        d < 10,
    ensures
        text@ == seq![digit(d as nat)],
{
    proof {
        reveal_strlit("0");
        reveal_strlit("1");
        reveal_strlit("2");
        reveal_strlit("3");
        reveal_strlit("4");
        reveal_strlit("5");
        reveal_strlit("6");
        reveal_strlit("7");
        reveal_strlit("8");
        reveal_strlit("9");
    }
    let text = if d == 0 {
        "0"
    } else if d == 1 {
        "1"
    } else if d == 2 {
        "2"
    } else if d == 3 {
        "3"
    } else if d == 4 {
        "4"
    } else if d == 5 {
        "5"
    } else if d == 6 {
        "6"
    } else if d == 7 {
        "7"
    } else if d == 8 {
        "8"
    } else {
        "9"
    };
    assert(text@ =~= seq![digit(d as nat)]);
    text
}

/// Writes `n` in decimal digits.
pub fn decimal_text(n: u64) -> (text: String)
    ensures
        text@ == decimal(n as nat),
    decreases n,
{
    if n < 10 {
        String::from_str(digit_text(n))
    } else {
        let mut text = decimal_text(n / 10);
        text.append(digit_text(n % 10));
        proof {
            assert(text@ =~= decimal((n / 10) as nat).push(digit((n % 10) as nat)));
        }
        text
    }
}

/// What a command did, or why it did nothing.
#[derive(Clone, Debug, PartialEq, Eq)]
pub enum Report {
    /// A task was added, with the id it got.
    Added { id: u32, task: String },
    /// The list was asked for and the collection is empty.
    NoTasks,
    /// The list was asked for: the tasks, in order.
    Listing { tasks: Vec<Todo> },
    /// A task got a new description.
    Edited { id: u32, task: String },
    /// A task was marked as completed.
    Completed { id: u32, task: String },
    /// The tasks with the id were removed.
    Deleted { id: u32 },
    /// No task has the id.
    NotFound { id: u32 },
}

/// What a [`Report`] holds.
pub enum ReportView {
    Added { id: nat, task: Seq<char> },
    NoTasks,
    Listing { tasks: Seq<TodoView> },
    Edited { id: nat, task: Seq<char> },
    Completed { id: nat, task: Seq<char> },
    Deleted { id: nat },
    NotFound { id: nat },
}

impl View for Report {
    type V = ReportView;

    open spec fn view(&self) -> ReportView {
        match self {
            Report::Added { id, task } => ReportView::Added { id: *id as nat, task: task@ },
            Report::NoTasks => ReportView::NoTasks,
            Report::Listing { tasks } => ReportView::Listing { tasks: tasks_of(tasks@) },
            Report::Edited { id, task } => ReportView::Edited { id: *id as nat, task: task@ },
            Report::Completed { id, task } => ReportView::Completed {
                id: *id as nat,
                task: task@,
            },
            Report::Deleted { id } => ReportView::Deleted { id: *id as nat },
            Report::NotFound { id } => ReportView::NotFound { id: *id as nat },
        }
    }
}

/// The mark in front of a listed task: checked or unchecked.
pub open spec fn marker(completed: bool) -> Seq<char> {
    if completed {
        "[x]"@
    } else {
        "[ ]"@
    }
}

/// The line that lists one task: its mark, its id and its description.
pub open spec fn task_line(task: TodoView) -> Seq<char> {
    marker(task.completed) + " "@ + decimal(task.id) + ": "@ + task.task
}

/// The lines that tell the user of `report`.
pub open spec fn report_lines(report: ReportView) -> Seq<Seq<char>> {
    match report {
        ReportView::Added { id, task } => seq![
            "✅ Added new to-do: \""@ + task + "\" (ID: "@ + decimal(id) + ")"@,
        ],
        ReportView::NoTasks => seq!["No to-dos yet! Add one with the 'add' command."@],
        ReportView::Listing { tasks } => seq!["--- Your To-Do List ---"@] + tasks.map_values(
            |t: TodoView| task_line(t),
        ),
        ReportView::Edited { id, task } => seq![
            "📝 Edited to-do "@ + decimal(id) + ": \""@ + task + "\""@,
        ],
        ReportView::Completed { id, task } => seq![
            "🎉 Completed to-do "@ + decimal(id) + ": \""@ + task + "\""@,
        ],
        ReportView::Deleted { id } => seq!["🗑️ Deleted to-do with ID "@ + decimal(id) + "."@],
        ReportView::NotFound { id } => seq![
            "Error: To-do with ID "@ + decimal(id) + " not found."@,
        ],
    }
}

/// The texts of `lines`, by their characters.
pub open spec fn texts_of_lines(lines: Seq<String>) -> Seq<Seq<char>> {
    lines.map_values(|line: String| line@)
}

/// Writes the line that lists `todo`.
pub fn list_line(todo: &Todo) -> (line: String)
    ensures
        line@ == task_line(todo@),
{
    let mut line = String::from_str(if todo.completed { "[x]" } else { "[ ]" });
    line.append(" ");
    let id = decimal_text(todo.id as u64);
    line.append(id.as_str());
    line.append(": ");
    line.append(todo.task.as_str());
    line
}

/// A line made of `head`, the id, `middle`, a text and `tail`.
fn line_of(head: &str, id: u32, middle: &str, text: &str, tail: &str) -> (line: String)
    ensures
        line@ == head@ + decimal(id as nat) + middle@ + text@ + tail@,
{
    let mut line = String::from_str(head);
    let digits = decimal_text(id as u64);
    line.append(digits.as_str());
    line.append(middle);
    line.append(text);
    line.append(tail);
    line
}

impl Report {
    /// Whether the report goes to the error stream: it does where no task
    /// has the id that the command named.
    pub fn is_error(&self) -> (error: bool)
        ensures
            error == (self@ is NotFound),
    {
        match self {
            Report::NotFound { .. } => true,
            _ => false,
        }
    }

    /// Writes the lines that tell the user of this report.
    pub fn lines(&self) -> (lines: Vec<String>)
        ensures
            texts_of_lines(lines@) == report_lines(self@),
    {
        let mut lines: Vec<String> = Vec::new();
        match self {
            Report::Added { id, task } => {
                let mut line = String::from_str("✅ Added new to-do: \"");
                line.append(task.as_str());
                line.append("\" (ID: ");
                let digits = decimal_text(*id as u64);
                line.append(digits.as_str());
                line.append(")");
                lines.push(line);
                proof {
                    single_line(lines@, report_lines(self@));
                }
            },
            Report::NoTasks => {
                lines.push(String::from_str("No to-dos yet! Add one with the 'add' command."));
                proof {
                    single_line(lines@, report_lines(self@));
                }
            },
            Report::Listing { tasks } => {
                lines.push(String::from_str("--- Your To-Do List ---"));
                let mut i: usize = 0;
                while i < tasks.len()
                    invariant
                        i <= tasks.len(),
                        lines.len() == i + 1,
                        lines[0]@ == "--- Your To-Do List ---"@,
                        forall|j: int| 0 <= j < i ==> (#[trigger] lines[j + 1])@ == task_line(
                            tasks[j]@,
                        ),
                    decreases tasks.len() - i,
                {
                    let line = list_line(&tasks[i]);
                    lines.push(line);
                    i += 1;
                }
                proof {
                    let wanted = report_lines(self@);
                    let written = texts_of_lines(lines@);
                    assert(wanted.len() == tasks.len() + 1);
                    assert forall|k: int| 0 <= k < wanted.len() implies #[trigger] written[k]
                        == wanted[k] by {
                        if k > 0 {
                            assert(lines[(k - 1) + 1]@ == task_line(tasks[k - 1]@));
                        }
                    }
                    assert(written =~= wanted);
                }
            },
            Report::Edited { id, task } => {
                lines.push(line_of("📝 Edited to-do ", *id, ": \"", task.as_str(), "\""));
                proof {
                    single_line(lines@, report_lines(self@));
                }
            },
            Report::Completed { id, task } => {
                lines.push(line_of("🎉 Completed to-do ", *id, ": \"", task.as_str(), "\""));
                proof {
                    single_line(lines@, report_lines(self@));
                }
            },
            Report::Deleted { id } => {
                lines.push(line_of("🗑️ Deleted to-do with ID ", *id, ".", "", ""));
                proof {
                    reveal_strlit("");
                    assert(lines[0]@ =~= "🗑️ Deleted to-do with ID "@ + decimal(*id as nat) + "."@);
                    single_line(lines@, report_lines(self@));
                }
            },
            Report::NotFound { id } => {
                lines.push(line_of("Error: To-do with ID ", *id, " not found.", "", ""));
                proof {
                    reveal_strlit("");
                    assert(lines[0]@ =~= "Error: To-do with ID "@ + decimal(*id as nat)
                        + " not found."@);
                    single_line(lines@, report_lines(self@));
                }
            },
        }
        lines
    }
}

/// One written line that holds the one wanted line is all that is wanted.
proof fn single_line(lines: Seq<String>, wanted: Seq<Seq<char>>)
    requires
        lines.len() == 1,
        wanted.len() == 1,
        lines[0]@ == wanted[0],
    ensures
        texts_of_lines(lines) == wanted,
{
    assert(texts_of_lines(lines) =~= wanted);
}

} // verus!
