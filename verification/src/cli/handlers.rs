//! What the user is told after an addition, and how the list is shown.
use vstd::prelude::*;
use crate::models::todo::{error_text, task_text, Task, TodoError};
use crate::text::{append_decimal, decimal};

verus! {

/// The message shown after an attempt to add a task.
pub open spec fn add_feedback_text(r: Result<Task, TodoError>) -> Seq<char> {
    match r {
        Ok(_) => "\u{2713} Task added successfully!"@,
        Err(TodoError::EmptyTitle) => "\u{274c} "@ + error_text(TodoError::EmptyTitle) + "."@,
        Err(TodoError::EmptyDescription) => "\u{274c} "@ + error_text(TodoError::EmptyDescription)
            + ","@,
        Err(e) => "\u{274c} Error "@ + error_text(e) + "."@,
    }
}

/// The message shown after an attempt to add a task.
pub fn add_feedback(r: &Result<Task, TodoError>) -> (s: String)
    ensures
        s@ == add_feedback_text(*r),
{
    match r {
        Ok(_) => String::from_str("\u{2713} Task added successfully!"),
        Err(TodoError::EmptyTitle) => {
            let mut s = String::from_str("\u{274c} ");
            let m = TodoError::EmptyTitle.to_string();
            s.append(m.as_str());
            s.append(".");
            s
        },
        Err(TodoError::EmptyDescription) => {
            let mut s = String::from_str("\u{274c} ");
            let m = TodoError::EmptyDescription.to_string();
            s.append(m.as_str());
            s.append(",");
            s
        },
        Err(e) => {
            let mut s = String::from_str("\u{274c} Error ");
            let m = e.to_string();
            s.append(m.as_str());
            s.append(".");
            s
        },
    }
}

/// The line that shows the task at position `i` of a listing: two spaces,
/// its number counted from 1, a comma, and the task.
pub open spec fn list_line(i: int, t: Task) -> Seq<char> {
    "  "@ + decimal((i + 1) as nat) + ","@ + task_text(t@)
}

/// The lines that show `tasks`, one per task, numbered from 1.
pub fn task_list_lines(tasks: &Vec<Task>) -> (lines: Vec<String>)
    ensures
        lines@.len() == tasks@.len(),
        forall|i: int| 0 <= i < tasks@.len() ==> #[trigger] lines@[i]@ == list_line(i, tasks@[i]),
{
    let mut lines: Vec<String> = Vec::new();
    let n = tasks.len();
    for i in 0..n
        invariant
            n == tasks@.len(),
            lines@.len() == i,
            forall|j: int| 0 <= j < i ==> #[trigger] lines@[j]@ == list_line(j, tasks@[j]),
    {
        let mut line = String::from_str("  ");
        append_decimal(&mut line, i + 1);
        line.append(",");
        let shown = tasks[i].to_string();
        line.append(shown.as_str());
        lines.push(line);
    }
    lines
}

} // verus!
