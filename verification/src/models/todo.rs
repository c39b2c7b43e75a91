//! Tasks, the to-do list that holds them, and the errors of the library.
use vstd::prelude::*;
use crate::text::{append_decimal, decimal};

verus! {

/// One entry of a to-do list.
#[derive(Debug, PartialEq)]
pub struct Task {
    pub id: usize,
    pub description: String,
    pub title: String,
    pub completed: bool,
}

/// The mathematical value of a [`Task`]: its strings taken as
/// character sequences.
pub struct TaskView {
    pub id: usize,
    pub title: Seq<char>,
    pub description: Seq<char>,
    pub completed: bool,
}

impl View for Task {
    type V = TaskView;

    open spec fn view(&self) -> TaskView {
        TaskView {
            id: self.id,
            title: self.title@,
            description: self.description@,
            completed: self.completed,
        }
    }
}

impl Clone for Task {
    fn clone(&self) -> (r: Self)
        ensures
            r == *self,
    {
        Task {
            id: self.id,
            description: self.description.clone(),
            title: self.title.clone(),
            completed: self.completed,
        }
    }
}

/// The mark that shows whether a task is done.
pub open spec fn status_mark(completed: bool) -> Seq<char> {
    if completed {
        "\u{2713}"@
    } else {
        "O"@
    }
}

/// How a task is shown to the user: `[mark] title-description`.
pub open spec fn task_text(t: TaskView) -> Seq<char> {
    "["@ + status_mark(t.completed) + "] "@ + t.title + "-"@ + t.description
}

impl Task {
    /// How the task is shown: `[O] title-description` for an open
    /// task, and the same with a check mark in place of `O` for a done one.
    pub fn to_string(&self) -> (s: String)
        ensures
            s@ == task_text(self@),
    {
        let mut s = String::from_str("[");
        if self.completed {
            s.append("\u{2713}");
        } else {
            s.append("O");
        }
        s.append("] ");
        s.append(self.title.as_str());
        s.append("-");
        s.append(self.description.as_str());
        s
    }
}

/// A bare to-do list: its tasks and the identifier the next task gets.
pub struct TodoList {
    pub tasks: Vec<Task>,
    pub next_id: usize,
}

impl Default for TodoList {
    fn default() -> (r: Self)
        ensures
            r.tasks@.len() == 0,
            r.next_id == 0,
    {
        TodoList { tasks: Vec::new(), next_id: 0 }
    }
}

/// Why an operation on a to-do list was refused.
#[derive(Debug, PartialEq)]
pub enum TodoError {
    EmptyTitle,
    EmptyDescription,
    InvalidIndex(usize),
    TaskAlreadyComplete(usize),
    AlreadyEmpty,
    DatabaseError(String),
}

/// The message that describes an error to the user.
pub open spec fn error_text(e: TodoError) -> Seq<char> {
    match e {
        TodoError::EmptyTitle => "Title canot be empty"@,
        TodoError::EmptyDescription => "Description cannot be empty"@,
        TodoError::InvalidIndex(i) => "Invalid task index: "@ + decimal(i as nat),
        TodoError::TaskAlreadyComplete(_) => "task alreay complete "@,
        TodoError::AlreadyEmpty => "todo list already empty"@,
        TodoError::DatabaseError(_) => "database err"@,
    }
}

impl TodoError {
    /// The message that describes this error to the user.
    pub fn to_string(&self) -> (s: String)
        ensures
            s@ == error_text(*self),
    {
        match self {
            TodoError::EmptyTitle => String::from_str("Title canot be empty"),
            TodoError::EmptyDescription => String::from_str("Description cannot be empty"),
            TodoError::InvalidIndex(i) => {
                let mut s = String::from_str("Invalid task index: ");
                append_decimal(&mut s, *i);
                s
            },
            TodoError::TaskAlreadyComplete(_) => String::from_str("task alreay complete "),
            TodoError::AlreadyEmpty => String::from_str("todo list already empty"),
            TodoError::DatabaseError(_) => String::from_str("database err"),
        }
    }
}

} // verus!
