//! The data the library works on: tasks, the to-do list and its errors.
pub mod todo;
