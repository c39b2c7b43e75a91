//! A verified to-do list library: tasks, their validation, and the
//! repositories that keep them.
pub mod cli;
pub mod models;
pub mod repository;
pub mod text;

pub use models::todo::Task;
pub use models::todo::TodoError;
pub use models::todo::TodoList;
