//! Stores of tasks: the interface, the abstract model, and the in-memory
//! and SQLite repositories.
pub mod in_memory_repo;
pub mod model;
pub mod sqllite;
pub mod todo_repo;

pub use in_memory_repo::InMemoryRepo;
pub use todo_repo::{create_repository, RepositoryConfig, TodoRepository};
