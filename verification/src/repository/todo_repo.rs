//! The interface every repository offers, and the choice of repository.
use vstd::prelude::*;
use crate::models::todo::{Task, TodoError};
use crate::text::is_blank;
use crate::repository::model::{
    add_spec, clear_spec, complete_spec, get_spec, opt_task_result, remove_spec, task_result,
    views, RepoView,
};
use crate::repository::in_memory_repo::InMemoryRepo;
use crate::repository::sqllite::SqliteRepo;

verus! {

/// The operations of a store of tasks.
///
/// The clauses here hold of every repository of the library: the input
/// checks of `add_task` and which errors each operation can give.  Each
/// repository states what it does beyond that.
pub trait TodoRepository: Send + Sync {
    /// The repository's internal invariant.
    spec fn inv(&self) -> bool;

    /// Whether the repository can still hand out an identifier.
    spec fn has_room(&self) -> bool;

    /// The database the repository was opened on, or `None` for one that
    /// keeps its tasks in memory.
    spec fn location(&self) -> Option<Seq<char>>;

    /// The abstract store, for a repository whose whole state the library
    /// holds (`None` for one whose tasks live in a database).  When it is
    /// there, every operation follows the model of `model.rs` exactly.
    spec fn store(&self) -> Option<RepoView>;

    /// Whether an identifier is still free, so that `add_task` may be
    /// called with any title and description.
    fn can_add(&self) -> (b: bool)
        ensures
            b == self.has_room(),
    ;

    fn add_task(&mut self, title: String, description: String) -> (r: Result<Task, TodoError>)
        requires
            old(self).inv(),
            old(self).has_room() || is_blank(title@) || is_blank(description@),
        ensures
            final(self).inv(),
            is_blank(title@) ==> r == Err::<Task, TodoError>(TodoError::EmptyTitle),
            !is_blank(title@) && is_blank(description@) ==> r == Err::<Task, TodoError>(
                TodoError::EmptyDescription,
            ),
            !is_blank(title@) && !is_blank(description@) ==> match r {
                Ok(t) => t.title@ == title@ && t.description@ == description@ && !t.completed,
                Err(e) => e is DatabaseError,
            },
            final(self).store() is Some == old(self).store() is Some,
            old(self).store() matches Some(v) ==> final(self).store() == Some(
                add_spec(v, title@, description@).0,
            ) && task_result(r) == add_spec(v, title@, description@).1,
    ;

    fn list_tasks(&self) -> (r: Result<Vec<Task>, TodoError>)
        requires
            self.inv(),
        ensures
            r matches Err(e) ==> e is DatabaseError,
            self.store() matches Some(v) ==> (r matches Ok(l) && views(l@) == v.tasks),
    ;

    fn get_task(&self, id: usize) -> (r: Result<Option<Task>, TodoError>)
        requires
            self.inv(),
        ensures
            r matches Ok(o) ==> o is Some,
            r matches Err(e) ==> e == TodoError::InvalidIndex(id) || e is DatabaseError,
            self.store() matches Some(v) ==> opt_task_result(r) == get_spec(v, id),
    ;

    fn remove_task(&mut self, id: usize) -> (r: Result<Option<Task>, TodoError>)
        requires
            old(self).inv(),
        ensures
            final(self).inv(),
            r matches Ok(o) ==> o is Some,
            r matches Err(e) ==> e == TodoError::InvalidIndex(id) || e is DatabaseError,
            final(self).store() is Some == old(self).store() is Some,
            old(self).store() matches Some(v) ==> final(self).store() == Some(
                remove_spec(v, id).0,
            ) && opt_task_result(r) == remove_spec(v, id).1,
    ;

    fn complete_task(&mut self, id: usize) -> (r: Result<bool, TodoError>)
        requires
            old(self).inv(),
        ensures
            final(self).inv(),
            r matches Err(e) ==> e == TodoError::InvalidIndex(id) || e
                == TodoError::TaskAlreadyComplete(id) || e is DatabaseError,
            final(self).store() is Some == old(self).store() is Some,
            old(self).store() matches Some(v) ==> final(self).store() == Some(
                complete_spec(v, id).0,
            ) && r == complete_spec(v, id).1,
    ;

    fn task_count(&self) -> (r: Result<usize, TodoError>)
        requires
            self.inv(),
        ensures
            r matches Err(e) ==> e is DatabaseError,
            self.store() matches Some(v) ==> r == Ok::<usize, TodoError>(v.tasks.len() as usize),
    ;

    fn clear_all(&mut self) -> (r: Result<(), TodoError>)
        requires
            old(self).inv(),
        ensures
            final(self).inv(),
            r matches Err(e) ==> e == TodoError::AlreadyEmpty || e is DatabaseError,
            final(self).store() is Some == old(self).store() is Some,
            old(self).store() matches Some(v) ==> final(self).store() == Some(clear_spec(v).0) && r
                == clear_spec(v).1,
    ;
}

/// Where the tasks are kept.
pub enum RepositoryConfig {
    InMemory,
    File { path: String },
    Sqllite { path: String },
}

/// How a configuration is shown: `InMemory`, `File(path)` or
/// `SQLite(path)`.
pub open spec fn config_text(c: RepositoryConfig) -> Seq<char> {
    match c {
        RepositoryConfig::InMemory => "InMemory"@,
        RepositoryConfig::File { path } => "File("@ + path@ + ")"@,
        RepositoryConfig::Sqllite { path } => "SQLite("@ + path@ + ")"@,
    }
}

impl RepositoryConfig {
    /// The text shown for this configuration.
    pub fn to_string(&self) -> (s: String)
        ensures
            s@ == config_text(*self),
    {
        match self {
            RepositoryConfig::InMemory => String::from_str("InMemory"),
            RepositoryConfig::File { path } => {
                let mut s = String::from_str("File(");
                s.append(path.as_str());
                s.append(")");
                s
            },
            RepositoryConfig::Sqllite { path } => {
                let mut s = String::from_str("SQLite(");
                s.append(path.as_str());
                s.append(")");
                s
            },
        }
    }
}

/// The repository a configuration names: an empty in-memory repository,
/// or an SQLite repository on the configured path (a `File` configuration
/// is served by SQLite too).  Opening the database can fail, and then the
/// error is handed back.
pub fn create_repository(config: &RepositoryConfig) -> (r: Result<Box<dyn TodoRepository>, TodoError>)
    ensures
        config is InMemory ==> r is Ok,
        r matches Err(e) ==> !(config is InMemory) && e is DatabaseError,
        r matches Ok(b) ==> b.inv() && b.has_room(),
        r matches Ok(b) ==> b.store() == match *config {
            RepositoryConfig::InMemory => Some(RepoView { tasks: Seq::empty(), next_id: 1 }),
            _ => None,
        },
        r matches Ok(b) ==> b.location() == match *config {
            RepositoryConfig::InMemory => None,
            RepositoryConfig::File { path } => Some(path@),
            RepositoryConfig::Sqllite { path } => Some(path@),
        },
{
    match config {
        RepositoryConfig::InMemory => Ok(Box::new(InMemoryRepo::new())),
        RepositoryConfig::File { path } => match SqliteRepo::new(path.as_str()) {
            Ok(repo) => Ok(Box::new(repo)),
            Err(e) => Err(e),
        },
        RepositoryConfig::Sqllite { path } => match SqliteRepo::new(path.as_str()) {
            Ok(repo) => Ok(Box::new(repo)),
            Err(e) => Err(e),
        },
    }
}

} // verus!
