//! A repository that keeps its tasks in an SQLite database reached
//! through a pool of connections.
//!
//! What the database holds is outside the library's reach: every call
//! into `r2d2` or `rusqlite` goes through a small trusted function below,
//! whose answers are taken as they come.  Each trusted function that hands
//! something to the database also gives back a ghost record of what it
//! handed over: the path a manager opens, the size of a pool, the SQL text
//! and parameters of a statement, the column a value was read from.  The
//! repository keeps, as ghost state, the statements that changed the
//! database and their answers, whether each of their attempts to take a
//! connection got one, and what the changing operations read on the way; the reading operations (`list_recorded`, `get_recorded`,
//! `count_recorded`) hand their record back with their answer.  So the
//! contracts below state which statements each operation sends, with which
//! parameters, and how each answer follows from what the database replied.
use vstd::prelude::*;
use vstd::string::to_string_from_display_ensures;
use r2d2::{Pool, PooledConnection};
use r2d2_sqlite::SqliteConnectionManager;
use rusqlite::{Row, Rows, Statement};
use crate::models::todo::{Task, TaskView, TodoError};
use crate::repository::model::RepoView;
use crate::repository::todo_repo::TodoRepository;
use crate::text::{is_blank, is_blank_str};

verus! {

/// The connection manager of `r2d2_sqlite`; Verus sees nothing inside it.
#[verifier::external_type_specification]
#[verifier::external_body]
pub struct ExSqliteConnectionManager(SqliteConnectionManager);

/// A pool of connections to one SQLite database (an `r2d2::Pool` of
/// `r2d2_sqlite` managers).  Verus sees nothing inside it.
#[verifier::external_body]
pub struct SqlitePool {
    pool: Pool<SqliteConnectionManager>,
}

/// A connection taken from a pool (an `r2d2::PooledConnection`); it goes
/// back to the pool when dropped.  Verus sees nothing inside it.
#[verifier::external_body]
pub struct SqliteConn {
    conn: PooledConnection<SqliteConnectionManager>,
}

/// The error of `r2d2`; Verus sees nothing inside it.
#[verifier::external_type_specification]
#[verifier::external_body]
pub struct ExPoolError(r2d2::Error);

/// The error of `rusqlite`; Verus sees nothing inside it.
#[verifier::external_type_specification]
#[verifier::external_body]
pub struct ExSqlError(rusqlite::Error);

/// A prepared statement of `rusqlite`; Verus sees nothing inside it.
#[verifier::external_type_specification]
#[verifier::external_body]
pub struct ExStatement<'conn>(Statement<'conn>);

/// The rows a query yields; Verus sees nothing inside them.
#[verifier::external_type_specification]
#[verifier::external_body]
pub struct ExRows<'stmt>(Rows<'stmt>);

/// One row a query yields; Verus sees nothing inside it.
#[verifier::external_type_specification]
#[verifier::external_body]
pub struct ExRow<'stmt>(Row<'stmt>);

/// A connection manager, with the path its connections open.
pub struct SqliteManager {
    manager: SqliteConnectionManager,
    path: Ghost<Seq<char>>,
}

/// An open pool, with the path it opens and the most connections it holds.
pub struct OpenPool {
    pool: SqlitePool,
    path: Ghost<Seq<char>>,
    max_size: Ghost<u32>,
}

/// A value bound to a parameter of an SQL statement.
pub enum SqlArg {
    Id(usize),
    Text(Seq<char>),
    Flag(bool),
}

/// An SQL text with the values bound to its parameters, in order.
pub struct SqlStatement {
    pub sql: Seq<char>,
    pub args: Seq<SqlArg>,
}

/// How the database answered a statement: it failed, it ran (a batch), or
/// it ran and changed that many rows.
pub enum SqlOutcome {
    Failed,
    Done,
    Changed(usize),
}

/// A statement the repository sent to change its database, with the
/// database's answer.
pub struct SqlWrite {
    pub statement: SqlStatement,
    pub outcome: SqlOutcome,
}

/// What a query read: the statement it ran (`None` when it never reached
/// the database), the columns read from each row with the value each gave,
/// and whether it went through without an error.
pub struct QueryRecord {
    pub statement: Option<SqlStatement>,
    pub rows: Seq<Seq<(usize, SqlArg)>>,
    pub ok: bool,
}

/// Something the repository read from its database: the record of a query,
/// or the row id of the last insertion.
pub enum SqlRead {
    Query(QueryRecord),
    RowId(i64),
}

/// The settings given to a new database.
pub const SETUP_SQL: &'static str = "\n            PRAGMA journal_mode = WAL;\n            PRAGMA synchronous = NORMAL;\n            PRAGMA foreign_keys = ON;\n        ";

/// The creation of the table `tasks`, when it is missing.
pub const CREATE_TABLE_SQL: &'static str = "CREATE TABLE IF NOT EXISTS tasks (\n                id INTEGER PRIMARY KEY AUTOINCREMENT,\n                title TEXT NOT NULL,\n                description TEXT NOT NULL,\n                completed BOOLEAN NOT NULL DEFAULT 0\n            )";

/// The insertion of a task: title, description, completed.
pub const INSERT_SQL: &'static str = "INSERT INTO tasks (title,description,completed)VALUES(?1,?2,?3)";

/// Every task, by increasing id.
pub const LIST_SQL: &'static str = "SELECT id, title, description, completed FROM tasks ORDER BY id";

/// The task with one id.
pub const GET_SQL: &'static str = "SELECT id, title, description,completed FROM tasks WHERE id=?1";

/// The removal of the task with one id.
pub const DELETE_SQL: &'static str = "DELETE FROM tasks where id=?1";

/// Marking the task with one id done, when it is open.
pub const COMPLETE_SQL: &'static str = "UPDATE tasks SET completed=1 WHERE id =?1 AND completed=0";

/// The number of tasks.
pub const COUNT_SQL: &'static str = "SELECT COUNT (*) FROM tasks";

/// The removal of every task.
pub const CLEAR_SQL: &'static str = "DELETE FROM tasks";

/// The query that lists every task.
pub open spec fn list_statement() -> SqlStatement {
    SqlStatement { sql: LIST_SQL@, args: seq![] }
}

/// The query that reads the task with identifier `id`.
pub open spec fn get_statement(id: usize) -> SqlStatement {
    SqlStatement { sql: GET_SQL@, args: seq![SqlArg::Id(id)] }
}

/// The query that counts the tasks.
pub open spec fn count_statement() -> SqlStatement {
    SqlStatement { sql: COUNT_SQL@, args: seq![] }
}

/// The record of a query that never reached the database.
pub open spec fn unsent() -> QueryRecord {
    QueryRecord { statement: None, rows: seq![], ok: false }
}

/// `rows` are the columns read for the tasks `v`, one row per task, in
/// order.
pub open spec fn rows_of(rows: Seq<Seq<(usize, SqlArg)>>, v: Seq<Task>) -> bool {
    &&& rows.len() == v.len()
    &&& forall|i: int| 0 <= i < v.len() ==> #[trigger] rows[i] == task_columns(v[i]@)
}

/// `after` is `before` with one more read, a query.
pub open spec fn query_appended(before: Seq<SqlRead>, after: Seq<SqlRead>) -> bool {
    &&& after.len() == before.len() + 1
    &&& after.subrange(0, before.len() as int) == before
    &&& after.last() is Query
}

/// The record of the last query read.
pub open spec fn last_query(reads: Seq<SqlRead>) -> QueryRecord {
    reads.last()->Query_0
}

/// `after` is `before` with one more read, `x`.
pub open spec fn read_appended(before: Seq<SqlRead>, after: Seq<SqlRead>, x: SqlRead) -> bool {
    after == before.push(x)
}

/// The statement that inserts a task with this title and description.
pub open spec fn insert_statement(title: Seq<char>, description: Seq<char>) -> SqlStatement {
    SqlStatement {
        sql: INSERT_SQL@,
        args: seq![SqlArg::Text(title), SqlArg::Text(description), SqlArg::Flag(false)],
    }
}

/// The statement that deletes the task with identifier `id`.
pub open spec fn delete_statement(id: usize) -> SqlStatement {
    SqlStatement { sql: DELETE_SQL@, args: seq![SqlArg::Id(id)] }
}

/// The statement that marks the open task with identifier `id` done.
pub open spec fn complete_statement(id: usize) -> SqlStatement {
    SqlStatement { sql: COMPLETE_SQL@, args: seq![SqlArg::Id(id)] }
}

/// The statement that deletes every task.
pub open spec fn clear_statement() -> SqlStatement {
    SqlStatement { sql: CLEAR_SQL@, args: seq![] }
}

/// The statements that set a database up, in the order they are sent.
pub open spec fn setup_statements() -> Seq<SqlStatement> {
    seq![
        SqlStatement { sql: SETUP_SQL@, args: seq![] },
        SqlStatement { sql: CREATE_TABLE_SQL@, args: seq![] },
    ]
}

/// The outcome recorded for an `execute` answer.
pub open spec fn execute_outcome(r: Result<usize, rusqlite::Error>) -> SqlOutcome {
    match r {
        Ok(n) => SqlOutcome::Changed(n),
        Err(_) => SqlOutcome::Failed,
    }
}

/// `after` is `before` with one more write, of statement `s`.
pub open spec fn appended(before: Seq<SqlWrite>, after: Seq<SqlWrite>, s: SqlStatement) -> bool {
    &&& after.len() == before.len() + 1
    &&& after.subrange(0, before.len() as int) == before
    &&& after.last().statement == s
}

/// The columns a row of the table is read from, with the value each gave,
/// for the task `t`: id, title, description, completed.
pub open spec fn task_columns(t: TaskView) -> Seq<(usize, SqlArg)> {
    seq![
        (0usize, SqlArg::Id(t.id)),
        (1usize, SqlArg::Text(t.title)),
        (2usize, SqlArg::Text(t.description)),
        (3usize, SqlArg::Flag(t.completed)),
    ]
}

/// `m` is the message of some `rusqlite` error.
pub open spec fn sql_message(m: String) -> bool {
    exists|e: rusqlite::Error| to_string_from_display_ensures::<rusqlite::Error>(&e, m)
}

/// `m` starts with `prefix`.
pub open spec fn starts_with(m: String, prefix: Seq<char>) -> bool {
    prefix.is_prefix_of(m@)
}

/// `SqliteConnectionManager::file`: a manager whose connections open the
/// database at `path`.  The ghost path that comes with it records that
/// argument, which the manager keeps (`Source::File(path)`).
#[verifier::external_body]
fn manager_for_file(path: &str) -> (m: SqliteManager)
    ensures
        m.path@ == path@,
{
    SqliteManager { manager: SqliteConnectionManager::file(path), path: Ghost(path@) }
}

/// `r2d2::Pool::builder().max_size(max_size).build(manager)`: a pool of at
/// most `max_size` connections of `manager`, or the error met while
/// opening its first connections.  `Builder::max_size` panics on 0, hence
/// the `requires`.  A pool that comes back carries the manager's path and
/// `max_size` as ghost records; whether it comes back depends on the file
/// system, so nothing is promised of that.
#[verifier::external_body]
fn build_pool(manager: SqliteManager, max_size: u32) -> (r: Result<OpenPool, r2d2::Error>)
    requires
        max_size > 0,
    ensures
        r matches Ok(p) ==> p.path@ == manager.path@ && p.max_size@ == max_size,
{
    match Pool::builder().max_size(max_size).build(manager.manager) {
        Ok(pool) => Ok(OpenPool {
            pool: SqlitePool { pool },
            path: manager.path,
            max_size: Ghost(max_size),
        }),
        Err(e) => Err(e),
    }
}

/// `r2d2::Pool::get`: a connection from the pool, or the error met when
/// none came in time.  The outcome depends on the database, so nothing is
/// promised of it.
#[verifier::external_body]
fn pool_get(pool: &OpenPool) -> (r: Result<SqliteConn, r2d2::Error>) {
    pool.pool.pool.get().map(|conn| SqliteConn { conn })
}

impl Clone for SqlitePool {
    /// `r2d2::Pool::clone`: another handle on the same pool.  The handle is
    /// opaque to Verus, so nothing is stated of it.
    #[verifier::external_body]
    fn clone(&self) -> Self {
        SqlitePool { pool: self.pool.clone() }
    }
}

/// `rusqlite::Connection::execute_batch`: runs the statements of `sql`.
/// With the answer comes a ghost record of the text handed over; the
/// answer itself depends on the database, so nothing is promised of it.
#[verifier::external_body]
fn execute_batch(conn: &SqliteConn, sql: &str) -> (r: (Result<(), rusqlite::Error>, Ghost<SqlStatement>))
    ensures
        r.1@ == (SqlStatement { sql: sql@, args: seq![] }),
{
    (conn.conn.execute_batch(sql), Ghost(SqlStatement { sql: sql@, args: seq![] }))
}

/// `rusqlite::Connection::execute` with no parameters: runs one statement
/// and gives the number of rows it changed.  With the answer comes a ghost
/// record of the text handed over; the answer itself depends on the
/// database, so nothing is promised of it.
#[verifier::external_body]
fn execute_plain(conn: &SqliteConn, sql: &str) -> (r: (Result<usize, rusqlite::Error>, Ghost<SqlStatement>))
    ensures
        r.1@ == (SqlStatement { sql: sql@, args: seq![] }),
{
    (conn.conn.execute(sql, ()), Ghost(SqlStatement { sql: sql@, args: seq![] }))
}

/// `rusqlite::Connection::execute` with the one parameter `id`: runs one
/// statement and gives the number of rows it changed.  With the answer
/// comes a ghost record of the text and parameter handed over; the answer
/// itself depends on the database, so nothing is promised of it.
#[verifier::external_body]
fn execute_with_id(conn: &SqliteConn, sql: &str, id: usize) -> (r: (
    Result<usize, rusqlite::Error>,
    Ghost<SqlStatement>,
))
    ensures
        r.1@ == (SqlStatement { sql: sql@, args: seq![SqlArg::Id(id)] }),
{
    (conn.conn.execute(sql, (id,)), Ghost(SqlStatement { sql: sql@, args: seq![SqlArg::Id(id)] }))
}

/// `rusqlite::Connection::execute` with the three parameters of a task:
/// runs one statement and gives the number of rows it changed.  With the
/// answer comes a ghost record of the text and parameters handed over, in
/// order; the answer itself depends on the database, so nothing is
/// promised of it.
#[verifier::external_body]
fn execute_with_task(conn: &SqliteConn, sql: &str, title: &str, description: &str, completed: bool) -> (r: (
    Result<usize, rusqlite::Error>,
    Ghost<SqlStatement>,
))
    ensures
        r.1@ == (SqlStatement {
            sql: sql@,
            args: seq![SqlArg::Text(title@), SqlArg::Text(description@), SqlArg::Flag(completed)],
        }),
{
    (
        conn.conn.execute(sql, (title, description, completed)),
        Ghost(
            SqlStatement {
                sql: sql@,
                args: seq![SqlArg::Text(title@), SqlArg::Text(description@), SqlArg::Flag(completed)],
            },
        ),
    )
}

/// `rusqlite::Connection::last_insert_rowid`: the row id of the last row
/// this connection inserted, which only the database knows.
#[verifier::external_body]
fn last_insert_rowid(conn: &SqliteConn) -> (r: i64) {
    conn.conn.last_insert_rowid()
}

/// `rusqlite::Connection::prepare`: compiles one SQL statement.  With the
/// answer comes a ghost record of the text handed over; the answer itself
/// depends on the database, so nothing is promised of it.
#[verifier::external_body]
fn prepare<'c>(conn: &'c SqliteConn, sql: &str) -> (r: (
    Result<Statement<'c>, rusqlite::Error>,
    Ghost<Seq<char>>,
))
    ensures
        r.1@ == sql@,
{
    (conn.conn.prepare(sql), Ghost(sql@))
}

/// `rusqlite::Statement::query` with no parameters: starts the query.
/// With the answer comes a ghost record of the (no) parameters handed
/// over; the answer itself depends on the database, so nothing is promised
/// of it.
#[verifier::external_body]
fn query_plain<'s, 'c>(stmt: &'s mut Statement<'c>) -> (r: (
    Result<Rows<'s>, rusqlite::Error>,
    Ghost<Seq<SqlArg>>,
))
    ensures
        r.1@ == Seq::<SqlArg>::empty(),
{
    (stmt.query(()), Ghost(Seq::empty()))
}

/// `rusqlite::Statement::query` with the one parameter `id`: starts the
/// query.  With the answer comes a ghost record of the parameter handed
/// over; the answer itself depends on the database, so nothing is promised
/// of it.
#[verifier::external_body]
fn query_with_id<'s, 'c>(stmt: &'s mut Statement<'c>, id: usize) -> (r: (
    Result<Rows<'s>, rusqlite::Error>,
    Ghost<Seq<SqlArg>>,
))
    ensures
        r.1@ == seq![SqlArg::Id(id)],
{
    (stmt.query((id,)), Ghost(seq![SqlArg::Id(id)]))
}

/// `rusqlite::Rows::next`: the next row of the query, `None` after the
/// last one.  What comes depends on the database, so nothing is promised.
#[verifier::external_body]
fn next_row<'r, 's>(rows: &'r mut Rows<'s>) -> (r: Result<Option<&'r Row<'s>>, rusqlite::Error>) {
    rows.next()
}

/// `rusqlite::Row::get` of a `usize` column.  With the value comes a ghost
/// record of the column it was asked from; the value comes from the
/// database, so nothing is promised of it.
#[verifier::external_body]
fn column_usize(row: &Row<'_>, idx: usize) -> (r: (Result<usize, rusqlite::Error>, Ghost<usize>))
    ensures
        r.1@ == idx,
{
    (row.get(idx), Ghost(idx))
}

/// `rusqlite::Row::get` of a text column.  With the value comes a ghost
/// record of the column it was asked from; the value comes from the
/// database, so nothing is promised of it.
#[verifier::external_body]
fn column_string(row: &Row<'_>, idx: usize) -> (r: (Result<String, rusqlite::Error>, Ghost<usize>))
    ensures
        r.1@ == idx,
{
    (row.get(idx), Ghost(idx))
}

/// `rusqlite::Row::get` of a boolean column.  With the value comes a ghost
/// record of the column it was asked from; the value comes from the
/// database, so nothing is promised of it.
#[verifier::external_body]
fn column_bool(row: &Row<'_>, idx: usize) -> (r: (Result<bool, rusqlite::Error>, Ghost<usize>))
    ensures
        r.1@ == idx,
{
    (row.get(idx), Ghost(idx))
}

/// `rusqlite::Connection::query_row` that reads the first column of the
/// one row of `sql` as a `usize` (the closure only picks that column).
/// With the answer comes a ghost record of the text handed over; the value
/// comes from the database, so nothing is promised of it.
#[verifier::external_body]
fn query_count(conn: &SqliteConn, sql: &str) -> (r: (Result<usize, rusqlite::Error>, Ghost<SqlStatement>))
    ensures
        r.1@ == (SqlStatement { sql: sql@, args: seq![] }),
{
    (conn.conn.query_row(sql, (), |row| row.get(0)), Ghost(SqlStatement { sql: sql@, args: seq![] }))
}

/// The error reported for a failed SQL call: the database's own message.
fn sql_error(e: &rusqlite::Error) -> (r: TodoError)
    ensures
        r matches TodoError::DatabaseError(m) && to_string_from_display_ensures::<rusqlite::Error>(
            e,
            m,
        ),
{
    TodoError::DatabaseError(e.to_string())
}

/// The error reported for a failed pool call: `prefix` followed by the
/// pool's message.
fn pool_error(prefix: &str, e: &r2d2::Error) -> (r: TodoError)
    ensures
        r matches TodoError::DatabaseError(m) && starts_with(m, prefix@),
{
    let mut m = String::from_str(prefix);
    let text = e.to_string();
    m.append(text.as_str());
    assert(prefix@.is_prefix_of(m@)) by {
        assert(m@.subrange(0, prefix@.len() as int) =~= prefix@);
    }
    TodoError::DatabaseError(m)
}

/// The database name that `new_in_memory` opens for `random_string`: a
/// shared in-memory database, `file:<random_string>?mode=memory&cache=shared`,
/// which lives as long as one connection to it is open and is never
/// written to disk.
pub fn in_memory_path(random_string: &str) -> (p: String)
    ensures
        p@ == "file:"@ + random_string@ + "?mode=memory&cache=shared"@,
{
    let mut p = String::from_str("file:");
    p.append(random_string);
    p.append("?mode=memory&cache=shared");
    p
}

/// The task that an insertion answered with row id `rowid` stands for:
/// the row id taken as a `usize` (as `as` converts it), the given title
/// and description, and not completed.
pub fn inserted_task(rowid: i64, title: String, description: String) -> (t: Task)
    ensures
        t.id == rowid as usize,
        t.title@ == title@,
        t.description@ == description@,
        !t.completed,
{
    Task { id: rowid as usize, title, description, completed: false }
}

/// The answer of `complete_task` once the update has changed `affected`
/// rows, and, when it changed none, whether the task could be read back.
pub fn completion_result(id: usize, affected: usize, found: bool) -> (r: Result<bool, TodoError>)
    ensures
        affected > 0 ==> r == Ok::<bool, TodoError>(true),
        affected == 0 && found ==> r == Ok::<bool, TodoError>(false),
        affected == 0 && !found ==> r == Err::<bool, TodoError>(TodoError::InvalidIndex(id)),
{
    if affected == 0 {
        if found {
            return Ok(false);
        } else {
            return Err(TodoError::InvalidIndex(id));
        }
    }
    Ok(affected > 0)
}

/// The answer of `get_task` once the query has yielded its first row
/// (`None` when it yielded none) and that row has been read as a task.
pub fn lookup_result(id: usize, first: Option<Result<Task, TodoError>>) -> (r: Result<
    Option<Task>,
    TodoError,
>)
    ensures
        first is None ==> r == Err::<Option<Task>, TodoError>(TodoError::InvalidIndex(id)),
        first matches Some(Ok(t)) ==> r == Ok::<Option<Task>, TodoError>(Some(t)),
        first matches Some(Err(e)) ==> r == Err::<Option<Task>, TodoError>(e),
{
    match first {
        Some(Ok(t)) => Ok(Some(t)),
        Some(Err(e)) => Err(e),
        None => Err(TodoError::InvalidIndex(id)),
    }
}

/// Whether `clear_all` refuses with `AlreadyEmpty`, given how reading the
/// table went: only when the table was read and held no task.
pub fn clear_refused(listing: &Result<Vec<Task>, TodoError>) -> (b: bool)
    ensures
        b == (listing matches Ok(ts) && ts@.len() == 0),
{
    match listing {
        Ok(ts) => ts.len() == 0,
        Err(_) => false,
    }
}

/// The task made of the values read from the columns of a row: id,
/// title, description and completed, in that order.
pub fn task_from_columns(id: usize, title: String, description: String, completed: bool) -> (t:
    Task)
    ensures
        t@ == (TaskView { id, title: title@, description: description@, completed }),
{
    Task { id, title, description, completed }
}

/// Reads one task from a row of `id, title, description, completed`.
/// With the answer comes a ghost record of the columns read and the value
/// each gave: a task comes from column 0 (id), 1 (title), 2 (description)
/// and 3 (completed).
pub fn read_task(row: &Row<'_>) -> (r: (Result<Task, TodoError>, Ghost<Seq<(usize, SqlArg)>>))
    ensures
        r.0 matches Ok(t) ==> r.1@ == task_columns(t@),
        r.0 matches Err(e) ==> e is DatabaseError,
{
    let (id_read, Ghost(c0)) = column_usize(row, 0);
    let id = match id_read {
        Ok(v) => v,
        Err(e) => return (Err(sql_error(&e)), Ghost(Seq::empty())),
    };
    let (title_read, Ghost(c1)) = column_string(row, 1);
    let title = match title_read {
        Ok(v) => v,
        Err(e) => return (Err(sql_error(&e)), Ghost(Seq::empty())),
    };
    let (description_read, Ghost(c2)) = column_string(row, 2);
    let description = match description_read {
        Ok(v) => v,
        Err(e) => return (Err(sql_error(&e)), Ghost(Seq::empty())),
    };
    let (completed_read, Ghost(c3)) = column_bool(row, 3);
    let completed = match completed_read {
        Ok(v) => v,
        Err(e) => return (Err(sql_error(&e)), Ghost(Seq::empty())),
    };
    let ghost reads = seq![
        (c0, SqlArg::Id(id)),
        (c1, SqlArg::Text(title@)),
        (c2, SqlArg::Text(description@)),
        (c3, SqlArg::Flag(completed)),
    ];
    let t = task_from_columns(id, title, description, completed);
    (Ok(t), Ghost(reads))
}

/// Reads every remaining row of `rows` as a task, in the order the rows
/// come.  With the answer comes a ghost record of the columns read from
/// each row: the `i`-th task is made of the `i`-th row's columns.
pub fn read_rows(rows: &mut Rows<'_>) -> (r: (Result<Vec<Task>, TodoError>, Ghost<Seq<Seq<(usize, SqlArg)>>>))
    ensures
        r.0 matches Ok(v) ==> r.1@.len() == v@.len() && forall|i: int|
            0 <= i < v@.len() ==> #[trigger] r.1@[i] == task_columns(v@[i]@),
        r.0 matches Err(e) ==> e is DatabaseError,
{
    let mut result: Vec<Task> = Vec::new();
    let ghost mut reads: Seq<Seq<(usize, SqlArg)>> = seq![];
    // A vector of tasks cannot grow to `usize::MAX` entries, so the bound
    // only gives the loop a measure.
    while result.len() < usize::MAX
        invariant
            reads.len() == result@.len(),
            forall|i: int| 0 <= i < result@.len() ==> #[trigger] reads[i] == task_columns(
                result@[i]@,
            ),
        decreases usize::MAX - result.len(),
    {
        let row = match next_row(rows) {
            Ok(Some(row)) => row,
            Ok(None) => {
                break ;
            },
            Err(e) => return (Err(sql_error(&e)), Ghost(reads)),
        };
        let (task, Ghost(cols)) = read_task(row);
        match task {
            Ok(t) => {
                proof {
                    reads = reads.push(cols);
                }
                result.push(t);
            },
            Err(e) => return (Err(e), Ghost(reads)),
        }
    }
    (Ok(result), Ghost(reads))
}

/// Tasks kept in an SQLite database, in a table `tasks`.
pub struct SqliteRepo {
    pool: OpenPool,
    /// The statements sent to change the database since it was opened,
    /// with the database's answers.
    written: Ghost<Seq<SqlWrite>>,
    /// What the operations that change the database read from it first,
    /// in order.
    read_log: Ghost<Seq<SqlRead>>,
    /// Whether each attempt of the changing operations to take a
    /// connection from the pool got one, in order.
    conn_log: Ghost<Seq<bool>>,
}

impl SqliteRepo {
    /// The statements sent to change the database since the repository was
    /// opened (setting it up included), in order, with the answers.
    pub closed spec fn writes(&self) -> Seq<SqlWrite> {
        self.written@
    }

    /// What the operations that change the database read from it on the
    /// way (lookups, listings, row ids of insertions), in order.
    pub closed spec fn reads(&self) -> Seq<SqlRead> {
        self.read_log@
    }

    /// For each attempt of the changing operations to take a connection
    /// from the pool (the lookups and listings they make aside), whether it
    /// got one, in order.
    pub closed spec fn connections(&self) -> Seq<bool> {
        self.conn_log@
    }

    /// The most connections the repository's pool holds.
    pub closed spec fn pool_size(&self) -> u32 {
        self.pool.max_size@
    }

    /// Lists every row of `tasks`: sends the listing query and reads each
    /// row it yields as a task, in the order the rows come.  With the
    /// answer comes the record of the query: the answer is `Ok` exactly
    /// when the query went through, and then the query sent is
    /// [`list_statement`] and the `i`-th task is made of the `i`-th row's
    /// columns.
    pub fn list_recorded(&self) -> (r: (Result<Vec<Task>, TodoError>, Ghost<QueryRecord>))
        ensures
            r.1@.ok == r.0 is Ok,
            r.0 matches Ok(v) ==> r.1@.statement == Some(list_statement()) && rows_of(
                r.1@.rows,
                v@,
            ),
            r.0 matches Err(e) ==> e is DatabaseError,
    {
        let ghost none = unsent();
        let conn = match pool_get(&self.pool) {
            Ok(c) => c,
            Err(e) => return (Err(pool_error("Pool err: ", &e)), Ghost(none)),
        };
        let (prepared, Ghost(sql)) = prepare(&conn, LIST_SQL);
        let mut stmt = match prepared {
            Ok(s) => s,
            Err(e) => return (Err(sql_error(&e)), Ghost(none)),
        };
        let (queried, Ghost(args)) = query_plain(&mut stmt);
        let mut rows = match queried {
            Ok(rs) => rs,
            Err(e) => return (Err(sql_error(&e)), Ghost(none)),
        };
        let (listing, Ghost(reads)) = read_rows(&mut rows);
        let ghost rec = QueryRecord {
            statement: Some(SqlStatement { sql, args }),
            rows: reads,
            ok: listing is Ok,
        };
        (listing, Ghost(rec))
    }

    /// Looks the task with identifier `id` up: sends the lookup query for
    /// `id` and reads the first row it yields.  With the answer comes the
    /// record of the query.  The query went through exactly when the answer
    /// is a task or `InvalidIndex(id)`, and then it was [`get_statement`]
    /// of `id`; a task is made of the one row read, and `InvalidIndex(id)`
    /// comes exactly when no row came.  The answer is never `Ok(None)`.
    pub fn get_recorded(&self, id: usize) -> (r: (Result<Option<Task>, TodoError>, Ghost<QueryRecord>))
        ensures
            r.1@.ok == (r.0 is Ok || r.0 == Err::<Option<Task>, TodoError>(
                TodoError::InvalidIndex(id),
            )),
            r.1@.ok ==> r.1@.statement == Some(get_statement(id)),
            r.0 matches Ok(o) ==> o is Some,
            r.0 matches Ok(Some(t)) ==> r.1@.rows == seq![task_columns(t@)],
            r.0 == Err::<Option<Task>, TodoError>(TodoError::InvalidIndex(id)) ==> r.1@.rows.len()
                == 0,
            r.0 matches Err(e) ==> e == TodoError::InvalidIndex(id) || e is DatabaseError,
    {
        let ghost none = unsent();
        let conn = match pool_get(&self.pool) {
            Ok(c) => c,
            Err(e) => return (Err(pool_error("Pool err: ", &e)), Ghost(none)),
        };
        let (prepared, Ghost(sql)) = prepare(&conn, GET_SQL);
        let mut stmt = match prepared {
            Ok(s) => s,
            Err(e) => return (Err(sql_error(&e)), Ghost(none)),
        };
        let (queried, Ghost(args)) = query_with_id(&mut stmt, id);
        let mut rows = match queried {
            Ok(rs) => rs,
            Err(e) => return (Err(sql_error(&e)), Ghost(none)),
        };
        let ghost statement = SqlStatement { sql, args };
        match next_row(&mut rows) {
            Ok(Some(row)) => {
                let (task, Ghost(cols)) = read_task(row);
                let ghost rec = QueryRecord {
                    statement: Some(statement),
                    rows: seq![cols],
                    ok: task is Ok,
                };
                (lookup_result(id, Some(task)), Ghost(rec))
            },
            Ok(None) => {
                let ghost rec = QueryRecord { statement: Some(statement), rows: seq![], ok: true };
                (lookup_result(id, None), Ghost(rec))
            },
            Err(e) => (Err(sql_error(&e)), Ghost(none)),
        }
    }

    /// Counts the rows of `tasks`: sends the count query and hands on the
    /// number it answers.  With the answer comes the record of the query:
    /// when the answer is `Ok(n)`, the query sent is [`count_statement`]
    /// and its one row gave `n` in column 0.
    pub fn count_recorded(&self) -> (r: (Result<usize, TodoError>, Ghost<QueryRecord>))
        ensures
            r.1@.ok == r.0 is Ok,
            r.0 matches Ok(n) ==> r.1@.statement == Some(count_statement()) && r.1@.rows == seq![
                seq![(0usize, SqlArg::Id(n))],
            ],
            r.0 matches Err(e) ==> e is DatabaseError,
    {
        let ghost none = unsent();
        let conn = match pool_get(&self.pool) {
            Ok(c) => c,
            Err(e) => return (Err(pool_error("Pool err: ", &e)), Ghost(none)),
        };
        let (counted, Ghost(statement)) = query_count(&conn, COUNT_SQL);
        match counted {
            Ok(n) => {
                let ghost rec = QueryRecord {
                    statement: Some(statement),
                    rows: seq![seq![(0usize, SqlArg::Id(n))]],
                    ok: true,
                };
                (Ok(n), Ghost(rec))
            },
            Err(e) => (Err(sql_error(&e)), Ghost(none)),
        }
    }
}

impl Clone for SqliteRepo {
    /// Another repository on the same pool.
    fn clone(&self) -> (r: Self)
        ensures
            r.location() == self.location(),
            r.pool_size() == self.pool_size(),
            r.writes() == self.writes(),
            r.reads() == self.reads(),
            r.connections() == self.connections(),
    {
        SqliteRepo {
            pool: OpenPool {
                pool: self.pool.pool.clone(),
                path: self.pool.path,
                max_size: self.pool.max_size,
            },
            written: self.written,
            read_log: self.read_log,
            conn_log: self.conn_log,
        }
    }
}

impl SqliteRepo {
    /// Opens the shared in-memory database named by `random_string`,
    /// `file:<random_string>?mode=memory&cache=shared`, as
    /// [`SqliteRepo::new`] opens a path.
    pub fn new_in_memory(random_string: String) -> (r: Result<Self, TodoError>)
        ensures
            r matches Ok(repo) ==> repo.location() == Some(
                "file:"@ + random_string@ + "?mode=memory&cache=shared"@,
            ) && repo.pool_size() == 10 && repo.writes().len() == 2 && repo.writes()[0] == (
            SqlWrite { statement: setup_statements()[0], outcome: SqlOutcome::Done })
                && repo.writes()[1].statement == setup_statements()[1]
                && repo.writes()[1].outcome is Changed && repo.reads().len() == 0,
            r matches Err(TodoError::DatabaseError(m)) ==> starts_with(
                m,
                "Failed to create pool: "@,
            ) || starts_with(m, "Failed to get connection from pool: "@) || sql_message(m),
            r matches Err(e) ==> e is DatabaseError,
    {
        let path = in_memory_path(random_string.as_str());
        Self::new(path.as_str())
    }

    /// Opens the database at `db_path` with a pool of at most 10
    /// connections, sets its pragmas and creates the table `tasks` if it is
    /// missing (existing rows are kept).  It answers `Ok` only once the pool
    /// is open and both setup statements have run; a failure of the pool is reported
    /// with `Failed to create pool: ` or `Failed to get connection from
    /// pool: ` before the pool's message, one of a statement with the
    /// database's message.
    pub fn new(db_path: &str) -> (r: Result<Self, TodoError>)
        ensures
            r matches Ok(repo) ==> repo.location() == Some(db_path@) && repo.pool_size() == 10
                && repo.writes().len() == 2 && repo.writes()[0] == (SqlWrite {
                statement: setup_statements()[0],
                outcome: SqlOutcome::Done,
            }) && repo.writes()[1].statement == setup_statements()[1]
                && repo.writes()[1].outcome is Changed && repo.reads().len() == 0,
            r matches Err(TodoError::DatabaseError(m)) ==> starts_with(
                m,
                "Failed to create pool: "@,
            ) || starts_with(m, "Failed to get connection from pool: "@) || sql_message(m),
            r matches Err(e) ==> e is DatabaseError,
    {
        let manager = manager_for_file(db_path);
        let pool = match build_pool(manager, 10) {
            Ok(p) => p,
            Err(e) => return Err(pool_error("Failed to create pool: ", &e)),
        };
        let conn = match pool_get(&pool) {
            Ok(c) => c,
            Err(e) => return Err(pool_error("Failed to get connection from pool: ", &e)),
        };
        let (setup, Ghost(setup_sent)) = execute_batch(&conn, SETUP_SQL);
        match setup {
            Ok(()) => {},
            Err(e) => return Err(sql_error(&e)),
        }
        let (create, Ghost(create_sent)) = execute_plain(&conn, CREATE_TABLE_SQL);
        let changed = match create {
            Ok(n) => n,
            Err(e) => return Err(sql_error(&e)),
        };
        let ghost written = seq![
            SqlWrite { statement: setup_sent, outcome: SqlOutcome::Done },
            SqlWrite { statement: create_sent, outcome: SqlOutcome::Changed(changed) },
        ];
        Ok(SqliteRepo { pool, written: Ghost(written), read_log: Ghost(Seq::empty()),
            conn_log: Ghost(Seq::empty()),
        })
    }
}

impl TodoRepository for SqliteRepo {
    open spec fn inv(&self) -> bool {
        true
    }

    open spec fn has_room(&self) -> bool {
        true
    }

    closed spec fn location(&self) -> Option<Seq<char>> {
        Some(self.pool.path@)
    }

    open spec fn store(&self) -> Option<RepoView> {
        None
    }

    fn can_add(&self) -> (b: bool) {
        true
    }

    /// Inserts the task and answers it with the row id the database gave
    /// it.  A refused task sends nothing; otherwise the one statement sent
    /// is the insertion of the title, the description and `false`, and a
    /// task handed back has the row id then read as its identifier.
    fn add_task(&mut self, title: String, description: String) -> (r: Result<Task, TodoError>)
        ensures
            final(self).location() == old(self).location(),
            final(self).pool_size() == old(self).pool_size(),
            is_blank(title@) || is_blank(description@) ==> final(self).writes() == old(self).writes(),
            r is Err ==> final(self).reads() == old(self).reads(),
            r is Ok ==> appended(
                old(self).writes(),
                final(self).writes(),
                insert_statement(title@, description@),
            ) && final(self).writes().last().outcome is Changed,
            r matches Ok(t) ==> exists|rowid: i64|
                read_appended(old(self).reads(), final(self).reads(), SqlRead::RowId(rowid))
                    && t.id == rowid as usize,
            r matches Err(TodoError::DatabaseError(_)) ==> final(self).writes() == old(self).writes()
                || (appended(
                old(self).writes(),
                final(self).writes(),
                insert_statement(title@, description@),
            ) && final(self).writes().last().outcome is Failed),
            is_blank(title@) || is_blank(description@) ==> final(self).connections() == old(self).connections(),
            !is_blank(title@) && !is_blank(description@) ==> {
                &&& final(self).connections().len() == old(self).connections().len() + 1
                &&& final(self).connections().subrange(0, old(self).connections().len() as int)
                    == old(self).connections()
                &&& !final(self).connections().last() ==> (r matches Err(e) && e is DatabaseError)
                    && final(self).writes() == old(self).writes()
                &&& final(self).connections().last() ==> appended(
                    old(self).writes(),
                    final(self).writes(),
                    insert_statement(title@, description@),
                ) && (r is Ok <==> final(self).writes().last().outcome is Changed)
            },
    {
        if is_blank_str(title.as_str()) {
            return Err(TodoError::EmptyTitle);
        }
        if is_blank_str(description.as_str()) {
            return Err(TodoError::EmptyDescription);
        }
        let conn = match pool_get(&self.pool) {
            Ok(c) => c,
            Err(e) => {
                proof {
                    self.conn_log@ = self.conn_log@.push(false);
                    assert(self.conn_log@.subrange(0, old(self).conn_log@.len() as int) =~= old(self).conn_log@);
                }
                return Err(pool_error("Pool error:", &e));
            },
        };
        proof {
            self.conn_log@ = self.conn_log@.push(true);
            assert(self.conn_log@.subrange(0, old(self).conn_log@.len() as int) =~= old(self).conn_log@);
        }
        let (inserted, Ghost(sent)) = execute_with_task(
            &conn,
            INSERT_SQL,
            title.as_str(),
            description.as_str(),
            false,
        );
        proof {
            self.written@ = self.written@.push(
                SqlWrite { statement: sent, outcome: execute_outcome(inserted) },
            );
            assert(self.written@.subrange(0, old(self).written@.len() as int) =~= old(self).written@);
        }
        match inserted {
            Ok(_) => {},
            Err(e) => return Err(sql_error(&e)),
        }
        let rowid = last_insert_rowid(&conn);
        proof {
            self.read_log@ = self.read_log@.push(SqlRead::RowId(rowid));
        }
        let t = inserted_task(rowid, title, description);
        assert(read_appended(old(self).reads(), self.reads(), SqlRead::RowId(rowid)));
        Ok(t)
    }

    /// Every row of `tasks`, by increasing id, each read as a task: the
    /// answer of [`SqliteRepo::list_recorded`].
    fn list_tasks(&self) -> (r: Result<Vec<Task>, TodoError>) {
        let (listing, Ghost(_record)) = self.list_recorded();
        listing
    }

    /// The row with this id, read as a task; `InvalidIndex` when there is
    /// none: the answer of [`SqliteRepo::get_recorded`].
    fn get_task(&self, id: usize) -> (r: Result<Option<Task>, TodoError>) {
        let (found, Ghost(_record)) = self.get_recorded(id);
        found
    }

    /// Looks the task up, then deletes its row.  The lookup is recorded; a
    /// task handed back is the one it read, and then the one statement sent
    /// is the deletion of `id`.  An id the lookup did not find gives
    /// `InvalidIndex` and sends nothing.
    fn remove_task(&mut self, id: usize) -> (r: Result<Option<Task>, TodoError>)
        ensures
            final(self).location() == old(self).location(),
            final(self).pool_size() == old(self).pool_size(),
            query_appended(old(self).reads(), final(self).reads()),
            last_query(final(self).reads()).ok ==> last_query(final(self).reads()).statement == Some(
                get_statement(id),
            ),
            r matches Ok(Some(t)) ==> last_query(final(self).reads()).ok && last_query(
                final(self).reads(),
            ).rows == seq![task_columns(t@)],
            (r == Err::<Option<Task>, TodoError>(TodoError::InvalidIndex(id))) == (last_query(
                final(self).reads(),
            ).ok && last_query(final(self).reads()).rows.len() == 0),
            !last_query(final(self).reads()).ok ==> (r matches Err(e) && e is DatabaseError),
            !(last_query(final(self).reads()).ok && last_query(final(self).reads()).rows.len() == 1)
                ==> final(self).connections() == old(self).connections(),
            last_query(final(self).reads()).ok && last_query(final(self).reads()).rows.len() == 1
                ==> {
                &&& final(self).connections().len() == old(self).connections().len() + 1
                &&& final(self).connections().subrange(0, old(self).connections().len() as int)
                    == old(self).connections()
                &&& !final(self).connections().last() ==> (r matches Err(e) && e is DatabaseError)
                    && final(self).writes() == old(self).writes()
                &&& final(self).connections().last() ==> appended(
                    old(self).writes(),
                    final(self).writes(),
                    delete_statement(id),
                ) && (final(self).writes().last().outcome is Changed ==> (r matches Ok(Some(t))
                    && last_query(final(self).reads()).rows == seq![task_columns(t@)]))
            },
            r is Ok ==> appended(old(self).writes(), final(self).writes(), delete_statement(id))
                && final(self).writes().last().outcome is Changed,
            r == Err::<Option<Task>, TodoError>(TodoError::InvalidIndex(id)) ==> final(self).writes()
                == old(self).writes(),
            r matches Err(TodoError::DatabaseError(_)) ==> final(self).writes() == old(self).writes()
                || (appended(old(self).writes(), final(self).writes(), delete_statement(id))
                && final(self).writes().last().outcome is Failed),
    {
        let (lookup, Ghost(q)) = self.get_recorded(id);
        proof {
            self.read_log@ = self.read_log@.push(SqlRead::Query(q));
            assert(self.read_log@.subrange(0, old(self).read_log@.len() as int) =~= old(self).read_log@);
        }
        let task = match lookup {
            Ok(t) => t,
            Err(e) => return Err(e),
        };
        let conn = match pool_get(&self.pool) {
            Ok(c) => c,
            Err(e) => {
                proof {
                    self.conn_log@ = self.conn_log@.push(false);
                    assert(self.conn_log@.subrange(0, old(self).conn_log@.len() as int) =~= old(self).conn_log@);
                }
                return Err(pool_error("Pool err: ", &e));
            },
        };
        proof {
            self.conn_log@ = self.conn_log@.push(true);
            assert(self.conn_log@.subrange(0, old(self).conn_log@.len() as int) =~= old(self).conn_log@);
        }
        if task.is_some() {
            let (deleted, Ghost(sent)) = execute_with_id(&conn, DELETE_SQL, id);
            proof {
                self.written@ = self.written@.push(
                    SqlWrite { statement: sent, outcome: execute_outcome(deleted) },
                );
                assert(self.written@.subrange(0, old(self).written@.len() as int) =~= old(self).written@);
            }
            match deleted {
                Ok(_) => {},
                Err(e) => return Err(sql_error(&e)),
            }
        }
        Ok(task)
    }

    /// Marks the row done when it is open: the one statement sent is the
    /// update of `id` (after a lookup whose answer is not used).  When it
    /// changed rows the answer is `Ok(true)`; when it changed none, the
    /// task is looked up again, and the answer is `Ok(false)` exactly when
    /// that lookup found it (it was already done), `InvalidIndex` otherwise.
    fn complete_task(&mut self, id: usize) -> (r: Result<bool, TodoError>)
        ensures
            final(self).location() == old(self).location(),
            final(self).pool_size() == old(self).pool_size(),
            !(r matches Err(TodoError::TaskAlreadyComplete(_))),
            final(self).reads().subrange(0, old(self).reads().len() as int) == old(self).reads(),
            final(self).writes() == old(self).writes() || appended(
                old(self).writes(),
                final(self).writes(),
                complete_statement(id),
            ),
            final(self).writes() == old(self).writes() ==> (r matches Err(e) && e is DatabaseError),
            final(self).writes() != old(self).writes() ==> match final(self).writes().last().outcome {
                SqlOutcome::Changed(n) => if n > 0 {
                    r == Ok::<bool, TodoError>(true)
                } else {
                    &&& final(self).reads().last() is Query
                    &&& last_query(final(self).reads()).ok ==> last_query(
                        final(self).reads(),
                    ).statement == Some(get_statement(id))
                    &&& (r == Ok::<bool, TodoError>(false)) == (last_query(final(self).reads()).ok
                        && last_query(final(self).reads()).rows.len() == 1)
                    &&& r != Ok::<bool, TodoError>(false) ==> r == Err::<bool, TodoError>(
                        TodoError::InvalidIndex(id),
                    )
                },
                SqlOutcome::Failed => (r matches Err(e) && e is DatabaseError),
                SqlOutcome::Done => false,
            },
            final(self).connections().len() == old(self).connections().len() + 1,
            final(self).connections().subrange(0, old(self).connections().len() as int) == old(self).connections(),
            !final(self).connections().last() ==> (r matches Err(e) && e is DatabaseError)
                && final(self).writes() == old(self).writes() && final(self).reads() == old(self).reads(),
            final(self).connections().last() ==> appended(
                old(self).writes(),
                final(self).writes(),
                complete_statement(id),
            ),
    {
        let conn = match pool_get(&self.pool) {
            Ok(c) => c,
            Err(e) => {
                proof {
                    self.conn_log@ = self.conn_log@.push(false);
                    assert(self.conn_log@.subrange(0, old(self).conn_log@.len() as int) =~= old(self).conn_log@);
                }
                return Err(pool_error("Pool err: ", &e));
            },
        };
        proof {
            self.conn_log@ = self.conn_log@.push(true);
            assert(self.conn_log@.subrange(0, old(self).conn_log@.len() as int) =~= old(self).conn_log@);
        }
        let (_first, Ghost(first_read)) = self.get_recorded(id);
        proof {
            self.read_log@ = self.read_log@.push(SqlRead::Query(first_read));
        }
        let (updated, Ghost(sent)) = execute_with_id(&conn, COMPLETE_SQL, id);
        proof {
            self.written@ = self.written@.push(
                SqlWrite { statement: sent, outcome: execute_outcome(updated) },
            );
            assert(self.written@.subrange(0, old(self).written@.len() as int) =~= old(self).written@);
            assert(self.written@ != old(self).written@) by {
                assert(self.written@.len() != old(self).written@.len());
            }
        }
        let affected = match updated {
            Ok(n) => n,
            Err(e) => {
                proof {
                    assert(self.read_log@.subrange(0, old(self).read_log@.len() as int) =~= old(self).read_log@);
                }
                return Err(sql_error(&e));
            },
        };
        let found = if affected == 0 {
            let (again, Ghost(again_read)) = self.get_recorded(id);
            proof {
                self.read_log@ = self.read_log@.push(SqlRead::Query(again_read));
            }
            again.is_ok()
        } else {
            true
        };
        proof {
            assert(self.read_log@.subrange(0, old(self).read_log@.len() as int) =~= old(self).read_log@);
        }
        completion_result(id, affected, found)
    }

    /// The number of rows of `tasks`: the answer of
    /// [`SqliteRepo::count_recorded`].
    fn task_count(&self) -> (r: Result<usize, TodoError>) {
        let (counted, Ghost(_record)) = self.count_recorded();
        counted
    }

    /// Lists the table, then deletes every row.  The listing is recorded;
    /// the answer is `AlreadyEmpty` exactly when the listing went through
    /// and found no row, and then nothing is sent.  A listing that failed
    /// does not stop the deletion.
    fn clear_all(&mut self) -> (r: Result<(), TodoError>)
        ensures
            final(self).location() == old(self).location(),
            final(self).pool_size() == old(self).pool_size(),
            final(self).reads() == old(self).reads() || query_appended(
                old(self).reads(),
                final(self).reads(),
            ),
            query_appended(old(self).reads(), final(self).reads()) && last_query(
                final(self).reads(),
            ).ok ==> last_query(final(self).reads()).statement == Some(list_statement()),
            final(self).reads() == old(self).reads() ==> (r matches Err(e) && e is DatabaseError
                && final(self).writes() == old(self).writes()),
            (r == Err::<(), TodoError>(TodoError::AlreadyEmpty)) == (query_appended(
                old(self).reads(),
                final(self).reads(),
            ) && last_query(final(self).reads()).ok && last_query(final(self).reads()).rows.len()
                == 0),
            r == Err::<(), TodoError>(TodoError::AlreadyEmpty) ==> final(self).writes() == old(self).writes(),
            r is Ok ==> appended(old(self).writes(), final(self).writes(), clear_statement())
                && final(self).writes().last().outcome is Changed,
            r matches Err(TodoError::DatabaseError(_)) ==> final(self).writes() == old(self).writes()
                || (appended(old(self).writes(), final(self).writes(), clear_statement())
                && final(self).writes().last().outcome is Failed),
            final(self).connections().len() == old(self).connections().len() + 1,
            final(self).connections().subrange(0, old(self).connections().len() as int) == old(self).connections(),
            !final(self).connections().last() ==> (r matches Err(e) && e is DatabaseError)
                && final(self).writes() == old(self).writes() && final(self).reads() == old(self).reads(),
            final(self).connections().last() ==> query_appended(
                old(self).reads(),
                final(self).reads(),
            ),
            final(self).connections().last() && r != Err::<(), TodoError>(TodoError::AlreadyEmpty)
                ==> appended(old(self).writes(), final(self).writes(), clear_statement()) && (r is Ok
                <==> final(self).writes().last().outcome is Changed),
    {
        let conn = match pool_get(&self.pool) {
            Ok(c) => c,
            Err(e) => {
                proof {
                    self.conn_log@ = self.conn_log@.push(false);
                    assert(self.conn_log@.subrange(0, old(self).conn_log@.len() as int) =~= old(self).conn_log@);
                }
                return Err(pool_error("Pool err: ", &e));
            },
        };
        proof {
            self.conn_log@ = self.conn_log@.push(true);
            assert(self.conn_log@.subrange(0, old(self).conn_log@.len() as int) =~= old(self).conn_log@);
        }
        let (listing, Ghost(q)) = self.list_recorded();
        proof {
            self.read_log@ = self.read_log@.push(SqlRead::Query(q));
            assert(self.read_log@.subrange(0, old(self).read_log@.len() as int) =~= old(self).read_log@);
            assert(self.read_log@ != old(self).read_log@) by {
                assert(self.read_log@.len() != old(self).read_log@.len());
            }
        }
        if clear_refused(&listing) {
            return Err(TodoError::AlreadyEmpty);
        }
        let (deleted, Ghost(sent)) = execute_plain(&conn, CLEAR_SQL);
        proof {
            self.written@ = self.written@.push(
                SqlWrite { statement: sent, outcome: execute_outcome(deleted) },
            );
            assert(self.written@.subrange(0, old(self).written@.len() as int) =~= old(self).written@);
        }
        match deleted {
            Ok(_) => {},
            Err(e) => return Err(sql_error(&e)),
        }
        Ok(())
    }
}

} // verus!
