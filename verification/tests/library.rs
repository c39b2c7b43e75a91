use todo_app::cli::app::{parse_command, Command};
use todo_app::cli::handlers::{add_feedback, task_list_lines};
use todo_app::cli::input::{accept_number, accept_text, NumberInput};
use todo_app::repository::sqllite::{
    clear_refused, completion_result, in_memory_path, inserted_task, lookup_result,
    task_from_columns, SqliteRepo,
};
use todo_app::repository::{create_repository, InMemoryRepo, RepositoryConfig, TodoRepository};
use todo_app::text::{append_decimal, is_blank_str, is_whitespace, parse_usize, trim};
use todo_app::{Task, TodoError, TodoList};

fn task(id: usize, title: &str, description: &str, completed: bool) -> Task {
    Task {
        id,
        description: description.to_string(),
        title: title.to_string(),
        completed,
    }
}

#[test]
fn added_task_reads_back() {
    let mut repo = InMemoryRepo::new();
    let added = repo.add_task("buy".to_string(), "milk".to_string()).unwrap();
    assert_eq!(added, task(1, "buy", "milk", false));
    assert_eq!(repo.get_task(1), Ok(Some(task(1, "buy", "milk", false))));
}

#[test]
fn ids_increase_and_stay_unique() {
    let mut repo = InMemoryRepo::new();
    let a = repo.add_task("a".to_string(), "x".to_string()).unwrap();
    let b = repo.add_task("b".to_string(), "y".to_string()).unwrap();
    let _ = repo.remove_task(b.id);
    let c = repo.add_task("c".to_string(), "z".to_string()).unwrap();
    assert_eq!((a.id, b.id, c.id), (1, 2, 3));
}

#[test]
fn refused_addition_changes_nothing() {
    let mut repo = InMemoryRepo::new();
    let _ = repo.add_task("a".to_string(), "x".to_string());
    assert_eq!(
        repo.add_task(" \t\u{3000}".to_string(), "x".to_string()),
        Err(TodoError::EmptyTitle)
    );
    assert_eq!(
        repo.add_task("t".to_string(), "\n ".to_string()),
        Err(TodoError::EmptyDescription)
    );
    assert_eq!(
        repo.add_task("".to_string(), "".to_string()),
        Err(TodoError::EmptyTitle)
    );
    assert_eq!(repo.task_count(), Ok(1));
    let next = repo.add_task("b".to_string(), "y".to_string()).unwrap();
    assert_eq!(next.id, 2);
}

#[test]
fn removed_task_is_handed_back_and_gone() {
    let mut repo = InMemoryRepo::new();
    let _ = repo.add_task("a".to_string(), "x".to_string());
    let _ = repo.add_task("b".to_string(), "y".to_string());
    assert_eq!(repo.remove_task(1), Ok(Some(task(1, "a", "x", false))));
    assert_eq!(repo.get_task(1), Err(TodoError::InvalidIndex(1)));
    assert_eq!(repo.get_task(2), Ok(Some(task(2, "b", "y", false))));
    assert_eq!(repo.remove_task(1), Err(TodoError::InvalidIndex(1)));
    assert_eq!(repo.task_count(), Ok(1));
}

#[test]
fn completing_twice_is_refused() {
    let mut repo = InMemoryRepo::new();
    let _ = repo.add_task("a".to_string(), "x".to_string());
    let _ = repo.add_task("b".to_string(), "y".to_string());
    assert_eq!(repo.complete_task(2), Ok(true));
    assert_eq!(repo.get_task(2), Ok(Some(task(2, "b", "y", true))));
    assert_eq!(repo.get_task(1), Ok(Some(task(1, "a", "x", false))));
    assert_eq!(repo.complete_task(2), Err(TodoError::TaskAlreadyComplete(2)));
    assert_eq!(repo.task_count(), Ok(2));
}

#[test]
fn clearing_restarts_ids() {
    let mut repo = InMemoryRepo::new();
    let _ = repo.add_task("a".to_string(), "x".to_string());
    let _ = repo.add_task("b".to_string(), "y".to_string());
    assert_eq!(repo.clear_all(), Ok(()));
    assert_eq!(repo.clear_all(), Err(TodoError::AlreadyEmpty));
    assert_eq!(repo.list_tasks(), Ok(vec![]));
    let t = repo.add_task("c".to_string(), "z".to_string()).unwrap();
    assert_eq!(t.id, 1);
}

#[test]
fn listing_matches_count_and_order() {
    let mut repo = InMemoryRepo::new();
    let _ = repo.add_task("a".to_string(), "x".to_string());
    let _ = repo.add_task("b".to_string(), "y".to_string());
    let _ = repo.add_task("c".to_string(), "z".to_string());
    let _ = repo.remove_task(2);
    let listed = repo.list_tasks().unwrap();
    assert_eq!(listed, vec![task(1, "a", "x", false), task(3, "c", "z", false)]);
    assert_eq!(repo.task_count(), Ok(listed.len()));
}

#[test]
fn default_repository_starts_at_zero() {
    let mut repo = InMemoryRepo::default();
    let t = repo.add_task("a".to_string(), "x".to_string()).unwrap();
    assert_eq!(t.id, 0);
    let list = TodoList::default();
    assert_eq!(list.tasks.len(), 0);
    assert_eq!(list.next_id, 0);
}

#[test]
fn task_text() {
    let mut t = task(4, "buy", "milk", false);
    assert_eq!(t.to_string(), "[O] buy-milk");
    t.completed = true;
    assert_eq!(t.to_string(), "[\u{2713}] buy-milk");
    assert_eq!(t.clone(), t);
}

#[test]
fn error_text() {
    assert_eq!(TodoError::EmptyTitle.to_string(), "Title canot be empty");
    assert_eq!(TodoError::EmptyDescription.to_string(), "Description cannot be empty");
    assert_eq!(TodoError::InvalidIndex(0).to_string(), "Invalid task index: 0");
    assert_eq!(TodoError::InvalidIndex(1207).to_string(), "Invalid task index: 1207");
    assert_eq!(
        TodoError::InvalidIndex(usize::MAX).to_string(),
        format!("Invalid task index: {}", usize::MAX)
    );
    assert_eq!(TodoError::TaskAlreadyComplete(3).to_string(), "task alreay complete ");
    assert_eq!(TodoError::AlreadyEmpty.to_string(), "todo list already empty");
    assert_eq!(TodoError::DatabaseError("x".to_string()).to_string(), "database err");
}

#[test]
fn config_text() {
    assert_eq!(RepositoryConfig::InMemory.to_string(), "InMemory");
    assert_eq!(
        RepositoryConfig::File { path: "a.db".to_string() }.to_string(),
        "File(a.db)"
    );
    assert_eq!(
        RepositoryConfig::Sqllite { path: "b.db".to_string() }.to_string(),
        "SQLite(b.db)"
    );
}

#[test]
fn in_memory_configuration_gives_a_working_repository() {
    let mut repo = create_repository(&RepositoryConfig::InMemory).unwrap();
    assert_eq!(repo.task_count(), Ok(0));
    let t = repo.add_task("a".to_string(), "x".to_string()).unwrap();
    assert_eq!(t.id, 1);
    assert_eq!(repo.list_tasks(), Ok(vec![task(1, "a", "x", false)]));
}

#[test]
fn whitespace_and_trim() {
    assert!(is_whitespace(' '));
    assert!(is_whitespace('\u{85}'));
    assert!(is_whitespace('\u{2029}'));
    assert!(!is_whitespace('a'));
    assert!(!is_whitespace('\u{200b}'));
    assert_eq!(trim("  a b \t\n"), "a b");
    assert_eq!(trim("\u{3000}x\u{a0}"), "x");
    assert_eq!(trim(" \t "), "");
    assert_eq!(trim(""), "");
    assert!(is_blank_str(""));
    assert!(is_blank_str(" \u{2003}\r"));
    assert!(!is_blank_str(" . "));
}

#[test]
fn decimal_text() {
    let mut s = String::from("n=");
    append_decimal(&mut s, 0);
    append_decimal(&mut s, 90);
    assert_eq!(s, "n=090");
}

#[test]
fn number_parsing() {
    assert_eq!(parse_usize("42"), Some(42));
    assert_eq!(parse_usize("+7"), Some(7));
    assert_eq!(parse_usize("007"), Some(7));
    assert_eq!(parse_usize("-7"), None);
    assert_eq!(parse_usize("+"), None);
    assert_eq!(parse_usize(""), None);
    assert_eq!(parse_usize("4 2"), None);
    assert_eq!(parse_usize("\u{ff11}"), None);
    let max = usize::MAX.to_string();
    assert_eq!(parse_usize(&max), Some(usize::MAX));
    let over = format!("{}0", usize::MAX);
    assert_eq!(parse_usize(&over), None);
    for s in ["0", "+3", "-3", "12a", "99999999999999999999999"] {
        assert_eq!(parse_usize(s), s.parse::<usize>().ok());
    }
}

#[test]
fn commands() {
    assert_eq!(parse_command(" quit\n"), Command::Quit);
    assert_eq!(parse_command("exit"), Command::Quit);
    assert_eq!(parse_command("list"), Command::List);
    assert_eq!(parse_command("\tadd "), Command::Add);
    assert_eq!(parse_command("complete task"), Command::Complete);
    assert_eq!(parse_command("complete"), Command::Complete);
    assert_eq!(parse_command("complete  task"), Command::Unknown);
    assert_eq!(parse_command("LIST"), Command::Unknown);
    assert_eq!(parse_command(""), Command::Unknown);
}

#[test]
fn text_input() {
    assert_eq!(accept_text("  milk \n"), Some("milk".to_string()));
    assert_eq!(accept_text(" \n"), None);
}

#[test]
fn number_input() {
    assert_eq!(accept_number(" 12\n"), NumberInput::Number(12));
    assert_eq!(accept_number("  \n"), NumberInput::Empty);
    assert_eq!(accept_number("twelve\n"), NumberInput::Invalid);
    assert_eq!(accept_number("-1"), NumberInput::Invalid);
}

#[test]
fn addition_feedback() {
    assert_eq!(
        add_feedback(&Ok(task(1, "a", "b", false))),
        "\u{2713} Task added successfully!"
    );
    assert_eq!(
        add_feedback(&Err(TodoError::EmptyTitle)),
        "\u{274c} Title canot be empty."
    );
    assert_eq!(
        add_feedback(&Err(TodoError::EmptyDescription)),
        "\u{274c} Description cannot be empty,"
    );
    assert_eq!(
        add_feedback(&Err(TodoError::InvalidIndex(5))),
        "\u{274c} Error Invalid task index: 5."
    );
}

#[test]
fn list_lines() {
    let tasks = vec![task(7, "a", "x", false), task(9, "b", "y", true)];
    assert_eq!(
        task_list_lines(&tasks),
        vec!["  1,[O] a-x".to_string(), "  2,[\u{2713}] b-y".to_string()]
    );
    assert_eq!(task_list_lines(&vec![]), Vec::<String>::new());
}

#[test]
fn sqlite_path_and_answers() {
    assert_eq!(in_memory_path("abc"), "file:abc?mode=memory&cache=shared");
    assert_eq!(
        task_from_columns(3, "t".to_string(), "d".to_string(), true),
        task(3, "t", "d", true)
    );
    assert_eq!(
        inserted_task(5, "t".to_string(), "d".to_string()),
        task(5, "t", "d", false)
    );
    assert_eq!(completion_result(3, 1, false), Ok(true));
    assert_eq!(completion_result(3, 0, true), Ok(false));
    assert_eq!(completion_result(3, 0, false), Err(TodoError::InvalidIndex(3)));
    assert_eq!(lookup_result(4, None), Err(TodoError::InvalidIndex(4)));
    assert_eq!(
        lookup_result(4, Some(Ok(task(4, "t", "d", true)))),
        Ok(Some(task(4, "t", "d", true)))
    );
    assert_eq!(
        lookup_result(4, Some(Err(TodoError::DatabaseError("e".to_string())))),
        Err(TodoError::DatabaseError("e".to_string()))
    );
    assert!(clear_refused(&Ok(vec![])));
    assert!(!clear_refused(&Ok(vec![task(1, "a", "b", false)])));
    assert!(!clear_refused(&Err(TodoError::DatabaseError("e".to_string()))));
}

#[test]
fn sqlite_repository_round_trip() {
    let mut repo = SqliteRepo::new_in_memory(uuid::Uuid::new_v4().to_string()).unwrap();
    assert_eq!(
        repo.add_task(" ".to_string(), "d".to_string()),
        Err(TodoError::EmptyTitle)
    );
    assert_eq!(
        repo.add_task("t".to_string(), "".to_string()),
        Err(TodoError::EmptyDescription)
    );
    assert_eq!(repo.task_count(), Ok(0));
    let a = repo.add_task("a".to_string(), "x".to_string()).unwrap();
    let b = repo.add_task("b".to_string(), "y".to_string()).unwrap();
    assert_eq!((a.id, b.id), (1, 2));
    assert_eq!(repo.get_task(2), Ok(Some(task(2, "b", "y", false))));
    assert_eq!(repo.complete_task(2), Ok(true));
    assert_eq!(repo.complete_task(2), Ok(false));
    assert_eq!(repo.get_task(2), Ok(Some(task(2, "b", "y", true))));
    assert_eq!(repo.remove_task(1), Ok(Some(task(1, "a", "x", false))));
    assert_eq!(repo.get_task(1), Err(TodoError::InvalidIndex(1)));
    assert_eq!(repo.list_tasks(), Ok(vec![task(2, "b", "y", true)]));
    assert_eq!(repo.list_recorded().0, Ok(vec![task(2, "b", "y", true)]));
    assert_eq!(repo.get_recorded(2).0, Ok(Some(task(2, "b", "y", true))));
    assert_eq!(repo.get_recorded(7).0, Err(TodoError::InvalidIndex(7)));
    assert_eq!(repo.count_recorded().0, Ok(1));
    let copy = repo.clone();
    assert_eq!(copy.task_count(), Ok(1));
    assert_eq!(repo.clear_all(), Ok(()));
    assert_eq!(repo.clear_all(), Err(TodoError::AlreadyEmpty));
}
