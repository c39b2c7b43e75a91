use todo_app::repository::sqllite::SqliteRepo;
use todo_app::repository::TodoRepository;
use todo_app::{Task, TodoError};

fn setup_test_repo() -> SqliteRepo {
    let random_id = uuid::Uuid::new_v4().to_string();
    SqliteRepo::new_in_memory(random_id).unwrap()
}

#[test]
#[allow(unused_mut, unused_variables)]
fn sqllite_test_add_task_validation_description() {
    let mut repo = setup_test_repo();
    let err = repo
        .add_task("title".to_string(), "".to_string())
        .unwrap_err();
    assert!(matches!(err, TodoError::EmptyDescription));
}

#[test]
#[allow(unused_mut, unused_variables)]
fn sqllite_test_add_task() {
    let title = "title".to_string();
    let description = "desc".to_string();
    let mut repo = setup_test_repo();
    let task = repo.add_task(title, description).unwrap();
    assert!(matches!(
        task,
        Task {
            id: 1,
            title,
            description,
            completed: false
        }
    ));
}

#[test]
#[allow(unused_mut, unused_variables)]
fn sqllite_test_list_tasks() {
    let mut title = "title".to_string();
    let mut description = "desc".to_string();

    let mut repo = setup_test_repo();
    let _ = repo.add_task(title, description);
    title = "title1".to_string();
    description = "description2".to_string();
    let _ = repo.add_task(title, description);
    let tasks = repo.list_tasks().unwrap();
    assert!(matches!(tasks.len(), 2));
}

#[test]
#[allow(unused_mut, unused_variables)]
fn sqllite_test_list_tasks_empty() {
    let repo = setup_test_repo();

    let tasks = repo.list_tasks().unwrap();
    assert!(matches!(tasks.len(), 0));
}

#[test]
#[allow(unused_mut, unused_variables)]
fn sqllite_test_get_task() {
    let mut title = "title".to_string();
    let mut description = "desc".to_string();

    let mut repo = setup_test_repo();
    let _ = repo.add_task(title, description);
    title = "title1".to_string();
    description = "description2".to_string();
    let task_create = repo.add_task(title, description).unwrap();
    let _task = repo.get_task(1).unwrap();
    assert!(matches!(task_create, _task));
}

#[test]
#[allow(unused_mut, unused_variables)]
fn sqllite_test_get_task_not_found() {
    let repo = setup_test_repo();

    let _err = repo.get_task(1).unwrap_err();
    assert!(matches!(TodoError::InvalidIndex(1), _err));
}

#[test]
#[allow(unused_mut, unused_variables)]
fn sqllite_test_remove_task() {
    let mut title = "title".to_string();
    let mut description = "desc".to_string();

    let mut repo = setup_test_repo();
    let _ = repo.add_task(title, description);
    title = "title1".to_string();
    description = "description2".to_string();
    let _ = repo.add_task(title, description);
    let _ = repo.remove_task(1);
    let tasks = repo.list_tasks();
    match tasks {
        Ok(tasks) => assert!(matches!(tasks.len(), 1)),
        Err(e) => assert!(matches!(e, TodoError::InvalidIndex(0))),
    }
}

#[test]
#[allow(unused_mut, unused_variables)]
fn sqllite_test_remove_task_not_found() {
    let mut title = "title".to_string();
    let mut description = "desc".to_string();

    let mut repo = setup_test_repo();
    let _ = repo.add_task(title, description);
    title = "title1".to_string();
    description = "description2".to_string();
    let _ = repo.add_task(title, description);
    let task = repo.remove_task(0);

    assert_eq!(task, Err(TodoError::InvalidIndex(0)));
}

#[test]
#[allow(unused_mut, unused_variables)]
fn sqllite_test_complete_task() {
    let mut title = "title".to_string();
    let mut description = "desc".to_string();

    let mut repo = setup_test_repo();
    let _ = repo.add_task(title, description);
    title = "title1".to_string();
    description = "description2".to_string();
    let task = repo.add_task(title, description).unwrap();

    let is_complete = repo.complete_task(task.id);

    assert_eq!(is_complete, Ok(true));
}

#[test]
#[allow(unused_mut, unused_variables)]
fn sqllite_test_complete_task_not_found() {
    let mut title = "title".to_string();
    let mut description = "desc".to_string();

    let mut repo = setup_test_repo();
    let _ = repo.add_task(title, description);
    title = "title1".to_string();
    description = "description2".to_string();
    repo.add_task(title, description).unwrap();

    let is_complete = repo.complete_task(0);

    assert_eq!(is_complete, Err(TodoError::InvalidIndex(0)));
}

#[test]
#[allow(unused_mut, unused_variables)]
fn sqllite_test_task_count() {
    let mut title = "title".to_string();
    let mut description = "desc".to_string();

    let mut repo = setup_test_repo();
    let _ = repo.add_task(title, description);
    title = "title1".to_string();
    description = "description2".to_string();
    let _ = repo.add_task(title, description);

    let count = repo.task_count();

    assert_eq!(count, Ok(2))
}

#[test]
#[allow(unused_mut, unused_variables)]
fn sqllite_test_task_clear() {
    let mut title = "title".to_string();
    let mut description = "desc".to_string();

    let mut repo = setup_test_repo();
    let _ = repo.add_task(title, description);
    title = "title1".to_string();
    description = "description2".to_string();
    let _ = repo.add_task(title, description);

    let _ = repo.clear_all();

    assert_eq!(repo.task_count(), Ok(0));
}

#[test]
#[allow(unused_mut, unused_variables)]
fn sqllite_test_task_clear_already_empty() {
    let mut repo = setup_test_repo();

    let is_cleared = repo.clear_all();

    assert_eq!(is_cleared, Err(TodoError::AlreadyEmpty));
}
