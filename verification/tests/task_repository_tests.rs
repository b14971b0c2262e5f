use task_service::error::RepositoryError;
use task_service::infrastructure::db::DbPool;
use task_service::infrastructure::task_repository::TaskRepositoryImpl;
use task_service::models::task::{Task, Timestamp};
use task_service::repositories::task_repository::TaskRepository;

fn setup_test_db() -> DbPool {
    DbPool::new()
}

#[test]
fn empty_repository_lists_nothing() {
    let repo = TaskRepositoryImpl::new(setup_test_db());

    let result = repo.find_all().unwrap();

    assert_eq!(result.len(), 0);
}

#[test]
fn test_create_and_find_by_id() {
    let pool = setup_test_db();
    let mut repo = TaskRepositoryImpl::new(pool);

    let title = "テストタスク".to_string();
    let task = Task::new(title.clone());

    let created_task = repo.create(task).unwrap();

    let found_task = repo.find_by_id(created_task.id).unwrap();

    assert!(found_task.is_some());
    let found_task = found_task.unwrap();
    assert_eq!(found_task.id, created_task.id);
    assert_eq!(found_task.title, title);
    assert!(!found_task.completed);

    repo.delete(created_task.id).unwrap();
}

#[test]
fn test_find_all() {
    let pool = setup_test_db();
    let mut repo = TaskRepositoryImpl::new(pool);

    let title1 = "テストタスク1".to_string();
    let task1 = Task::new(title1.clone());
    let title2 = "テストタスク2".to_string();
    let task2 = Task::new(title2.clone());

    let created_task1 = repo.create(task1).unwrap();
    let created_task2 = repo.create(task2).unwrap();

    let tasks = repo.find_all().unwrap();

    assert_eq!(tasks.len(), 2);
    assert_eq!(tasks[0].id, created_task1.id);
    assert_eq!(tasks[0].title, title1);
    assert!(!tasks[0].completed);
    assert_eq!(tasks[1].id, created_task2.id);
    assert_eq!(tasks[1].title, title2);
    assert!(!tasks[1].completed);

    repo.delete(created_task1.id).unwrap();
    repo.delete(created_task2.id).unwrap();
}

#[test]
fn test_update() {
    let pool = setup_test_db();
    let mut repo = TaskRepositoryImpl::new(pool);

    let title = "テストタスク".to_string();
    let task = Task::new(title.clone());

    let created_task = repo.create(task).unwrap();

    let update_task = Task {
        id: created_task.id,
        title: "更新後のタスク".to_string(),
        completed: true,
        created_at: created_task.created_at,
        updated_at: created_task.updated_at,
    };
    let updated_task = repo.update(update_task).unwrap();

    assert_eq!(updated_task.id, created_task.id);
    assert_eq!(updated_task.title, "更新後のタスク");
    assert!(updated_task.completed);

    repo.delete(created_task.id).unwrap();
}

#[test]
fn test_delete() {
    let pool = setup_test_db();
    let mut repo = TaskRepositoryImpl::new(pool);

    let title = "テストタスク".to_string();
    let task = Task::new(title.clone());

    let created_task = repo.create(task).unwrap();

    repo.delete(created_task.id).unwrap();

    let found_task = repo.find_by_id(created_task.id).unwrap();
    assert!(found_task.is_none());
}

fn at(secs: i64) -> Timestamp {
    Timestamp { secs, nanos: 0 }
}

#[test]
fn find_by_id_of_an_id_never_created_is_none() {
    let mut repo = TaskRepositoryImpl::new(DbPool::new());
    assert!(matches!(repo.find_by_id(12345), Ok(None)));
    repo.create(Task::from_parts(1, "a".to_string(), at(1))).unwrap();
    assert!(matches!(repo.find_by_id(12345), Ok(None)));
}

#[test]
fn create_of_a_held_id_is_a_store_failure_and_changes_nothing() {
    let mut repo = TaskRepositoryImpl::new(DbPool::new());
    let first = Task::from_parts(1, "a".to_string(), at(1));
    repo.create(first.clone()).unwrap();
    let r = repo.create(Task::from_parts(1, "b".to_string(), at(2)));
    assert!(matches!(r, Err(RepositoryError::Persistence(_))));
    assert!(!r.unwrap_err().is_not_found());
    assert_eq!(repo.find_all().unwrap(), vec![first]);
}

#[test]
fn update_of_a_missing_id_is_row_not_found_and_changes_nothing() {
    let mut repo = TaskRepositoryImpl::new(DbPool::new());
    let first = Task::from_parts(1, "a".to_string(), at(1));
    repo.create(first.clone()).unwrap();
    let r = repo.update(Task::from_parts(2, "b".to_string(), at(2)));
    assert!(matches!(r, Err(RepositoryError::RowNotFound)));
    assert!(r.unwrap_err().is_not_found());
    assert_eq!(repo.find_all().unwrap(), vec![first]);
}

#[test]
fn delete_of_a_missing_id_succeeds_and_changes_nothing() {
    let mut repo = TaskRepositoryImpl::new(DbPool::new());
    let first = Task::from_parts(1, "a".to_string(), at(1));
    repo.create(first.clone()).unwrap();
    assert!(repo.delete(2).is_ok());
    assert!(repo.delete(2).is_ok());
    assert_eq!(repo.find_all().unwrap(), vec![first]);
}

#[test]
fn find_all_is_stable_between_writes() {
    let mut repo = TaskRepositoryImpl::new(DbPool::new());
    repo.create(Task::from_parts(3, "c".to_string(), at(1))).unwrap();
    repo.create(Task::from_parts(1, "a".to_string(), at(2))).unwrap();
    repo.create(Task::from_parts(2, "b".to_string(), at(3))).unwrap();
    let once = repo.find_all().unwrap();
    let twice = repo.find_all().unwrap();
    assert_eq!(once, twice);
    let ids: Vec<u128> = once.iter().map(|t| t.id).collect();
    assert_eq!(ids, vec![3, 1, 2]);
}

#[test]
fn pool_update_keeps_identity_and_creation_time_and_stamps_with_the_clock() {
    let mut pool = DbPool::new();
    pool.insert(Task::from_parts(1, "a".to_string(), at(10))).unwrap();
    let given = Task {
        id: 1,
        title: "b".to_string(),
        completed: true,
        created_at: at(999),
        updated_at: at(999),
    };
    let stored = pool.update(given, Timestamp { secs: 20, nanos: 7 }).unwrap();
    let expected = Task {
        id: 1,
        title: "b".to_string(),
        completed: true,
        created_at: at(10),
        updated_at: Timestamp { secs: 20, nanos: 7 },
    };
    assert_eq!(stored, expected);
    assert_eq!(pool.select_by_id(1), Some(expected));
    assert_eq!(pool.len(), 1);
}

#[test]
fn pool_update_never_moves_the_stamp_back() {
    let mut pool = DbPool::new();
    pool.insert(Task::from_parts(1, "a".to_string(), at(10))).unwrap();
    let stored = pool.update(Task::from_parts(1, "b".to_string(), at(0)), at(5)).unwrap();
    assert_eq!(stored.updated_at, at(10));
    assert_eq!(stored.created_at, at(10));
    assert_eq!(stored.title, "b");
}

#[test]
fn pool_delete_says_whether_a_row_went_and_keeps_the_order() {
    let mut pool = DbPool::new();
    pool.insert(Task::from_parts(1, "a".to_string(), at(1))).unwrap();
    pool.insert(Task::from_parts(2, "b".to_string(), at(2))).unwrap();
    pool.insert(Task::from_parts(3, "c".to_string(), at(3))).unwrap();
    assert!(pool.delete(2));
    assert!(!pool.delete(2));
    let ids: Vec<u128> = pool.select_all().iter().map(|t| t.id).collect();
    assert_eq!(ids, vec![1, 3]);
    assert_eq!(pool.select_by_id(2), None);
    assert_eq!(pool.len(), 2);
}

#[test]
fn repository_update_stamps_not_before_the_previous_stamp() {
    let mut repo = TaskRepositoryImpl::new(DbPool::new());
    let created = repo.create(Task::new("a".to_string())).unwrap();
    let mut change = created.clone();
    change.completed = true;
    let stored = repo.update(change).unwrap();
    assert!(created.updated_at.not_after(stored.updated_at));
    assert_eq!(stored.created_at, created.created_at);
    assert!(stored.created_at.not_after(stored.updated_at));
}
