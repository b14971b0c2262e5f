use task_service::error::{AppError, RepositoryError};
use task_service::infrastructure::db::DbPool;
use task_service::infrastructure::task_repository::TaskRepositoryImpl;
use task_service::models::task::{Task, Timestamp};
use task_service::routes::hello::hello_handler;
use task_service::routes::tasks::{
    create_reply, create_task, delete_reply, delete_task, get_task, get_tasks, list_reply,
    lookup_reply, update_reply, update_task, AppState, Body, CreateTaskRequest, Reply,
    TaskResponse, UpdateTaskRequest,
};
use task_service::usecase::task_usecase::TaskUsecase;

fn sample(id: u128, title: &str, completed: bool) -> Task {
    Task {
        id,
        title: title.to_string(),
        completed,
        created_at: Timestamp { secs: 1, nanos: 0 },
        updated_at: Timestamp { secs: 2, nanos: 0 },
    }
}

fn failure() -> RepositoryError {
    RepositoryError::Persistence("password authentication failed for postgres://u:p@h/db".to_string())
}

fn text_of(reply: &Reply) -> &str {
    match &reply.body {
        Body::Text(t) => t.as_str(),
        other => panic!("expected a text body, got {:?}", other),
    }
}

fn shown(reply: &Reply) -> (u128, &str, bool) {
    match &reply.body {
        Body::Task(t) => (t.id, t.title.as_str(), t.completed),
        other => panic!("expected a task body, got {:?}", other),
    }
}

#[test]
fn task_response_shows_id_title_and_flag() {
    let response = TaskResponse::from(sample(9, "A", true));
    assert_eq!(response.id, 9);
    assert_eq!(response.title, "A");
    assert!(response.completed);
}

#[test]
fn list_reply_maps_outcomes() {
    let reply = list_reply(Ok(vec![sample(1, "A", false), sample(2, "B", true)]));
    assert_eq!(reply.status, 200);
    match &reply.body {
        Body::Tasks(ts) => {
            assert_eq!(ts.len(), 2);
            assert_eq!((ts[0].id, ts[0].title.as_str(), ts[0].completed), (1, "A", false));
            assert_eq!((ts[1].id, ts[1].title.as_str(), ts[1].completed), (2, "B", true));
        }
        other => panic!("expected a list, got {:?}", other),
    }
    let reply = list_reply(Ok(vec![]));
    assert_eq!(reply.status, 200);
    assert!(matches!(&reply.body, Body::Tasks(ts) if ts.is_empty()));
    let reply = list_reply(Err(failure()));
    assert_eq!(reply.status, 500);
    assert_eq!(text_of(&reply), "Failed to fetch todos");
}

#[test]
fn lookup_reply_maps_outcomes() {
    let reply = lookup_reply(Ok(Some(sample(1, "A", false))));
    assert_eq!(reply.status, 200);
    assert_eq!(shown(&reply), (1, "A", false));
    let reply = lookup_reply(Ok(None));
    assert_eq!(reply.status, 404);
    assert_eq!(text_of(&reply), "Task not found");
    let reply = lookup_reply(Err(failure()));
    assert_eq!(reply.status, 500);
    assert_eq!(text_of(&reply), "Failed to fetch todo");
}

#[test]
fn create_reply_maps_outcomes() {
    let reply = create_reply(Ok(sample(1, "A", false)));
    assert_eq!(reply.status, 201);
    assert_eq!(shown(&reply), (1, "A", false));
    let reply = create_reply(Err(failure()));
    assert_eq!(reply.status, 500);
    assert_eq!(text_of(&reply), "Failed to create todo");
}

#[test]
fn update_reply_maps_outcomes() {
    let reply = update_reply(Ok(sample(1, "A", true)));
    assert_eq!(reply.status, 200);
    assert_eq!(shown(&reply), (1, "A", true));
    let reply = update_reply(Err(RepositoryError::RowNotFound));
    assert_eq!(reply.status, 404);
    assert_eq!(text_of(&reply), "Task not found");
    let reply = update_reply(Err(failure()));
    assert_eq!(reply.status, 500);
    assert_eq!(text_of(&reply), "Failed to update todo");
}

#[test]
fn delete_reply_maps_outcomes() {
    let reply = delete_reply(Ok(()));
    assert_eq!(reply.status, 204);
    assert!(matches!(reply.body, Body::Empty));
    let reply = delete_reply(Err(RepositoryError::RowNotFound));
    assert_eq!(reply.status, 404);
    assert_eq!(text_of(&reply), "Task not found");
    let reply = delete_reply(Err(failure()));
    assert_eq!(reply.status, 500);
    assert_eq!(text_of(&reply), "Failed to delete todo");
}

#[test]
fn failure_detail_never_reaches_a_reply() {
    for reply in [
        list_reply(Err(failure())),
        lookup_reply(Err(failure())),
        create_reply(Err(failure())),
        update_reply(Err(failure())),
        delete_reply(Err(failure())),
    ] {
        assert_eq!(reply.status, 500);
        assert!(!text_of(&reply).contains("postgres"));
        assert!(!text_of(&reply).contains("password"));
    }
}

#[test]
fn handlers_run_the_whole_pipeline() {
    let mut state = AppState {
        task_service: TaskUsecase::new(TaskRepositoryImpl::new(DbPool::new())),
    };

    let reply = get_tasks(&state);
    assert_eq!(reply.status, 200);
    assert!(matches!(&reply.body, Body::Tasks(ts) if ts.is_empty()));

    let reply = create_task(&mut state, CreateTaskRequest { title: "A".to_string() });
    assert_eq!(reply.status, 201);
    let (id, title, completed) = shown(&reply);
    assert_eq!(title, "A");
    assert!(!completed);
    assert_ne!(id, 0);

    let reply = get_task(&state, id);
    assert_eq!(reply.status, 200);
    assert_eq!(shown(&reply), (id, "A", false));

    let reply = update_task(
        &mut state,
        id,
        UpdateTaskRequest { title: None, completed: Some(true) },
    );
    assert_eq!(reply.status, 200);
    assert_eq!(shown(&reply), (id, "A", true));

    let reply = update_task(
        &mut state,
        id + 1,
        UpdateTaskRequest { title: Some("B".to_string()), completed: None },
    );
    assert_eq!(reply.status, 404);
    assert_eq!(text_of(&reply), "Task not found");

    let reply = get_tasks(&state);
    assert_eq!(reply.status, 200);
    assert!(matches!(&reply.body, Body::Tasks(ts) if ts.len() == 1 && ts[0].completed));

    let reply = delete_task(&mut state, id);
    assert_eq!(reply.status, 204);
    assert!(matches!(reply.body, Body::Empty));

    let reply = get_task(&state, id);
    assert_eq!(reply.status, 404);
    assert_eq!(text_of(&reply), "Task not found");

    let reply = delete_task(&mut state, id);
    assert_eq!(reply.status, 204);
}

#[test]
fn hello_says_hello() {
    assert_eq!(hello_handler(), "Hello Rust World");
}

#[test]
fn app_error_maps_to_status_and_fixed_text() {
    let (status, text) = AppError::NotFound.into_response();
    assert_eq!((status, text.as_str()), (404, "User not found"));
    let (status, text) = AppError::InternalError.into_response();
    assert_eq!((status, text.as_str()), (500, "Internal server error"));
    let (status, text) = AppError::ExternalApiError("dns failure".to_string()).into_response();
    assert_eq!((status, text.as_str()), (500, "External API error"));
    assert_eq!(AppError::NotFound.status(), 404);
    assert_eq!(AppError::InternalError.message(), "Internal server error");
}

#[test]
fn upstream_404_is_not_found_and_nothing_else_is() {
    assert!(matches!(AppError::from_upstream_status(404), Some(AppError::NotFound)));
    assert!(AppError::from_upstream_status(200).is_none());
    assert!(AppError::from_upstream_status(500).is_none());
    assert!(AppError::from_upstream_status(403).is_none());
}
