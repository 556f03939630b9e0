use axum_app::error::{AppError, AppErrorKind, ErrorLocation, ErrorSource, ResultExt};
use axum_app::handlers::{
    create_todo_payload, create_todo_reply, list_todos_reply, todo_location, todo_reply,
    update_todo_payload,
};
use axum_app::health::health_check;
use axum_app::response::{
    ApiCreatedResponse, ApiDataResponse, ApiError, ApiErrorResponse, MapApiError,
};
use axum_app::todos::{Todo, TodoCreateInput, TodoUpdateInput};

const ID: u128 = 0x67e5_5044_10b1_426f_9247_bb68_0e5f_e0c8;

fn todo() -> Todo {
    Todo {
        id: ID,
        title: "write tests".to_string(),
        completed: false,
        created_at: 1_700_000_000_000_000,
        updated_at: 1_700_000_000_000_000,
    }
}

fn here(line: u32) -> ErrorLocation {
    ErrorLocation { file: "service.rs".to_string(), line, column: 9 }
}

fn row_not_found() -> AppError {
    AppError::from_source(AppErrorKind::Database, ErrorSource::RowNotFound, here(10))
}

fn other_failure() -> AppError {
    AppError::from_source(
        AppErrorKind::Database,
        ErrorSource::Other("connection reset".to_string()),
        here(20),
    )
}

#[test]
fn error_response_has_error_status() {
    let r = ApiErrorResponse::new("bad_request", "title cannot be empty".to_string());
    assert_eq!(r.status, "error");
    assert_eq!(r.code, "bad_request");
    assert_eq!(r.message, "title cannot be empty");
}

#[test]
fn bad_request_answer() {
    let (status, body) = ApiError::BadRequest("oops".to_string()).into_error_response();
    assert_eq!(status, 400);
    assert_eq!(body.status, "error");
    assert_eq!(body.code, "bad_request");
    assert_eq!(body.message, "oops");
}

#[test]
fn not_found_answer() {
    let (status, body) = ApiError::NotFound("todo not found".to_string()).into_error_response();
    assert_eq!(status, 404);
    assert_eq!(body.code, "not_found");
    assert_eq!(body.message, "todo not found");
}

#[test]
fn conflict_answer() {
    let (status, body) = ApiError::Conflict("taken".to_string()).into_error_response();
    assert_eq!(status, 409);
    assert_eq!(body.code, "conflict");
    assert_eq!(body.message, "taken");
}

#[test]
fn internal_answer_hides_cause() {
    let (status, body) = ApiError::Internal.into_error_response();
    assert_eq!(status, 500);
    assert_eq!(body.code, "internal_server_error");
    assert_eq!(body.message, "internal server error");
    assert_eq!(ApiError::Internal.message(), "internal server error");
}

#[test]
fn map_api_err_passes_success() {
    let r: Result<u32, AppError> = Ok(7);
    assert!(matches!(r.map_api_err(), Ok(7)));
}

#[test]
fn map_api_err_hides_failure() {
    let r: Result<u32, AppError> = Err(row_not_found());
    assert!(matches!(r.map_api_err(), Err(ApiError::Internal)));
}

#[test]
fn map_api_not_found_on_missing_row() {
    let r: Result<u32, AppError> = Err(row_not_found());
    match r.map_api_not_found("todo not found".to_string()) {
        Err(ApiError::NotFound(m)) => assert_eq!(m, "todo not found"),
        other => panic!("unexpected {:?}", other.err()),
    }
}

#[test]
fn map_api_not_found_on_other_failure() {
    let r: Result<u32, AppError> = Err(other_failure());
    assert!(matches!(r.map_api_not_found("x".to_string()), Err(ApiError::Internal)));
}

#[test]
fn app_err_wraps_source() {
    let r: Result<u8, ErrorSource> = Err(ErrorSource::RowNotFound);
    let e = r.app_err(AppErrorKind::Database, here(42)).unwrap_err();
    assert_eq!(e.kind(), AppErrorKind::Database);
    assert_eq!(e.file(), "service.rs");
    assert_eq!(e.line(), 42);
    assert_eq!(e.column(), 9);
    assert!(e.is_row_not_found());
    assert!(matches!(e.source(), Some(ErrorSource::RowNotFound)));
    let ok: Result<u8, ErrorSource> = Ok(3);
    assert_eq!(ok.app_err(AppErrorKind::Config, here(1)).unwrap(), 3);
}

#[test]
fn app_error_messages() {
    assert_eq!(AppErrorKind::Config.message(), "failed to load application configuration");
    assert_eq!(AppErrorKind::Bind.message(), "failed to bind TCP listener");
    assert_eq!(AppErrorKind::Serve.message(), "HTTP server terminated unexpectedly");
    assert_eq!(other_failure().message(), "database operation failed");
    assert!(!other_failure().is_row_not_found());
}

#[test]
fn data_response_envelope() {
    let d = ApiDataResponse::ok(5u8);
    assert_eq!(d.status, "success");
    assert_eq!(d.data, 5);
    assert_eq!(d.status_code(), 200);
    let n = ApiDataResponse::new("x");
    assert_eq!(n.status, "success");
}

#[test]
fn created_response_envelope() {
    let c = ApiCreatedResponse::new(1u8, Some("/here".to_string()));
    assert_eq!(c.status_code(), 201);
    assert_eq!(c.body.status, "success");
    assert_eq!(c.location.as_deref(), Some("/here"));
}

#[test]
fn location_uses_hyphenated_uuid() {
    assert_eq!(todo_location(ID), "/api/todos/67e55044-10b1-426f-9247-bb680e5fe0c8");
    assert_eq!(todo_location(0), "/api/todos/00000000-0000-0000-0000-000000000000");
}

#[test]
fn create_reply_success() {
    let c = create_todo_reply(Ok(todo())).unwrap();
    assert_eq!(c.status_code(), 201);
    assert_eq!(c.body.data.title, "write tests");
    assert_eq!(c.location.as_deref(), Some("/api/todos/67e55044-10b1-426f-9247-bb680e5fe0c8"));
}

#[test]
fn create_reply_failure() {
    assert!(matches!(create_todo_reply(Err(other_failure())), Err(ApiError::Internal)));
}

#[test]
fn create_payload_rejected() {
    match create_todo_payload(TodoCreateInput { title: "  ".to_string() }) {
        Err(ApiError::BadRequest(m)) => assert_eq!(m, "title cannot be empty"),
        _ => panic!("expected a bad request"),
    }
}

#[test]
fn create_payload_accepted() {
    let v = create_todo_payload(TodoCreateInput { title: " write tests ".to_string() }).unwrap();
    assert_eq!(v.title, "write tests");
}

#[test]
fn update_payload_rejected() {
    match update_todo_payload(TodoUpdateInput { title: None, completed: None }) {
        Err(ApiError::BadRequest(m)) => assert_eq!(m, "at least one field must be provided"),
        _ => panic!("expected a bad request"),
    }
}

#[test]
fn update_payload_accepted() {
    let v = update_todo_payload(TodoUpdateInput {
        title: Some("updated title".to_string()),
        completed: Some(true),
    })
    .unwrap();
    assert_eq!(v.title.as_deref(), Some("updated title"));
    assert_eq!(v.completed, Some(true));
}

#[test]
fn list_reply() {
    let d = list_todos_reply(Ok(vec![todo(), todo()])).unwrap();
    assert_eq!(d.data.len(), 2);
    assert_eq!(d.status, "success");
    assert!(matches!(list_todos_reply(Err(row_not_found())), Err(ApiError::Internal)));
}

#[test]
fn single_todo_reply() {
    let d = todo_reply(Ok(todo())).unwrap();
    assert_eq!(d.data.id, ID);
    match todo_reply(Err(row_not_found())) {
        Err(ApiError::NotFound(m)) => assert_eq!(m, "todo not found"),
        _ => panic!("expected not found"),
    }
    assert!(matches!(todo_reply(Err(other_failure())), Err(ApiError::Internal)));
}

#[test]
fn health_answer() {
    let (status, body) = health_check();
    assert_eq!(status, 200);
    assert_eq!(body.status, "healthy");
}

#[test]
fn error_keeps_location() {
    let e = other_failure();
    assert_eq!(e.file(), "service.rs");
    assert_eq!(e.line(), 20);
    assert_eq!(e.column(), 9);
}
