use todo_service::error::{
    ApiError, StorageFailure, STATUS_INTERNAL_SERVER_ERROR, STATUS_NOT_FOUND, STATUS_NO_CONTENT,
    STATUS_OK,
};
use todo_service::outcome::{changed, deleted, found, stored};
use todo_service::todo::{NewTodo, Todo, TodoChangeset, TodoDoneRequest};

fn sample() -> Todo {
    Todo { id: 3, title: "t".to_string(), description: None, done: true, published: false }
}

#[test]
fn status_constants() {
    assert_eq!(STATUS_OK, 200);
    assert_eq!(STATUS_NO_CONTENT, 204);
    assert_eq!(STATUS_NOT_FOUND, 404);
    assert_eq!(STATUS_INTERNAL_SERVER_ERROR, 500);
}

#[test]
fn not_found_is_404() {
    assert_eq!(ApiError::NotFound.status_code(), 404);
}

#[test]
fn every_other_error_is_500() {
    assert_eq!(ApiError::PoolError.status_code(), 500);
    assert_eq!(ApiError::StorageError.status_code(), 500);
    assert_eq!(ApiError::BlockingTaskFailure.status_code(), 500);
}

#[test]
fn failures_become_errors() {
    assert_eq!(ApiError::from_failure(StorageFailure::Pool), ApiError::PoolError);
    assert_eq!(ApiError::from_failure(StorageFailure::Blocking), ApiError::BlockingTaskFailure);
    assert_eq!(ApiError::from_failure(StorageFailure::Driver), ApiError::StorageError);
}

#[test]
fn stored_passes_the_value_on() {
    assert_eq!(stored(Ok(sample())), Ok(sample()));
    assert_eq!(stored(Ok(vec![sample(), sample()])), Ok(vec![sample(), sample()]));
    assert_eq!(stored::<Vec<Todo>>(Ok(vec![])), Ok(vec![]));
}

#[test]
fn stored_maps_each_failure() {
    assert_eq!(stored::<Todo>(Err(StorageFailure::Pool)), Err(ApiError::PoolError));
    assert_eq!(stored::<Todo>(Err(StorageFailure::Blocking)), Err(ApiError::BlockingTaskFailure));
    assert_eq!(stored::<Todo>(Err(StorageFailure::Driver)), Err(ApiError::StorageError));
}

#[test]
fn found_returns_the_row() {
    assert_eq!(found(Ok(Some(sample()))), Ok(sample()));
}

#[test]
fn found_without_a_row_is_not_found() {
    assert_eq!(found(Ok(None)), Err(ApiError::NotFound));
}

#[test]
fn found_maps_each_failure() {
    assert_eq!(found(Err(StorageFailure::Pool)), Err(ApiError::PoolError));
    assert_eq!(found(Err(StorageFailure::Blocking)), Err(ApiError::BlockingTaskFailure));
    assert_eq!(found(Err(StorageFailure::Driver)), Err(ApiError::StorageError));
}

#[test]
fn changed_with_no_row_is_not_found() {
    assert_eq!(changed(Ok(0)), Err(ApiError::NotFound));
}

#[test]
fn changed_with_rows_is_a_success() {
    assert_eq!(changed(Ok(1)), Ok(()));
    assert_eq!(changed(Ok(2)), Ok(()));
    assert_eq!(changed(Ok(usize::MAX)), Ok(()));
}

#[test]
fn changed_maps_each_failure() {
    assert_eq!(changed(Err(StorageFailure::Pool)), Err(ApiError::PoolError));
    assert_eq!(changed(Err(StorageFailure::Blocking)), Err(ApiError::BlockingTaskFailure));
    assert_eq!(changed(Err(StorageFailure::Driver)), Err(ApiError::StorageError));
}

#[test]
fn deleted_is_a_success_with_or_without_a_row() {
    assert_eq!(deleted(Ok(0)), Ok(()));
    assert_eq!(deleted(Ok(1)), Ok(()));
}

#[test]
fn deleted_maps_each_failure() {
    assert_eq!(deleted(Err(StorageFailure::Pool)), Err(ApiError::PoolError));
    assert_eq!(deleted(Err(StorageFailure::Blocking)), Err(ApiError::BlockingTaskFailure));
    assert_eq!(deleted(Err(StorageFailure::Driver)), Err(ApiError::StorageError));
}

#[test]
fn payload_becomes_a_row_with_both_flags_false() {
    let payload = NewTodo { title: "a".to_string(), description: Some("b".to_string()) };
    assert_eq!(
        payload.into_row(9),
        Todo {
            id: 9,
            title: "a".to_string(),
            description: Some("b".to_string()),
            done: false,
            published: false,
        }
    );
}

#[test]
fn changeset_writes_only_the_named_fields() {
    let mut row = sample();
    row.description = Some("d".to_string());
    row.published = true;
    TodoChangeset { title: Some("x".to_string()), description: None }.apply_to(&mut row);
    assert_eq!(
        row,
        Todo {
            id: 3,
            title: "x".to_string(),
            description: Some("d".to_string()),
            done: true,
            published: true,
        }
    );
    TodoChangeset { title: None, description: Some("e".to_string()) }.apply_to(&mut row);
    assert_eq!(row.title, "x");
    assert_eq!(row.description, Some("e".to_string()));
    TodoChangeset { title: None, description: None }.apply_to(&mut row);
    assert_eq!(row.title, "x");
    assert_eq!(row.description, Some("e".to_string()));
}

#[test]
fn clone_of_an_item_is_equal() {
    let item = sample();
    assert_eq!(item.clone(), item);
}

#[test]
fn done_request_carries_the_flag() {
    assert!(TodoDoneRequest { done: true }.done);
    assert!(!TodoDoneRequest { done: false }.done);
}
