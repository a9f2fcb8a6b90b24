use todo_service::api::{create_todo, delete_todo, done_todo, get_todo, list_todos, Body, Response};
use todo_service::error::ApiError;
use todo_service::repository::Repository;
use todo_service::table::Table;
use todo_service::todo::{NewTodo, Todo, TodoDoneRequest};

fn milk(done: bool) -> Todo {
    Todo { id: 1, title: "buy milk".to_string(), description: None, done, published: false }
}

#[test]
fn scenario_create_get_done_delete() {
    let mut repo = Repository::new();

    let created = create_todo(&mut repo, NewTodo { title: "buy milk".to_string(), description: None });
    assert_eq!(created, Response { status: 200, body: Body::Item(milk(false)) });

    let fetched = get_todo(&repo, 1);
    assert_eq!(fetched, Response { status: 200, body: Body::Item(milk(false)) });

    let marked = done_todo(&mut repo, 1, TodoDoneRequest { done: true });
    assert_eq!(marked, Response { status: 204, body: Body::Empty });

    let fetched = get_todo(&repo, 1);
    assert_eq!(fetched, Response { status: 200, body: Body::Item(milk(true)) });

    let removed = delete_todo(&mut repo, 1);
    assert_eq!(removed, Response { status: 204, body: Body::Empty });

    let fetched = get_todo(&repo, 1);
    assert_eq!(fetched, Response { status: 404, body: Body::Empty });
}

#[test]
fn list_answers_200_with_every_item() {
    let mut repo = Repository::new();
    assert_eq!(list_todos(&repo), Response { status: 200, body: Body::Items(vec![]) });
    create_todo(&mut repo, NewTodo { title: "buy milk".to_string(), description: None });
    assert_eq!(list_todos(&repo), Response { status: 200, body: Body::Items(vec![milk(false)]) });
}

#[test]
fn done_of_unknown_id_answers_404() {
    let mut repo = Repository::new();
    let response = done_todo(&mut repo, 1, TodoDoneRequest { done: true });
    assert_eq!(response, Response { status: 404, body: Body::Empty });
}

#[test]
fn delete_of_unknown_id_answers_204() {
    let mut repo = Repository::new();
    let response = delete_todo(&mut repo, 1);
    assert_eq!(response, Response { status: 204, body: Body::Empty });
}

#[test]
fn create_without_an_id_left_answers_500() {
    let mut repo = Repository::over(Table::starting_after(i32::MAX));
    let response = create_todo(&mut repo, NewTodo { title: "late".to_string(), description: None });
    assert_eq!(response, Response { status: 500, body: Body::Empty });
}

#[test]
fn failure_response_has_the_status_of_the_error() {
    assert_eq!(Response::failure(ApiError::NotFound), Response { status: 404, body: Body::Empty });
    assert_eq!(Response::failure(ApiError::PoolError), Response { status: 500, body: Body::Empty });
    assert_eq!(
        Response::failure(ApiError::StorageError),
        Response { status: 500, body: Body::Empty }
    );
    assert_eq!(
        Response::failure(ApiError::BlockingTaskFailure),
        Response { status: 500, body: Body::Empty }
    );
}

#[test]
fn item_response_of_each_answer() {
    assert_eq!(Response::item(Ok(milk(true))), Response { status: 200, body: Body::Item(milk(true)) });
    assert_eq!(
        Response::item(Err(ApiError::NotFound)),
        Response { status: 404, body: Body::Empty }
    );
    assert_eq!(
        Response::item(Err(ApiError::StorageError)),
        Response { status: 500, body: Body::Empty }
    );
}

#[test]
fn items_response_of_each_answer() {
    assert_eq!(
        Response::items(Ok(vec![milk(false), milk(true)])),
        Response { status: 200, body: Body::Items(vec![milk(false), milk(true)]) }
    );
    assert_eq!(
        Response::items(Err(ApiError::PoolError)),
        Response { status: 500, body: Body::Empty }
    );
}

#[test]
fn no_content_response_of_each_answer() {
    assert_eq!(Response::no_content(Ok(())), Response { status: 204, body: Body::Empty });
    assert_eq!(
        Response::no_content(Err(ApiError::NotFound)),
        Response { status: 404, body: Body::Empty }
    );
    assert_eq!(
        Response::no_content(Err(ApiError::BlockingTaskFailure)),
        Response { status: 500, body: Body::Empty }
    );
}
