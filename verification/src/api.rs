//! The HTTP face of the repository: one handler for each route, and the
//! response that stands for each answer.

use crate::error::{ApiError, STATUS_NO_CONTENT, STATUS_OK};
use crate::repository::{item_answer, items_answer, Repository};
use crate::todo::{views, NewTodo, Todo, TodoDoneRequest, TodoView};
use vstd::prelude::*;

verus! {

/// The value of a response's body.
pub enum BodyView {
    Empty,
    Item(TodoView),
    Items(Seq<TodoView>),
}

/// The body of a response, before it is written as JSON: nothing, one
/// item, or a list of items.
#[derive(Debug, PartialEq, Eq)]
pub enum Body {
    Empty,
    Item(Todo),
    Items(Vec<Todo>),
}

impl View for Body {
    type V = BodyView;

    open spec fn view(&self) -> BodyView {
        match self {
            Body::Empty => BodyView::Empty,
            Body::Item(todo) => BodyView::Item(todo@),
            Body::Items(todos) => BodyView::Items(views(todos@)),
        }
    }
}

/// The value of a response.
pub struct ResponseView {
    pub status: int,
    pub body: BodyView,
}

impl ResponseView {
    /// The response to a failed request: the status of the error, and no
    /// body.
    pub open spec fn failure(error: ApiError) -> ResponseView {
        ResponseView { status: error.status(), body: BodyView::Empty }
    }

    /// The response to a request for one item: 200 with the item.
    pub open spec fn item(answer: Result<TodoView, ApiError>) -> ResponseView {
        match answer {
            Ok(todo) => ResponseView { status: STATUS_OK as int, body: BodyView::Item(todo) },
            Err(error) => ResponseView::failure(error),
        }
    }

    /// The response to a request for the list: 200 with the items.
    pub open spec fn items(answer: Result<Seq<TodoView>, ApiError>) -> ResponseView {
        match answer {
            Ok(todos) => ResponseView { status: STATUS_OK as int, body: BodyView::Items(todos) },
            Err(error) => ResponseView::failure(error),
        }
    }

    /// The response to a request that returns nothing: 204 without a
    /// body.
    pub open spec fn no_content(answer: Result<(), ApiError>) -> ResponseView {
        match answer {
            Ok(_) => ResponseView { status: STATUS_NO_CONTENT as int, body: BodyView::Empty },
            Err(error) => ResponseView::failure(error),
        }
    }
}

/// A response: the HTTP status and the body.
#[derive(Debug, PartialEq, Eq)]
pub struct Response {
    pub status: u16,
    pub body: Body,
}

impl View for Response {
    type V = ResponseView;

    open spec fn view(&self) -> ResponseView {
        ResponseView { status: self.status as int, body: self.body@ }
    }
}

impl Response {
    /// The response to a failed request.
    pub fn failure(error: ApiError) -> (response: Response)
        ensures
            response@ == ResponseView::failure(error),
    {
        Response { status: error.status_code(), body: Body::Empty }
    }

    /// The response that carries the item of `result`.
    pub fn item(result: Result<Todo, ApiError>) -> (response: Response)
        ensures
            response@ == ResponseView::item(item_answer(result)),
    {
        match result {
            Ok(todo) => Response { status: STATUS_OK, body: Body::Item(todo) },
            Err(error) => Response::failure(error),
        }
    }

    /// The response that carries the items of `result`.
    pub fn items(result: Result<Vec<Todo>, ApiError>) -> (response: Response)
        ensures
            response@ == ResponseView::items(items_answer(result)),
    {
        match result {
            Ok(todos) => Response { status: STATUS_OK, body: Body::Items(todos) },
            Err(error) => Response::failure(error),
        }
    }

    /// The response to a request that returns nothing.
    pub fn no_content(result: Result<(), ApiError>) -> (response: Response)
        ensures
            response@ == ResponseView::no_content(result),
    {
        match result {
            Ok(_) => Response { status: STATUS_NO_CONTENT, body: Body::Empty },
            Err(error) => Response::failure(error),
        }
    }
}

/// `GET /todos`: every item.
pub fn list_todos(repo: &Repository) -> (response: Response)
    requires
        repo.wf(),
    ensures
        response@ == ResponseView::items(repo@.list_answer()),
{
    Response::items(repo.list_todos())
}

/// `POST /todos`: creates an item and returns it.
pub fn create_todo(repo: &mut Repository, new_todo: NewTodo) -> (response: Response)
    requires
        old(repo).wf(),
    ensures
        final(repo).wf(),
        final(repo)@ == old(repo)@.after_create(new_todo@),
        response@ == ResponseView::item(old(repo)@.create_answer(new_todo@)),
{
    Response::item(repo.crate_todo(new_todo))
}

/// `GET /todos/{id}`: the item with the id.
pub fn get_todo(repo: &Repository, id: i32) -> (response: Response)
    requires
        repo.wf(),
    ensures
        response@ == ResponseView::item(repo@.get_answer(id as int)),
{
    Response::item(repo.get_todo(id))
}

/// `PUT /todos/{id}`: sets the flag `done` of the item with the id.
pub fn done_todo(repo: &mut Repository, id: i32, request: TodoDoneRequest) -> (response: Response)
    requires
        old(repo).wf(),
    ensures
        final(repo).wf(),
        final(repo)@ == old(repo)@.set_done(id as int, request.done),
        response@ == ResponseView::no_content(old(repo)@.done_answer(id as int)),
{
    Response::no_content(repo.done_todo(id, request.done))
}

/// `DELETE /todos/{id}`: removes the item with the id.
pub fn delete_todo(repo: &mut Repository, id: i32) -> (response: Response)
    requires
        old(repo).wf(),
    ensures
        final(repo).wf(),
        final(repo)@ == old(repo)@.delete(id as int),
        response@ == ResponseView::no_content(old(repo)@.delete_answer(id as int)),
{
    Response::no_content(repo.delete_todo(id))
}

} // verus!
