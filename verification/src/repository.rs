//! The repository: every operation on the items, each one statement on the
//! table.

use crate::error::ApiError;
use crate::outcome::{changed, deleted, found, stored};
use crate::table::{Table, TableView};
use crate::todo::{
    views, ChangesetView, NewTodo, NewTodoView, Todo, TodoChangeset, TodoView,
};
use vstd::prelude::*;

verus! {

/// The value of an answer that carries one item.
pub open spec fn item_answer(result: Result<Todo, ApiError>) -> Result<TodoView, ApiError> {
    match result {
        Ok(todo) => Ok(todo@),
        Err(error) => Err(error),
    }
}

/// The value of an answer that carries a list of items.
pub open spec fn items_answer(result: Result<Vec<Todo>, ApiError>) -> Result<
    Seq<TodoView>,
    ApiError,
> {
    match result {
        Ok(todos) => Ok(views(todos@)),
        Err(error) => Err(error),
    }
}

impl TableView {
    /// The table after a creation was asked for: the payload is inserted,
    /// unless no id is left.
    pub open spec fn after_create(self, new_todo: NewTodoView) -> TableView {
        if self.full() {
            self
        } else {
            self.insert(new_todo)
        }
    }

    /// The answer to a creation: the stored row, or `StorageError` where no
    /// id is left.
    pub open spec fn create_answer(self, new_todo: NewTodoView) -> Result<TodoView, ApiError> {
        if self.full() {
            Err(ApiError::StorageError)
        } else {
            Ok(self.next_row(new_todo))
        }
    }

    /// The answer to a listing: every row, in the order of insertion.
    pub open spec fn list_answer(self) -> Result<Seq<TodoView>, ApiError> {
        Ok(self.rows)
    }

    /// The answer to a lookup: the row with the id, or `NotFound`.
    pub open spec fn get_answer(self, id: int) -> Result<TodoView, ApiError> {
        match self.find(id) {
            Some(row) => Ok(row),
            None => Err(ApiError::NotFound),
        }
    }

    /// The answer to an update: the row as it is after the change, or
    /// `NotFound` where no row has the id.
    pub open spec fn update_answer(self, id: int, changes: ChangesetView) -> Result<
        TodoView,
        ApiError,
    > {
        match self.find(id) {
            Some(row) => Ok(changes.apply(row)),
            None => Err(ApiError::NotFound),
        }
    }

    /// The answer to a change of the flag `done`: a success, or `NotFound`
    /// where no row has the id.
    pub open spec fn done_answer(self, id: int) -> Result<(), ApiError> {
        if self.contains(id) {
            Ok(())
        } else {
            Err(ApiError::NotFound)
        }
    }

    /// The answer to a deletion: a success, whether or not a row had the
    /// id.
    pub open spec fn delete_answer(self, id: int) -> Result<(), ApiError> {
        Ok(())
    }
}

/// The repository over a table in memory.
pub struct Repository {
    table: Table,
}

impl View for Repository {
    type V = TableView;

    closed spec fn view(&self) -> TableView {
        self.table@
    }
}

impl Repository {
    /// The invariant of the repository: that of its table.
    pub open spec fn wf(&self) -> bool {
        self@.wf()
    }

    /// A repository without items.
    pub fn new() -> (repository: Repository)
        ensures
            repository.wf(),
            repository@ == TableView::empty(),
    {
        Repository { table: Table::new() }
    }

    /// The repository over `table`.
    pub fn over(table: Table) -> (repository: Repository)
        requires
            table.wf(),
        ensures
            repository.wf(),
            repository@ == table@,
    {
        Repository { table }
    }

    /// Creates an item from `new_todo`, with `done` false, and returns it
    /// as stored, its id included.
    pub fn crate_todo(&mut self, new_todo: NewTodo) -> (result: Result<Todo, ApiError>)
        requires
            old(self).wf(),
        ensures
            final(self).wf(),
            final(self)@ == old(self)@.after_create(new_todo@),
            item_answer(result) == old(self)@.create_answer(new_todo@),
    {
        stored(self.table.insert(new_todo))
    }

    /// Returns every item.
    pub fn list_todos(&self) -> (result: Result<Vec<Todo>, ApiError>)
        requires
            self.wf(),
        ensures
            items_answer(result) == self@.list_answer(),
    {
        stored(Ok(self.table.select_all()))
    }

    /// Returns the item with the id `id`, or `NotFound`.
    pub fn get_todo(&self, id: i32) -> (result: Result<Todo, ApiError>)
        requires
            self.wf(),
        ensures
            item_answer(result) == self@.get_answer(id as int),
    {
        found(Ok(self.table.find(id)))
    }

    /// Applies the fields that `changeset` names to the item with the id
    /// `id` and returns the item as it then is, or `NotFound`.
    pub fn update_todo(&mut self, id: i32, changeset: TodoChangeset) -> (result: Result<
        Todo,
        ApiError,
    >)
        requires
            old(self).wf(),
        ensures
            final(self).wf(),
            final(self)@ == old(self)@.update(id as int, changeset@),
            item_answer(result) == old(self)@.update_answer(id as int, changeset@),
    {
        found(Ok(self.table.update(id, &changeset)))
    }

    /// Sets the flag `done` of the item with the id `id`, or answers
    /// `NotFound`.
    pub fn done_todo(&mut self, id: i32, done: bool) -> (result: Result<(), ApiError>)
        requires
            old(self).wf(),
        ensures
            final(self).wf(),
            final(self)@ == old(self)@.set_done(id as int, done),
            result == old(self)@.done_answer(id as int),
    {
        changed(Ok(self.table.set_done(id, done)))
    }

    /// Removes the item with the id `id`. Where there is none, nothing
    /// changes and the answer is a success all the same.
    pub fn delete_todo(&mut self, id: i32) -> (result: Result<(), ApiError>)
        requires
            old(self).wf(),
        ensures
            final(self).wf(),
            final(self)@ == old(self)@.delete(id as int),
            result == old(self)@.delete_answer(id as int),
    {
        deleted(Ok(self.table.delete(id)))
    }
}

} // verus!
