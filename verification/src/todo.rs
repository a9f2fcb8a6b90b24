//! The stored item and the payloads that create and change it.

use vstd::prelude::*;

verus! {

/// The mathematical value of a stored item.
pub struct TodoView {
    pub id: int,
    pub title: Seq<char>,
    pub description: Option<Seq<char>>,
    pub done: bool,
    pub published: bool,
}

/// The value of an optional text: the characters, where there is a text.
pub open spec fn text_view(text: Option<String>) -> Option<Seq<char>> {
    match text {
        Some(s) => Some(s@),
        None => None,
    }
}

/// A stored item. The table assigns `id` when the item is created and never
/// changes it afterwards.
#[derive(Debug, PartialEq, Eq)]
pub struct Todo {
    pub id: i32,
    pub title: String,
    pub description: Option<String>,
    pub done: bool,
    pub published: bool,
}

impl View for Todo {
    type V = TodoView;

    open spec fn view(&self) -> TodoView {
        TodoView {
            id: self.id as int,
            title: self.title@,
            description: text_view(self.description),
            done: self.done,
            published: self.published,
        }
    }
}

/// The values of a sequence of items, in the same order.
pub open spec fn views(rows: Seq<Todo>) -> Seq<TodoView> {
    rows.map_values(|row: Todo| row@)
}

/// Copies an optional text.
fn clone_text(text: &Option<String>) -> (copy: Option<String>)
    ensures
        copy == *text,
{
    match text {
        Some(s) => Some(s.clone()),
        None => None,
    }
}

impl Clone for Todo {
    fn clone(&self) -> (copy: Todo)
        ensures
            copy == *self,
    {
        Todo {
            id: self.id,
            title: self.title.clone(),
            description: clone_text(&self.description),
            done: self.done,
            published: self.published,
        }
    }
}

/// The mathematical value of a creation payload.
pub struct NewTodoView {
    pub title: Seq<char>,
    pub description: Option<Seq<char>>,
}

impl NewTodoView {
    /// The item that is stored when the payload is inserted under `id`:
    /// the payload's texts, and both flags false.
    pub open spec fn row(self, id: int) -> TodoView {
        TodoView {
            id,
            title: self.title,
            description: self.description,
            done: false,
            published: false,
        }
    }
}

/// The payload that creates an item: a title and, if there is one, a
/// description.
#[derive(Debug, PartialEq, Eq)]
pub struct NewTodo {
    pub title: String,
    pub description: Option<String>,
}

impl View for NewTodo {
    type V = NewTodoView;

    open spec fn view(&self) -> NewTodoView {
        NewTodoView { title: self.title@, description: text_view(self.description) }
    }
}

impl NewTodo {
    /// Turns the payload into the item that is stored under `id`.
    pub fn into_row(self, id: i32) -> (row: Todo)
        ensures
            row@ == self@.row(id as int),
    {
        Todo { id, title: self.title, description: self.description, done: false, published: false }
    }
}

/// The mathematical value of a changeset.
pub struct ChangesetView {
    pub title: Option<Seq<char>>,
    pub description: Option<Seq<char>>,
}

impl ChangesetView {
    /// The changeset names no field.
    pub open spec fn is_empty(self) -> bool {
        self.title is None && self.description is None
    }

    /// The item after the change: a field that the changeset names has the
    /// changeset's value, every other field is the item's own.
    pub open spec fn apply(self, row: TodoView) -> TodoView {
        TodoView {
            title: match self.title {
                Some(title) => title,
                None => row.title,
            },
            description: match self.description {
                Some(description) => Some(description),
                None => row.description,
            },
            ..row
        }
    }
}

/// A partial update: a field that is `None` leaves the item's field as it
/// is.
#[derive(Debug, PartialEq, Eq)]
pub struct TodoChangeset {
    pub title: Option<String>,
    pub description: Option<String>,
}

impl View for TodoChangeset {
    type V = ChangesetView;

    open spec fn view(&self) -> ChangesetView {
        ChangesetView { title: text_view(self.title), description: text_view(self.description) }
    }
}

impl TodoChangeset {
    /// Whether the changeset names no field: such a changeset leaves
    /// every item as it is.
    pub fn is_empty(&self) -> (empty: bool)
        ensures
            empty == self@.is_empty(),
            empty ==> forall|row: TodoView| #[trigger] self@.apply(row) == row,
    {
        self.title.is_none() && self.description.is_none()
    }

    /// Writes the fields that the changeset names into `row`.
    pub fn apply_to(&self, row: &mut Todo)
        ensures
            final(row)@ == self@.apply(old(row)@),
    {
        match &self.title {
            Some(title) => {
                row.title = title.clone();
            },
            None => {},
        }
        match &self.description {
            Some(description) => {
                row.description = Some(description.clone());
            },
            None => {},
        }
    }
}

/// The payload that sets the flag `done` of an item.
#[derive(Debug, Clone, Copy, PartialEq, Eq)]
pub struct TodoDoneRequest {
    pub done: bool,
}

} // verus!
