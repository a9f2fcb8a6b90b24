//! What holds of the table across statements: how each statement changes
//! what a lookup finds, and what follows for the answers of the repository.

use crate::error::ApiError;
use crate::table::TableView;
use crate::todo::{ChangesetView, NewTodoView, TodoView};
use vstd::prelude::*;

verus! {

impl TableView {
    /// A lookup in a well-formed table finds a row of the table with the
    /// id, and finds nothing only where no row has the id.
    pub proof fn lemma_find(self, id: int)
        requires
            self.wf(),
        ensures
            match self.find(id) {
                Some(row) => exists|i: int|
                    0 <= i < self.rows.len() && #[trigger] self.rows[i] == row && row.id == id,
                None => forall|i: int|
                    0 <= i < self.rows.len() ==> (#[trigger] self.rows[i]).id != id,
            },
            self.contains(id) <==> self.find(id) is Some,
            self.matching(id).len() == if self.contains(id) { 1nat } else { 0nat },
            self.contains(id) ==> 1 <= id <= self.last_id,
    {
        if exists|i: int| 0 <= i < self.rows.len() && (#[trigger] self.rows[i]).id == id {
            let i = choose|i: int| 0 <= i < self.rows.len() && (#[trigger] self.rows[i]).id == id;
            self.lemma_present(i);
        } else {
            self.lemma_absent(id);
        }
    }

    /// An insertion adds one row. A lookup by the new id finds the new
    /// row; a lookup by any other id finds what it found before.
    pub proof fn lemma_insert(self, new_todo: NewTodoView, id: int)
        requires
            self.wf(),
            !self.full(),
        ensures
            self.insert(new_todo).wf(),
            self.insert(new_todo).rows.len() == self.rows.len() + 1,
            self.insert(new_todo).find(id) == if id == self.last_id + 1 {
                Some(self.next_row(new_todo))
            } else {
                self.find(id)
            },
    {
        let after = self.insert(new_todo);
        self.lemma_find(id);
        if id == self.last_id + 1 {
            after.lemma_present(self.rows.len() as int);
        } else if self.find(id) is Some {
            let i = choose|i: int|
                0 <= i < self.rows.len() && #[trigger] self.rows[i] == self.find(id)->0;
            after.lemma_present(i);
        } else {
            after.lemma_absent(id);
        }
    }

    /// An update keeps every row in its place. A lookup by the updated id
    /// finds the changed row; a lookup by any other id finds what it
    /// found before.
    pub proof fn lemma_update(self, id: int, changes: ChangesetView, other: int)
        requires
            self.wf(),
        ensures
            self.update(id, changes).wf(),
            self.update(id, changes).rows.len() == self.rows.len(),
            self.update(id, changes).last_id == self.last_id,
            self.update(id, changes).find(other) == if other == id {
                match self.find(id) {
                    Some(row) => Some(changes.apply(row)),
                    None => None,
                }
            } else {
                self.find(other)
            },
    {
        let after = self.update(id, changes);
        self.lemma_find(other);
        if self.find(other) is Some {
            let i = choose|i: int|
                0 <= i < self.rows.len() && #[trigger] self.rows[i] == self.find(other)->0;
            after.lemma_present(i);
        } else {
            after.lemma_absent(other);
        }
    }

    /// A change of the flag keeps every row in its place. A lookup by the
    /// changed id finds the row with the new flag; a lookup by any other
    /// id finds what it found before.
    pub proof fn lemma_set_done(self, id: int, done: bool, other: int)
        requires
            self.wf(),
        ensures
            self.set_done(id, done).wf(),
            self.set_done(id, done).rows.len() == self.rows.len(),
            self.set_done(id, done).last_id == self.last_id,
            self.set_done(id, done).find(other) == if other == id {
                match self.find(id) {
                    Some(row) => Some((TodoView { done, ..row })),
                    None => None,
                }
            } else {
                self.find(other)
            },
    {
        let after = self.set_done(id, done);
        self.lemma_find(other);
        if self.find(other) is Some {
            let i = choose|i: int|
                0 <= i < self.rows.len() && #[trigger] self.rows[i] == self.find(other)->0;
            after.lemma_present(i);
        } else {
            after.lemma_absent(other);
        }
    }

    /// A deletion takes away the row with the id, if there is one, and no
    /// other. A lookup by the deleted id finds nothing; a lookup by any
    /// other id finds what it found before.
    pub proof fn lemma_delete(self, id: int, other: int)
        requires
            self.wf(),
        ensures
            self.delete(id).wf(),
            self.delete(id).last_id == self.last_id,
            self.delete(id).rows.len() == if self.contains(id) {
                self.rows.len() - 1
            } else {
                self.rows.len() as int
            },
            self.delete(id).find(other) == if other == id {
                None
            } else {
                self.find(other)
            },
    {
        let after = self.delete(id);
        self.lemma_find(id);
        if self.find(id) is Some {
            let at = choose|i: int|
                0 <= i < self.rows.len() && #[trigger] self.rows[i] == self.find(id)->0;
            self.lemma_present(at);
            assert forall|i: int| 0 <= i < after.rows.len() implies #[trigger] after.rows[i]
                == self.rows[if i < at { i } else { i + 1 }] by {}
            self.lemma_find(other);
            if other == id {
                after.lemma_absent(id);
            } else if self.find(other) is Some {
                let i = choose|i: int|
                    0 <= i < self.rows.len() && #[trigger] self.rows[i] == self.find(other)->0;
                let to = if i < at { i } else { i - 1 };
                after.lemma_present(to);
            } else {
                after.lemma_absent(other);
            }
        } else {
            self.lemma_absent(id);
        }
    }
}

impl TableView {
    /// The id was assigned to a row that is no longer in the table.
    pub open spec fn retired(self, id: int) -> bool {
        1 <= id <= self.last_id && !self.contains(id)
    }

    /// The table after one creation for each payload, in their order.
    pub open spec fn create_all(self, new_todos: Seq<NewTodoView>) -> TableView
        decreases new_todos.len(),
    {
        if new_todos.len() == 0 {
            self
        } else {
            self.create_all(new_todos.drop_last()).after_create(new_todos.last())
        }
    }

    /// The table after one deletion for each id, in their order.
    pub open spec fn delete_all(self, ids: Seq<int>) -> TableView
        decreases ids.len(),
    {
        if ids.len() == 0 {
            self
        } else {
            self.delete_all(ids.drop_last()).delete(ids.last())
        }
    }

    /// Creations that all find an id left add one row each, under the ids
    /// that follow the largest one assigned before.
    pub proof fn lemma_create_all(self, new_todos: Seq<NewTodoView>)
        requires
            self.wf(),
            self.last_id + new_todos.len() <= i32::MAX,
        ensures
            self.create_all(new_todos).wf(),
            self.create_all(new_todos).last_id == self.last_id + new_todos.len(),
            self.create_all(new_todos).rows.len() == self.rows.len() + new_todos.len(),
            forall|id: int|
                self.last_id < id <= self.last_id + new_todos.len() ==> #[trigger] self.create_all(
                    new_todos,
                ).contains(id),
        decreases new_todos.len(),
    {
        if new_todos.len() > 0 {
            let before = self.create_all(new_todos.drop_last());
            let after = self.create_all(new_todos);
            self.lemma_create_all(new_todos.drop_last());
            before.lemma_insert(new_todos.last(), 0);
            assert forall|id: int|
                self.last_id < id <= self.last_id + new_todos.len() implies #[trigger] after.contains(
                id,
            ) by {
                before.lemma_insert(new_todos.last(), id);
                before.lemma_find(id);
                after.lemma_find(id);
            }
        }
    }

    /// Deletions of pairwise different ids that are all in the table take
    /// away one row each, and no other row.
    pub proof fn lemma_delete_all(self, ids: Seq<int>)
        requires
            self.wf(),
            ids.no_duplicates(),
            forall|k: int| 0 <= k < ids.len() ==> self.contains(#[trigger] ids[k]),
        ensures
            self.delete_all(ids).wf(),
            self.delete_all(ids).last_id == self.last_id,
            self.delete_all(ids).rows.len() == self.rows.len() - ids.len(),
            forall|id: int|
                #[trigger] self.delete_all(ids).contains(id) <==> self.contains(id)
                    && !ids.contains(id),
        decreases ids.len(),
    {
        if ids.len() > 0 {
            let rest = ids.drop_last();
            let last = ids.last();
            let before = self.delete_all(rest);
            let after = self.delete_all(ids);
            self.lemma_delete_all(rest);
            assert(!rest.contains(last));
            before.lemma_delete(last, last);
            assert forall|id: int| #[trigger]
                after.contains(id) <==> self.contains(id) && !ids.contains(id) by {
                before.lemma_delete(last, id);
                before.lemma_find(id);
                after.lemma_find(id);
                if ids.contains(id) {
                    let k = choose|k: int| 0 <= k < ids.len() && ids[k] == id;
                    if k < rest.len() {
                        assert(rest[k] == id);
                    }
                }
            }
        }
    }
}

/// An item that was created is what a lookup by its id returns.
pub proof fn lemma_created_item_is_found(table: TableView, new_todo: NewTodoView)
    requires
        table.wf(),
    ensures
        table.create_answer(new_todo) matches Ok(created) ==> table.after_create(
            new_todo,
        ).get_answer(created.id) == Ok::<TodoView, ApiError>(created),
{
    if !table.full() {
        table.lemma_insert(new_todo, table.last_id + 1);
    }
}

/// An id that the table has not assigned yet belongs to no row.
pub proof fn lemma_unassigned_id_is_absent(table: TableView, id: int)
    requires
        table.wf(),
        id < 1 || id > table.last_id,
    ensures
        !table.contains(id),
{
    table.lemma_find(id);
}

/// An id belongs to no row once it was deleted, and then it is retired if
/// it ever belonged to one.
pub proof fn lemma_deleted_id_is_absent(table: TableView, id: int)
    requires
        table.wf(),
    ensures
        !table.delete(id).contains(id),
        table.contains(id) ==> table.delete(id).retired(id),
{
    table.lemma_delete(id, id);
    table.delete(id).lemma_find(id);
    table.lemma_find(id);
}

/// A retired id stays retired whatever is asked of the table: no creation
/// assigns it again.
pub proof fn lemma_retired_id_stays_retired(
    table: TableView,
    id: int,
    new_todo: NewTodoView,
    other: int,
    changes: ChangesetView,
    done: bool,
)
    requires
        table.wf(),
        table.retired(id),
    ensures
        table.after_create(new_todo).retired(id),
        table.update(other, changes).retired(id),
        table.set_done(other, done).retired(id),
        table.delete(other).retired(id),
{
    table.lemma_find(id);
    if !table.full() {
        table.lemma_insert(new_todo, id);
        table.insert(new_todo).lemma_find(id);
    }
    table.lemma_update(other, changes, id);
    table.update(other, changes).lemma_find(id);
    table.lemma_set_done(other, done, id);
    table.set_done(other, done).lemma_find(id);
    table.lemma_delete(other, id);
    table.delete(other).lemma_find(id);
}

/// Where no row has the id, a lookup, an update and a change
/// of the flag answer `NotFound`, a deletion answers with a success, and
/// none of them changes the table.
pub proof fn lemma_absent_id_is_not_found(
    table: TableView,
    id: int,
    changes: ChangesetView,
    done: bool,
)
    requires
        table.wf(),
        !table.contains(id),
    ensures
        table.get_answer(id) == Err::<TodoView, ApiError>(ApiError::NotFound),
        table.update_answer(id, changes) == Err::<TodoView, ApiError>(ApiError::NotFound),
        table.update(id, changes) == table,
        table.done_answer(id) == Err::<(), ApiError>(ApiError::NotFound),
        table.set_done(id, done) == table,
        table.delete_answer(id) == Ok::<(), ApiError>(()),
        table.delete(id) == table,
{
    table.lemma_find(id);
    table.lemma_absent(id);
    assert(table.update(id, changes).rows =~= table.rows);
    assert(table.set_done(id, done).rows =~= table.rows);
}

/// An update changes the fields that the changeset names,
/// in the row with the id, and nothing else: the other fields of that row
/// and all other rows are as before.
pub proof fn lemma_update_is_partial(
    table: TableView,
    id: int,
    changes: ChangesetView,
    other: int,
)
    requires
        table.wf(),
    ensures
        table.find(id) matches Some(before) ==> table.update(id, changes).find(id) matches Some(
            after,
        ) && ({
            &&& table.update_answer(id, changes) == Ok::<TodoView, ApiError>(after)
            &&& after.id == before.id
            &&& after.done == before.done
            &&& after.published == before.published
            &&& after.title == match changes.title {
                Some(title) => title,
                None => before.title,
            }
            &&& after.description == match changes.description {
                Some(description) => Some(description),
                None => before.description,
            }
        }),
        other != id ==> table.update(id, changes).find(other) == table.find(other),
{
    table.lemma_find(id);
    table.lemma_update(id, changes, id);
    table.lemma_update(id, changes, other);
}

/// An update that names only a title changes the title and keeps the
/// description.
pub proof fn lemma_title_update_keeps_description(table: TableView, id: int, title: Seq<char>)
    requires
        table.wf(),
    ensures
        table.find(id) matches Some(before) ==> table.update(
            id,
            (ChangesetView { title: Some(title), description: None }),
        ).get_answer(id) == Ok::<TodoView, ApiError>((TodoView { title, ..before })),
{
    let changes = ChangesetView { title: Some(title), description: None };
    table.lemma_find(id);
    table.lemma_update(id, changes, id);
}

/// To set the flag a second time changes nothing and
/// answers as the first time; where the row exists both answers are a
/// success and the row has the flag.
pub proof fn lemma_done_twice(table: TableView, id: int, done: bool)
    requires
        table.wf(),
    ensures
        table.set_done(id, done).set_done(id, done) == table.set_done(id, done),
        table.set_done(id, done).done_answer(id) == table.done_answer(id),
        table.contains(id) ==> table.done_answer(id) == Ok::<(), ApiError>(()) && (table.set_done(
            id,
            done,
        ).find(id) matches Some(row) && row.done == done),
{
    let once = table.set_done(id, done);
    assert(once.set_done(id, done).rows =~= once.rows);
    table.lemma_set_done(id, done, id);
    table.lemma_find(id);
    once.lemma_find(id);
}

/// After a creation for each of N payloads and the
/// deletion of M of the items so created, the list holds the rows that
/// were there before and N - M more, and no two of its rows share an id.
pub proof fn lemma_list_after_creations_and_deletions(
    table: TableView,
    new_todos: Seq<NewTodoView>,
    ids: Seq<int>,
)
    requires
        table.wf(),
        table.last_id + new_todos.len() <= i32::MAX,
        ids.no_duplicates(),
        forall|k: int|
            0 <= k < ids.len() ==> table.last_id < #[trigger] ids[k] <= table.last_id
                + new_todos.len(),
    ensures
        table.create_all(new_todos).delete_all(ids).wf(),
        table.create_all(new_todos).delete_all(ids).list_answer() matches Ok(rows) && ({
            &&& rows.len() == table.rows.len() + new_todos.len() - ids.len()
            &&& forall|i: int, j: int|
                0 <= i < j < rows.len() ==> (#[trigger] rows[i]).id != (#[trigger] rows[j]).id
        }),
{
    let created = table.create_all(new_todos);
    table.lemma_create_all(new_todos);
    created.lemma_delete_all(ids);
}

} // verus!
