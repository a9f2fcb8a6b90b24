//! The table of items: its mathematical model, with the meaning of each
//! statement that the repository issues, and a table in memory that carries
//! the statements out.

use crate::error::StorageFailure;
use crate::todo::{views, ChangesetView, NewTodo, NewTodoView, Todo, TodoChangeset, TodoView};
use vstd::prelude::*;

verus! {

/// The state of the table: its rows in the order of their insertion, and
/// the largest id that it has assigned so far.
pub struct TableView {
    pub rows: Seq<TodoView>,
    pub last_id: int,
}

impl TableView {
    /// The table that has no row and has assigned no id.
    pub open spec fn empty() -> TableView {
        TableView { rows: Seq::empty(), last_id: 0 }
    }

    /// Every id has been assigned by the table, and later rows have larger
    /// ids: no two rows share an id.
    pub open spec fn wf(self) -> bool {
        &&& 0 <= self.last_id <= i32::MAX
        &&& forall|i: int|
            0 <= i < self.rows.len() ==> 1 <= (#[trigger] self.rows[i]).id <= self.last_id
        &&& forall|i: int, j: int|
            0 <= i < j < self.rows.len() ==> (#[trigger] self.rows[i]).id < (
            #[trigger] self.rows[j]).id
    }

    /// No id is left to assign.
    pub open spec fn full(self) -> bool {
        self.last_id >= i32::MAX
    }

    /// The rows whose id is `id`.
    pub open spec fn matching(self, id: int) -> Seq<TodoView> {
        self.rows.filter(|row: TodoView| row.id == id)
    }

    /// Some row has the id `id`.
    pub open spec fn contains(self, id: int) -> bool {
        self.matching(id).len() > 0
    }

    /// The first row whose id is `id`, if there is one.
    pub open spec fn find(self, id: int) -> Option<TodoView> {
        if self.contains(id) {
            Some(self.matching(id).first())
        } else {
            None
        }
    }

    /// The row that the next insertion of `new_todo` stores.
    pub open spec fn next_row(self, new_todo: NewTodoView) -> TodoView {
        new_todo.row(self.last_id + 1)
    }

    /// The table after `new_todo` was inserted: the new row comes last,
    /// under the id that follows the largest one assigned so far.
    pub open spec fn insert(self, new_todo: NewTodoView) -> TableView {
        TableView { rows: self.rows.push(self.next_row(new_todo)), last_id: self.last_id + 1 }
    }

    /// The table after `changes` were applied to the rows whose id is `id`.
    pub open spec fn update(self, id: int, changes: ChangesetView) -> TableView {
        TableView {
            rows: self.rows.map_values(
                |row: TodoView|
                    if row.id == id {
                        changes.apply(row)
                    } else {
                        row
                    },
            ),
            ..self
        }
    }

    /// The table after the flag `done` was set in the rows whose id is `id`.
    pub open spec fn set_done(self, id: int, done: bool) -> TableView {
        TableView {
            rows: self.rows.map_values(
                |row: TodoView|
                    if row.id == id {
                        TodoView { done, ..row }
                    } else {
                        row
                    },
            ),
            ..self
        }
    }

    /// The table without the rows whose id is `id`. The ids that were
    /// assigned stay assigned.
    pub open spec fn delete(self, id: int) -> TableView {
        TableView { rows: self.rows.filter(|row: TodoView| row.id != id), ..self }
    }

    /// Where no row has the id `id`, none matches it and a deletion keeps
    /// every row.
    pub proof fn lemma_absent(self, id: int)
        requires
            forall|i: int| 0 <= i < self.rows.len() ==> (#[trigger] self.rows[i]).id != id,
        ensures
            self.matching(id) == Seq::<TodoView>::empty(),
            !self.contains(id),
            self.find(id) is None,
            self.delete(id) == self,
        decreases self.rows.len(),
    {
        reveal(Seq::filter);
        if self.rows.len() > 0 {
            let rest = TableView { rows: self.rows.drop_last(), ..self };
            rest.lemma_absent(id);
            assert(rest.rows.push(self.rows.last()) =~= self.rows);
        }
    }

    /// In a well-formed table the row at `at` is the only one with its id:
    /// it is what matches the id and what a lookup finds, and a deletion
    /// takes just that row away.
    pub proof fn lemma_present(self, at: int)
        requires
            self.wf(),
            0 <= at < self.rows.len(),
        ensures
            self.matching(self.rows[at].id) == seq![self.rows[at]],
            self.contains(self.rows[at].id),
            self.find(self.rows[at].id) == Some(self.rows[at]),
            self.delete(self.rows[at].id).rows == self.rows.remove(at),
    {
        let id = self.rows[at].id;
        let before = TableView { rows: self.rows.take(at), ..self };
        let after = TableView { rows: self.rows.skip(at + 1), ..self };
        let here = seq![self.rows[at]];
        let is_id = |row: TodoView| row.id == id;
        let is_other = |row: TodoView| row.id != id;
        assert(self.rows =~= before.rows + here + after.rows);
        before.lemma_absent(id);
        after.lemma_absent(id);
        assert(here.filter(is_id) == here && here.filter(is_other) == Seq::<TodoView>::empty())
            by {
            reveal_with_fuel(Seq::filter, 2);
        }
        Seq::filter_distributes_over_add(before.rows, here, is_id);
        Seq::filter_distributes_over_add(before.rows + here, after.rows, is_id);
        Seq::filter_distributes_over_add(before.rows, here, is_other);
        Seq::filter_distributes_over_add(before.rows + here, after.rows, is_other);
    }
}

/// A table in memory. It keeps its rows in the order of their insertion
/// and never assigns an id twice.
pub struct Table {
    rows: Vec<Todo>,
    last_id: i32,
}

impl View for Table {
    type V = TableView;

    closed spec fn view(&self) -> TableView {
        TableView { rows: views(self.rows@), last_id: self.last_id as int }
    }
}

impl Table {
    /// The invariant of the table: that of its state.
    pub open spec fn wf(&self) -> bool {
        self@.wf()
    }

    /// A table without rows whose first id is 1.
    pub fn new() -> (table: Table)
        ensures
            table.wf(),
            table@ == TableView::empty(),
    {
        Table::starting_after(0)
    }

    /// A table without rows that has assigned the ids up to `last_id`
    /// before: its first id is `last_id + 1`. A negative `last_id` counts
    /// as 0.
    pub fn starting_after(last_id: i32) -> (table: Table)
        ensures
            table.wf(),
            table@.rows == Seq::<TodoView>::empty(),
            table@.last_id == if last_id < 0 { 0 } else { last_id as int },
    {
        Table { rows: Vec::new(), last_id: if last_id < 0 { 0 } else { last_id } }
    }

    /// The index of the row whose id is `id`, if there is one.
    fn position(&self, id: i32) -> (at: Option<usize>)
        ensures
            match at {
                Some(at) => at < self@.rows.len() && self@.rows[at as int].id == id,
                None => forall|i: int|
                    0 <= i < self@.rows.len() ==> (#[trigger] self@.rows[i]).id != id,
            },
    {
        let mut at: usize = 0;
        while at < self.rows.len()
            invariant
                at <= self.rows.len(),
                self@.rows.len() == self.rows.len(),
                forall|i: int| 0 <= i < at ==> (#[trigger] self@.rows[i]).id != id,
            decreases self.rows.len() - at,
        {
            if self.rows[at].id == id {
                return Some(at);
            }
            at += 1;
        }
        None
    }

    /// Stores `new_todo` as a new row, with both flags false, and returns
    /// the stored row. Fails with `Driver`, and stores nothing, when no id
    /// is left.
    pub fn insert(&mut self, new_todo: NewTodo) -> (outcome: Result<Todo, StorageFailure>)
        requires
            old(self).wf(),
        ensures
            final(self).wf(),
            match outcome {
                Ok(row) => {
                    &&& !old(self)@.full()
                    &&& row@ == old(self)@.next_row(new_todo@)
                    &&& final(self)@ == old(self)@.insert(new_todo@)
                },
                Err(failure) => {
                    &&& old(self)@.full()
                    &&& failure == StorageFailure::Driver
                    &&& final(self)@ == old(self)@
                },
            },
    {
        if self.last_id == i32::MAX {
            return Err(StorageFailure::Driver);
        }
        let id: i32 = self.last_id + 1;
        let row = new_todo.into_row(id);
        let stored = row.clone();
        self.rows.push(row);
        self.last_id = id;
        assert(self@.rows =~= old(self)@.rows.push(stored@));
        Ok(stored)
    }

    /// All rows, in the order of their insertion.
    pub fn select_all(&self) -> (rows: Vec<Todo>)
        ensures
            views(rows@) == self@.rows,
    {
        let mut rows: Vec<Todo> = Vec::new();
        let mut at: usize = 0;
        while at < self.rows.len()
            invariant
                at <= self.rows.len(),
                rows@ == self.rows@.take(at as int),
            decreases self.rows.len() - at,
        {
            rows.push(self.rows[at].clone());
            at += 1;
        }
        rows
    }

    /// The row whose id is `id`, if there is one.
    pub fn find(&self, id: i32) -> (row: Option<Todo>)
        requires
            self.wf(),
        ensures
            match row {
                Some(row) => self@.find(id as int) == Some(row@),
                None => self@.find(id as int) is None,
            },
    {
        match self.position(id) {
            Some(at) => {
                proof {
                    self@.lemma_present(at as int);
                }
                Some(self.rows[at].clone())
            },
            None => {
                proof {
                    self@.lemma_absent(id as int);
                }
                None
            },
        }
    }

    /// Applies `changes` to the row whose id is `id` and returns the row
    /// as it then is; returns `None`, and changes nothing, where no row
    /// has that id.
    pub fn update(&mut self, id: i32, changes: &TodoChangeset) -> (row: Option<Todo>)
        requires
            old(self).wf(),
        ensures
            final(self).wf(),
            final(self)@ == old(self)@.update(id as int, changes@),
            match row {
                Some(row) => {
                    &&& old(self)@.find(id as int) matches Some(before)
                    &&& row@ == changes@.apply(before)
                },
                None => old(self)@.find(id as int) is None,
            },
    {
        match self.position(id) {
            Some(at) => {
                proof {
                    self@.lemma_present(at as int);
                }
                let mut row = self.rows[at].clone();
                changes.apply_to(&mut row);
                let changed = row.clone();
                self.rows[at] = row;
                assert(self@.rows =~= old(self)@.update(id as int, changes@).rows);
                Some(changed)
            },
            None => {
                proof {
                    self@.lemma_absent(id as int);
                }
                assert(self@.rows =~= old(self)@.update(id as int, changes@).rows);
                None
            },
        }
    }

    /// Sets the flag `done` of the row whose id is `id` and returns the
    /// number of rows that the statement matched: 1, or 0 where no row has
    /// that id.
    pub fn set_done(&mut self, id: i32, done: bool) -> (affected: usize)
        requires
            old(self).wf(),
        ensures
            final(self).wf(),
            final(self)@ == old(self)@.set_done(id as int, done),
            affected == old(self)@.matching(id as int).len(),
            affected <= 1,
    {
        match self.position(id) {
            Some(at) => {
                proof {
                    self@.lemma_present(at as int);
                }
                let mut row = self.rows[at].clone();
                row.done = done;
                self.rows[at] = row;
                assert(self@.rows =~= old(self)@.set_done(id as int, done).rows);
                1
            },
            None => {
                proof {
                    self@.lemma_absent(id as int);
                }
                assert(self@.rows =~= old(self)@.set_done(id as int, done).rows);
                0
            },
        }
    }

    /// Removes the row whose id is `id` and returns the number of rows
    /// that the statement matched: 1, or 0 where no row has that id.
    pub fn delete(&mut self, id: i32) -> (affected: usize)
        requires
            old(self).wf(),
        ensures
            final(self).wf(),
            final(self)@ == old(self)@.delete(id as int),
            affected == old(self)@.matching(id as int).len(),
            affected <= 1,
    {
        match self.position(id) {
            Some(at) => {
                proof {
                    self@.lemma_present(at as int);
                }
                let _ = self.rows.remove(at);
                assert(self@.rows =~= old(self)@.rows.remove(at as int));
                1
            },
            None => {
                proof {
                    self@.lemma_absent(id as int);
                }
                0
            },
        }
    }
}

} // verus!
