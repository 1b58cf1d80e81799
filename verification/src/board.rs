//! The board: the ordered collection of columns that owns every task.
//!
//! The board is the sole root of ownership, and its central invariant is
//! that a task identifier appears in at most one place board-wide. Every
//! mutating operation preserves that invariant; in particular `move_task`
//! looks the destination up before it removes anything, so a failed move
//! can never drop a task.

use vstd::prelude::*;

use crate::column::{Column, ColumnView};
use crate::ids::fresh_id;
use crate::task::{Priority, Task, TaskView};
use crate::time::ts_in_range;

verus! {

/// The mathematical value of a board.
#[verifier::ext_equal]
pub struct BoardView {
    pub id: u128,
    pub title: Seq<char>,
    pub columns: Seq<ColumnView>,
}

impl BoardView {
    /// The one-place-per-task invariant: no task identifier occurs twice,
    /// neither inside a column nor across columns.
    pub open spec fn wf(self) -> bool {
        forall|i1: int, k1: int, i2: int, k2: int|
            0 <= i1 < self.columns.len() && 0 <= k1 < self.columns[i1].tasks.len() && 0 <= i2
                < self.columns.len() && 0 <= k2 < self.columns[i2].tasks.len()
                && (#[trigger] self.columns[i1].tasks[k1]).id == (#[trigger] self.columns[i2].tasks[k2]).id
                ==> i1 == i2 && k1 == k2
    }

    /// Some column holds a task with this identifier.
    pub open spec fn has_task(self, task_id: u128) -> bool {
        exists|i: int| 0 <= i < self.columns.len() && (#[trigger] self.columns[i]).has_task(task_id)
    }

    /// Some column carries this column identifier.
    pub open spec fn has_col(self, column_id: u128) -> bool {
        exists|i: int| 0 <= i < self.columns.len() && (#[trigger] self.columns[i]).id == column_id
    }

    /// `i` points at the first column carrying this identifier.
    pub open spec fn is_first_col_with_id(self, i: int, column_id: u128) -> bool {
        &&& 0 <= i < self.columns.len()
        &&& self.columns[i].id == column_id
        &&& forall|j: int| 0 <= j < i ==> (#[trigger] self.columns[j]).id != column_id
    }

    /// The index of the first column carrying this identifier; meaningful
    /// only when `has_col` holds.
    pub open spec fn first_col_idx_of(self, column_id: u128) -> int {
        choose|i: int| self.is_first_col_with_id(i, column_id)
    }

    /// `i` points at the first column holding a task with this identifier.
    pub open spec fn is_first_col_with_task(self, i: int, task_id: u128) -> bool {
        &&& 0 <= i < self.columns.len()
        &&& self.columns[i].has_task(task_id)
        &&& forall|j: int| 0 <= j < i ==> !(#[trigger] self.columns[j]).has_task(task_id)
    }

    /// The index of the first column holding a task with this identifier;
    /// meaningful only when `has_task` holds.
    pub open spec fn task_col_idx(self, task_id: u128) -> int {
        choose|i: int| self.is_first_col_with_task(i, task_id)
    }

    /// A move is possible exactly when source and destination differ, the
    /// first column with the source identifier holds the task, and a
    /// column with the destination identifier exists.
    pub open spec fn can_move(self, task_id: u128, from_column_id: u128, to_column_id: u128) -> bool {
        &&& from_column_id != to_column_id
        &&& self.has_col(from_column_id)
        &&& self.columns[self.first_col_idx_of(from_column_id)].has_task(task_id)
        &&& self.has_col(to_column_id)
    }

    /// Every task on the board can be written out.
    pub open spec fn times_wf(self) -> bool {
        forall|i: int| 0 <= i < self.columns.len() ==> (#[trigger] self.columns[i]).times_wf()
    }

    /// Column identifiers are unique board-wide, so looking a column up
    /// by identifier is unambiguous.
    pub open spec fn cols_wf(self) -> bool {
        forall|i: int, j: int|
            0 <= i < self.columns.len() && 0 <= j < self.columns.len() && (
            #[trigger] self.columns[i]).id == (#[trigger] self.columns[j]).id ==> i == j
    }

    /// The exact effect of a successful move: the task leaves its slot in
    /// the first column carrying the source identifier and lands at the
    /// tail of the first column carrying the destination identifier;
    /// every other column, and the board's own fields, stay as they were.
    pub open spec fn moved(self, post: BoardView, task_id: u128, from_id: u128, to_id: u128) -> bool {
        let fi = self.first_col_idx_of(from_id);
        let ti = self.first_col_idx_of(to_id);
        let k = self.columns[fi].first_idx_of(task_id);
        &&& self.is_first_col_with_id(fi, from_id)
        &&& self.is_first_col_with_id(ti, to_id)
        &&& self.columns[fi].is_first_task_with_id(k, task_id)
        &&& fi != ti
        &&& post.columns =~= self.columns.update(
            fi,
            (ColumnView { tasks: self.columns[fi].tasks.remove(k), ..self.columns[fi] }),
        ).update(
            ti,
            (ColumnView { tasks: self.columns[ti].tasks.push(self.columns[fi].tasks[k]), ..self.columns[ti] }),
        )
        &&& !post.columns[fi].has_task(task_id)
        &&& post.columns[ti].tasks.len() > 0
        &&& post.columns[ti].tasks.last() == self.columns[fi].tasks[k]
        &&& post.id == self.id
        &&& post.title == self.title
    }

    /// Below any index of a column carrying the identifier there is a
    /// first one.
    proof fn lemma_exists_first_col(self, column_id: u128, w: int)
        requires
            0 <= w < self.columns.len(),
            self.columns[w].id == column_id,
        ensures
            exists|i: int| self.is_first_col_with_id(i, column_id),
        decreases w,
    {
        if exists|j: int| 0 <= j < w && (#[trigger] self.columns[j]).id == column_id {
            let j = choose|j: int| 0 <= j < w && (#[trigger] self.columns[j]).id == column_id;
            self.lemma_exists_first_col(column_id, j);
        } else {
            assert(self.is_first_col_with_id(w, column_id));
        }
    }

    /// When the board has the column, the first index exists, is unique,
    /// and `first_col_idx_of` points at it.
    pub proof fn lemma_first_col_idx(self, column_id: u128)
        requires
            self.has_col(column_id),
        ensures
            self.is_first_col_with_id(self.first_col_idx_of(column_id), column_id),
            forall|i: int| self.is_first_col_with_id(i, column_id) ==> i == self.first_col_idx_of(
                column_id,
            ),
    {
        let w = choose|i: int|
            0 <= i < self.columns.len() && (#[trigger] self.columns[i]).id == column_id;
        self.lemma_exists_first_col(column_id, w);
        let f = self.first_col_idx_of(column_id);
        assert(self.is_first_col_with_id(f, column_id));
        assert forall|i: int| self.is_first_col_with_id(i, column_id) implies i == f by {
            assert(self.columns[f].id == column_id);
            assert(self.columns[i].id == column_id);
        }
    }

    /// Below any index of a column holding the task there is a first one.
    proof fn lemma_exists_first_col_with_task(self, task_id: u128, w: int)
        requires
            0 <= w < self.columns.len(),
            self.columns[w].has_task(task_id),
        ensures
            exists|i: int| self.is_first_col_with_task(i, task_id),
        decreases w,
    {
        if exists|j: int| 0 <= j < w && (#[trigger] self.columns[j]).has_task(task_id) {
            let j = choose|j: int| 0 <= j < w && (#[trigger] self.columns[j]).has_task(task_id);
            self.lemma_exists_first_col_with_task(task_id, j);
        } else {
            assert(self.is_first_col_with_task(w, task_id));
        }
    }

    /// When the board has the task, the first column holding it exists,
    /// is unique, and `task_col_idx` points at it.
    pub proof fn lemma_task_col_idx(self, task_id: u128)
        requires
            self.has_task(task_id),
        ensures
            self.is_first_col_with_task(self.task_col_idx(task_id), task_id),
            forall|i: int| self.is_first_col_with_task(i, task_id) ==> i == self.task_col_idx(
                task_id,
            ),
    {
        let w = choose|i: int|
            0 <= i < self.columns.len() && (#[trigger] self.columns[i]).has_task(task_id);
        self.lemma_exists_first_col_with_task(task_id, w);
        let f = self.task_col_idx(task_id);
        assert(self.is_first_col_with_task(f, task_id));
        assert forall|i: int| self.is_first_col_with_task(i, task_id) implies i == f by {
            assert(self.columns[f].has_task(task_id));
            assert(self.columns[i].has_task(task_id));
        }
    }
}

/// The full collection of columns and tasks for one session.
#[derive(Clone, Debug, PartialEq)]
pub struct Board {
    pub id: u128,
    pub title: String,
    pub columns: Vec<Column>,
}

impl View for Board {
    type V = BoardView;

    open spec fn view(&self) -> BoardView {
        BoardView {
            id: self.id,
            title: self.title@,
            columns: Seq::new(self.columns@.len(), |i: int| self.columns@[i]@),
        }
    }
}

impl Board {
    /// A fresh board with the fixed default columns, all empty.
    pub fn new(title: String) -> (r: Board)
        ensures
            r@.title == title@,
            r@.columns.len() == 3,
            r@.columns[0].title == "To Do"@,
            r@.columns[1].title == "In Progress"@,
            r@.columns[2].title == "Done"@,
            forall|i: int| 0 <= i < 3 ==> (#[trigger] r@.columns[i]).tasks.len() == 0,
            r@.wf(),
            r@.times_wf(),
    {
        let mut columns: Vec<Column> = Vec::new();
        columns.push(Column::new("To Do".to_owned()));
        columns.push(Column::new("In Progress".to_owned()));
        columns.push(Column::new("Done".to_owned()));
        Board { id: fresh_id(), title, columns }
    }

    /// The index of the first column carrying this identifier.
    fn find_column(&self, column_id: u128) -> (r: Option<usize>)
        ensures
            r is None <==> !self@.has_col(column_id),
            r matches Some(i) ==> i as int == self@.first_col_idx_of(column_id)
                && self@.is_first_col_with_id(i as int, column_id),
    {
        let n = self.columns.len();
        let mut i: usize = 0;
        while i < n
            invariant
                n == self.columns.len(),
                i <= n,
                forall|j: int| 0 <= j < i ==> (#[trigger] self@.columns[j]).id != column_id,
            decreases n - i,
        {
            if self.columns[i].id == column_id {
                proof {
                    assert(self@.columns[i as int].id == column_id);
                    assert(self@.is_first_col_with_id(i as int, column_id));
                    self@.lemma_first_col_idx(column_id);
                }
                return Some(i);
            }
            i += 1;
        }
        None
    }

    /// Moves a task out of the column carrying `from_column_id` and
    /// appends it at the end of the column carrying `to_column_id`.
    ///
    /// On any failure — identical source and destination, a missing
    /// column, or a task that is not in the source column — the board is
    /// left exactly as it was; the task is never removed without being
    /// appended.
    pub fn move_task(&mut self, task_id: u128, from_column_id: u128, to_column_id: u128) -> (r:
        bool)
        requires
            old(self)@.wf(),
        ensures
            final(self)@.wf(),
            r == old(self)@.can_move(task_id, from_column_id, to_column_id),
            !r ==> final(self)@ == old(self)@,
            final(self)@.id == old(self)@.id,
            final(self)@.title == old(self)@.title,
            final(self)@.columns.len() == old(self)@.columns.len(),
            old(self)@.times_wf() ==> final(self)@.times_wf(),
            r ==> old(self)@.moved(final(self)@, task_id, from_column_id, to_column_id),
    {
        if from_column_id == to_column_id {
            return false;
        }
        let fi = match self.find_column(from_column_id) {
            Some(i) => i,
            None => {
                return false;
            },
        };
        let ti = match self.find_column(to_column_id) {
            Some(i) => i,
            None => {
                return false;
            },
        };
        let removed = self.columns[fi].remove_task(task_id);
        let t = match removed {
            Some(t) => t,
            None => {
                proof {
                    assert(self.columns@ =~= old(self).columns@);
                    assert(self@ =~= old(self)@);
                }
                return false;
            },
        };
        let ghost ov = old(self)@;
        let ghost k = ov.columns[fi as int].first_idx_of(task_id);
        self.columns[ti].add_task(t);
        proof {
            let fv = self@;
            assert(ov.columns[fi as int].is_first_task_with_id(k, task_id));
            assert(fv.columns =~= ov.columns.update(
                fi as int,
                (ColumnView { tasks: ov.columns[fi as int].tasks.remove(k), ..ov.columns[fi as int] }),
            ).update(
                ti as int,
                (ColumnView {
                    tasks: ov.columns[ti as int].tasks.push(ov.columns[fi as int].tasks[k]),
                    ..ov.columns[ti as int]
                }),
            ));
            self.lemma_move_preserves(ov, fi as int, ti as int, k, task_id);
            assert(ov.can_move(task_id, from_column_id, to_column_id));
            assert(ov.moved(self@, task_id, from_column_id, to_column_id));
        }
        true
    }

    /// A read-only borrow of the task with this identifier, scanning the
    /// columns in order.
    pub fn get_task(&self, task_id: u128) -> (r: Option<&Task>)
        ensures
            r is None <==> !self@.has_task(task_id),
            r matches Some(t) ==> ({
                let ci = self@.task_col_idx(task_id);
                let k = self@.columns[ci].first_idx_of(task_id);
                &&& self@.is_first_col_with_task(ci, task_id)
                &&& self@.columns[ci].is_first_task_with_id(k, task_id)
                &&& t@ == self@.columns[ci].tasks[k]
            }),
    {
        let n = self.columns.len();
        let mut ci: usize = 0;
        while ci < n
            invariant
                n == self.columns.len(),
                ci <= n,
                forall|j: int| 0 <= j < ci ==> !(#[trigger] self@.columns[j]).has_task(task_id),
            decreases n - ci,
        {
            let found = self.columns[ci].get_task(task_id);
            match found {
                Some(t) => {
                    proof {
                        assert(self@.columns[ci as int].has_task(task_id));
                        assert(self@.is_first_col_with_task(ci as int, task_id));
                        self@.lemma_task_col_idx(task_id);
                    }
                    return Some(t);
                },
                None => {},
            }
            ci += 1;
        }
        None
    }

    /// Whether any column holds a task with this identifier.
    pub fn contains_task(&self, task_id: u128) -> (r: bool)
        ensures
            r == self@.has_task(task_id),
    {
        match self.get_task(task_id) {
            Some(_) => true,
            None => false,
        }
    }

    /// Appends a task at the end of the column at index `ci`. The caller
    /// supplies a task whose identifier is not yet on the board, so
    /// uniqueness is preserved.
    pub fn add_task_to_column(&mut self, ci: usize, task: Task)
        requires
            old(self)@.wf(),
            ci < old(self)@.columns.len(),
            !old(self)@.has_task(task@.id),
        ensures
            final(self)@.wf(),
            final(self)@.id == old(self)@.id,
            final(self)@.title == old(self)@.title,
            final(self)@.columns =~= old(self)@.columns.update(
                ci as int,
                (ColumnView {
                    tasks: old(self)@.columns[ci as int].tasks.push(task@),
                    ..old(self)@.columns[ci as int]
                }),
            ),
            old(self)@.times_wf() && task@.times_wf() ==> final(self)@.times_wf(),
    {
        self.columns[ci].add_task(task);
        proof {
            let ov = old(self)@;
            let fv = self@;
            assert(fv.columns =~= ov.columns.update(
                ci as int,
                (ColumnView { tasks: ov.columns[ci as int].tasks.push(task@), ..ov.columns[ci as int] }),
            ));
            assert forall|i1: int, k1: int, i2: int, k2: int|
                0 <= i1 < fv.columns.len() && 0 <= k1 < fv.columns[i1].tasks.len() && 0 <= i2
                    < fv.columns.len() && 0 <= k2 < fv.columns[i2].tasks.len()
                    && (#[trigger] fv.columns[i1].tasks[k1]).id == (
                #[trigger] fv.columns[i2].tasks[k2]).id implies i1 == i2 && k1 == k2 by {
                let old_len = ov.columns[ci as int].tasks.len() as int;
                if i1 == ci && k1 == old_len {
                    assert(fv.columns[i1].tasks[k1] == task@);
                } else {
                    assert(fv.columns[i1].tasks[k1] == ov.columns[i1].tasks[k1]);
                }
                if i2 == ci && k2 == old_len {
                    assert(fv.columns[i2].tasks[k2] == task@);
                } else {
                    assert(fv.columns[i2].tasks[k2] == ov.columns[i2].tasks[k2]);
                }
            }
            assert forall|i: int|
                ov.times_wf() && task@.times_wf() && 0 <= i < fv.columns.len() implies (
            #[trigger] fv.columns[i]).times_wf() by {
                assert forall|j: int| 0 <= j < fv.columns[i].tasks.len() implies (
                #[trigger] fv.columns[i].tasks[j]).times_wf() by {
                    if i == ci && j == ov.columns[ci as int].tasks.len() {
                        assert(fv.columns[i].tasks[j] == task@);
                    } else {
                        assert(fv.columns[i].tasks[j] == ov.columns[i].tasks[j]);
                    }
                }
            }
        }
    }

    /// Overwrites title, description and priority of the task at slot
    /// `(ci, k)` and refreshes its last-modified timestamp; identifier,
    /// due date and creation timestamp stay.
    pub fn update_task_at(
        &mut self,
        ci: usize,
        k: usize,
        title: String,
        description: Option<String>,
        priority: Priority,
    )
        requires
            old(self)@.wf(),
            ci < old(self)@.columns.len(),
            k < old(self)@.columns[ci as int].tasks.len(),
        ensures
            final(self)@.wf(),
            final(self)@.id == old(self)@.id,
            final(self)@.title == old(self)@.title,
            ({
                let t0 = old(self)@.columns[ci as int].tasks[k as int];
                let t2 = final(self)@.columns[ci as int].tasks[k as int];
                &&& t2 == (TaskView {
                    title: title@,
                    description: match description {
                        Some(d) => Some(d@),
                        None => None,
                    },
                    priority: priority,
                    updated_at: t2.updated_at,
                    ..t0
                })
                &&& ts_in_range(t2.updated_at)
                &&& final(self)@.columns =~= old(self)@.columns.update(
                    ci as int,
                    (ColumnView {
                        tasks: old(self)@.columns[ci as int].tasks.update(k as int, t2),
                        ..old(self)@.columns[ci as int]
                    }),
                )
            }),
            old(self)@.times_wf() ==> final(self)@.times_wf(),
    {
        let column = &mut self.columns[ci];
        let task = &mut column.tasks[k];
        task.update_title(title);
        task.update_description(description);
        task.update_priority(priority);
        proof {
            let ov = old(self)@;
            let t2 = self@.columns[ci as int].tasks[k as int];
            assert(self@.columns[ci as int].tasks =~= ov.columns[ci as int].tasks.update(
                k as int,
                t2,
            ));
            assert(self@.columns =~= ov.columns.update(
                ci as int,
                (ColumnView {
                    tasks: ov.columns[ci as int].tasks.update(k as int, t2),
                    ..ov.columns[ci as int]
                }),
            ));
            self.lemma_replace_preserves(ov, ci as int, k as int, t2);
        }
    }

    /// Replacing the task at slot `(ci, k)` with one that carries the same
    /// identifier keeps identifiers unique.
    proof fn lemma_replace_preserves(&self, ov: BoardView, ci: int, k: int, t2: TaskView)
        requires
            ov.wf(),
            0 <= ci < ov.columns.len(),
            0 <= k < ov.columns[ci].tasks.len(),
            t2.id == ov.columns[ci].tasks[k].id,
            self@.columns =~= ov.columns.update(
                ci,
                (ColumnView { tasks: ov.columns[ci].tasks.update(k, t2), ..ov.columns[ci] }),
            ),
        ensures
            self@.wf(),
            ov.times_wf() && t2.times_wf() ==> self@.times_wf(),
    {
        let fv = self@;
        assert(fv.columns[ci].tasks =~= ov.columns[ci].tasks.update(k, t2));
        assert forall|i: int, j: int|
            0 <= i < fv.columns.len() && 0 <= j < fv.columns[i].tasks.len() implies 0 <= i
            < ov.columns.len() && 0 <= j < ov.columns[i].tasks.len() && (
        #[trigger] fv.columns[i].tasks[j]).id == ov.columns[i].tasks[j].id by {
            if i == ci && j == k {
                assert(fv.columns[i].tasks[j] == t2);
            } else {
                assert(fv.columns[i].tasks[j] == ov.columns[i].tasks[j]);
            }
        }
        assert forall|i1: int, k1: int, i2: int, k2: int|
            0 <= i1 < fv.columns.len() && 0 <= k1 < fv.columns[i1].tasks.len() && 0 <= i2
                < fv.columns.len() && 0 <= k2 < fv.columns[i2].tasks.len()
                && (#[trigger] fv.columns[i1].tasks[k1]).id == (#[trigger] fv.columns[i2].tasks[k2]).id implies i1
            == i2 && k1 == k2 by {
            assert(ov.columns[i1].tasks[k1].id == ov.columns[i2].tasks[k2].id);
        }
        assert forall|i: int|
            ov.times_wf() && t2.times_wf() && 0 <= i < fv.columns.len() implies (
        #[trigger] fv.columns[i]).times_wf() by {
            assert forall|j: int| 0 <= j < fv.columns[i].tasks.len() implies (
            #[trigger] fv.columns[i].tasks[j]).times_wf() by {
                if i == ci && j == k {
                    assert(fv.columns[i].tasks[j] == t2);
                } else {
                    assert(fv.columns[i].tasks[j] == ov.columns[i].tasks[j]);
                    assert(ov.columns[i].times_wf());
                }
            }
        }
    }

    /// Removes the first task with this identifier, scanning the columns
    /// in order; reports whether a deletion occurred.
    pub fn delete_task(&mut self, task_id: u128) -> (r: bool)
        requires
            old(self)@.wf(),
        ensures
            final(self)@.wf(),
            r == old(self)@.has_task(task_id),
            !r ==> final(self)@ == old(self)@,
            final(self)@.id == old(self)@.id,
            final(self)@.title == old(self)@.title,
            final(self)@.columns.len() == old(self)@.columns.len(),
            old(self)@.times_wf() ==> final(self)@.times_wf(),
            r ==> ({
                let ci = old(self)@.task_col_idx(task_id);
                let k = old(self)@.columns[ci].first_idx_of(task_id);
                &&& old(self)@.is_first_col_with_task(ci, task_id)
                &&& old(self)@.columns[ci].is_first_task_with_id(k, task_id)
                &&& final(self)@.columns =~= old(self)@.columns.update(
                    ci,
                    (ColumnView {
                        tasks: old(self)@.columns[ci].tasks.remove(k),
                        ..old(self)@.columns[ci]
                    }),
                )
            }),
            r ==> !final(self)@.has_task(task_id),
    {
        let n = self.columns.len();
        let mut ci: usize = 0;
        while ci < n
            invariant
                old(self)@.wf(),
                n == self.columns.len(),
                ci <= n,
                self.id == old(self).id,
                self.title@ == old(self).title@,
                self.columns@ == old(self).columns@,
                forall|j: int| 0 <= j < ci ==> !(#[trigger] old(self)@.columns[j]).has_task(task_id),
            decreases n - ci,
        {
            let removed = self.columns[ci].remove_task(task_id);
            match removed {
                Some(_) => {
                    proof {
                        let ov = old(self)@;
                        assert(ov.columns[ci as int].has_task(task_id));
                        assert(ov.is_first_col_with_task(ci as int, task_id));
                        ov.lemma_task_col_idx(task_id);
                        let k = ov.columns[ci as int].first_idx_of(task_id);
                        assert(ov.columns[ci as int].is_first_task_with_id(k, task_id));
                        assert(self@.columns =~= ov.columns.update(
                            ci as int,
                            (ColumnView {
                                tasks: ov.columns[ci as int].tasks.remove(k),
                                ..ov.columns[ci as int]
                            }),
                        ));
                        self.lemma_remove_preserves(ov, ci as int, k, task_id);
                        assert(ov.has_task(task_id));
                    }
                    return true;
                },
                None => {
                    proof {
                        assert(self.columns@ =~= old(self).columns@);
                        assert(!old(self)@.columns[ci as int].has_task(task_id));
                    }
                },
            }
            ci += 1;
        }
        proof {
            assert(self@ =~= old(self)@);
        }
        false
    }

    /// After removing the task at slot `(ci, k)`, identifiers are still
    /// unique and no task with the removed identifier remains.
    proof fn lemma_remove_preserves(&self, ov: BoardView, ci: int, k: int, task_id: u128)
        requires
            ov.wf(),
            0 <= ci < ov.columns.len(),
            ov.columns[ci].is_first_task_with_id(k, task_id),
            self@.columns =~= ov.columns.update(
                ci,
                (ColumnView { tasks: ov.columns[ci].tasks.remove(k), ..ov.columns[ci] }),
            ),
        ensures
            self@.wf(),
            !self@.has_task(task_id),
            ov.times_wf() ==> self@.times_wf(),
    {
        let fv = self@;
        assert(fv.columns[ci].tasks =~= ov.columns[ci].tasks.remove(k));
        assert forall|i: int, j: int|
            0 <= i < fv.columns.len() && 0 <= j < fv.columns[i].tasks.len() implies {
            let o = Self::removed_origin(ci, k, i, j);
            0 <= o.0 < ov.columns.len() && 0 <= o.1 < ov.columns[o.0].tasks.len() && (
            #[trigger] fv.columns[i].tasks[j]) == ov.columns[o.0].tasks[o.1] && !(o.0 == ci && o.1
                == k)
        } by {
            if i == ci {
                if j < k {
                    assert(fv.columns[i].tasks[j] == ov.columns[ci].tasks[j]);
                } else {
                    assert(fv.columns[i].tasks[j] == ov.columns[ci].tasks[j + 1]);
                }
            } else {
                assert(fv.columns[i].tasks[j] == ov.columns[i].tasks[j]);
            }
        }
        assert forall|i1: int, k1: int, i2: int, k2: int|
            0 <= i1 < fv.columns.len() && 0 <= k1 < fv.columns[i1].tasks.len() && 0 <= i2
                < fv.columns.len() && 0 <= k2 < fv.columns[i2].tasks.len()
                && (#[trigger] fv.columns[i1].tasks[k1]).id == (#[trigger] fv.columns[i2].tasks[k2]).id implies i1
            == i2 && k1 == k2 by {
            let o1 = Self::removed_origin(ci, k, i1, k1);
            let o2 = Self::removed_origin(ci, k, i2, k2);
            assert(fv.columns[i1].tasks[k1] == ov.columns[o1.0].tasks[o1.1]);
            assert(fv.columns[i2].tasks[k2] == ov.columns[o2.0].tasks[o2.1]);
            assert(ov.columns[o1.0].tasks[o1.1].id == ov.columns[o2.0].tasks[o2.1].id);
            assert(o1 == o2);
        }
        assert forall|i: int, j: int|
            0 <= i < fv.columns.len() && 0 <= j < fv.columns[i].tasks.len() implies (
        #[trigger] fv.columns[i].tasks[j]).id != task_id by {
            let o = Self::removed_origin(ci, k, i, j);
            assert(fv.columns[i].tasks[j] == ov.columns[o.0].tasks[o.1]);
            if ov.columns[o.0].tasks[o.1].id == task_id {
                assert(ov.columns[ci].tasks[k].id == task_id);
                assert(o.0 == ci && o.1 == k);
            }
        }
        assert forall|i: int| ov.times_wf() && 0 <= i < fv.columns.len() implies (
        #[trigger] fv.columns[i]).times_wf() by {
            assert forall|j: int| 0 <= j < fv.columns[i].tasks.len() implies (
            #[trigger] fv.columns[i].tasks[j]).times_wf() by {
                let o = Self::removed_origin(ci, k, i, j);
                assert(fv.columns[i].tasks[j] == ov.columns[o.0].tasks[o.1]);
                assert(ov.columns[o.0].times_wf());
            }
        }
    }

    /// The old-board slot whose task ends up in new-board slot `(i, j)`
    /// after the removal described in `lemma_remove_preserves`.
    spec fn removed_origin(ci: int, k: int, i: int, j: int) -> (int, int) {
        if i == ci && j >= k {
            (i, j + 1)
        } else {
            (i, j)
        }
    }

    /// After moving one task from slot `(fi, k)` to the tail of column
    /// `ti`, identifiers are still unique and no copy stays behind.
    proof fn lemma_move_preserves(&self, ov: BoardView, fi: int, ti: int, k: int, task_id: u128)
        requires
            ov.wf(),
            0 <= fi < ov.columns.len(),
            0 <= ti < ov.columns.len(),
            fi != ti,
            ov.columns[fi].is_first_task_with_id(k, task_id),
            self@.columns =~= ov.columns.update(
                fi,
                (ColumnView { tasks: ov.columns[fi].tasks.remove(k), ..ov.columns[fi] }),
            ).update(
                ti,
                (ColumnView { tasks: ov.columns[ti].tasks.push(ov.columns[fi].tasks[k]), ..ov.columns[ti] }),
            ),
        ensures
            self@.wf(),
            !self@.columns[fi].has_task(task_id),
            ov.times_wf() ==> self@.times_wf(),
    {
        let fv = self@;
        assert(fv.columns[fi].tasks =~= ov.columns[fi].tasks.remove(k));
        assert(fv.columns[ti].tasks =~= ov.columns[ti].tasks.push(ov.columns[fi].tasks[k]));
        // Each slot of the new board holds the task of one old slot, and
        // the map back to old slots is injective, so uniqueness carries
        // over.
        assert forall|i: int, j: int|
            0 <= i < fv.columns.len() && 0 <= j < fv.columns[i].tasks.len() implies {
            let o = Self::origin_slot(ov, fi, ti, k, i, j);
            0 <= o.0 < ov.columns.len() && 0 <= o.1 < ov.columns[o.0].tasks.len() && (
            #[trigger] fv.columns[i].tasks[j]) == ov.columns[o.0].tasks[o.1]
        } by {
            if i == fi {
                if j < k {
                    assert(fv.columns[i].tasks[j] == ov.columns[fi].tasks[j]);
                } else {
                    assert(fv.columns[i].tasks[j] == ov.columns[fi].tasks[j + 1]);
                }
            } else if i == ti {
                if j < ov.columns[ti].tasks.len() {
                    assert(fv.columns[i].tasks[j] == ov.columns[ti].tasks[j]);
                } else {
                    assert(fv.columns[i].tasks[j] == ov.columns[fi].tasks[k]);
                }
            } else {
                assert(fv.columns[i].tasks[j] == ov.columns[i].tasks[j]);
            }
        }
        assert forall|i1: int, k1: int, i2: int, k2: int|
            0 <= i1 < fv.columns.len() && 0 <= k1 < fv.columns[i1].tasks.len() && 0 <= i2
                < fv.columns.len() && 0 <= k2 < fv.columns[i2].tasks.len()
                && (#[trigger] fv.columns[i1].tasks[k1]).id == (#[trigger] fv.columns[i2].tasks[k2]).id implies i1
            == i2 && k1 == k2 by {
            let o1 = Self::origin_slot(ov, fi, ti, k, i1, k1);
            let o2 = Self::origin_slot(ov, fi, ti, k, i2, k2);
            assert(fv.columns[i1].tasks[k1] == ov.columns[o1.0].tasks[o1.1]);
            assert(fv.columns[i2].tasks[k2] == ov.columns[o2.0].tasks[o2.1]);
            assert(ov.columns[o1.0].tasks[o1.1].id == ov.columns[o2.0].tasks[o2.1].id);
            assert(o1 == o2);
        }
        assert(!fv.columns[fi].has_task(task_id)) by {
            assert forall|j: int| 0 <= j < fv.columns[fi].tasks.len() implies (
            #[trigger] fv.columns[fi].tasks[j]).id != task_id by {
                let j0: int = if j < k {
                    j
                } else {
                    j + 1
                };
                assert(fv.columns[fi].tasks[j] == ov.columns[fi].tasks[j0]);
                if ov.columns[fi].tasks[j0].id == task_id {
                    assert(ov.columns[fi].tasks[k].id == task_id);
                }
            }
        }
        assert forall|i: int| ov.times_wf() && 0 <= i < fv.columns.len() implies (
        #[trigger] fv.columns[i]).times_wf() by {
            assert forall|j: int| 0 <= j < fv.columns[i].tasks.len() implies (
            #[trigger] fv.columns[i].tasks[j]).times_wf() by {
                let o = Self::origin_slot(ov, fi, ti, k, i, j);
                assert(fv.columns[i].tasks[j] == ov.columns[o.0].tasks[o.1]);
                assert(ov.columns[o.0].times_wf());
            }
        }
    }

    /// The old-board slot whose task ends up in new-board slot `(i, j)`
    /// after the move described in `lemma_move_preserves`.
    spec fn origin_slot(ov: BoardView, fi: int, ti: int, k: int, i: int, j: int) -> (int, int) {
        if i == fi {
            if j < k {
                (i, j)
            } else {
                (i, j + 1)
            }
        } else if i == ti && j == ov.columns[ti].tasks.len() {
            (fi, k)
        } else {
            (i, j)
        }
    }
}

} // verus!
