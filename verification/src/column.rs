//! A column: a named, ordered bucket of tasks. Order is meaningful —
//! appending puts a task at the end, and relative order survives removals.

use vstd::prelude::*;

use crate::ids::fresh_id;
use crate::task::{Task, TaskView};

verus! {

/// The mathematical value of a column.
#[verifier::ext_equal]
pub struct ColumnView {
    pub id: u128,
    pub title: Seq<char>,
    pub tasks: Seq<TaskView>,
}

impl ColumnView {
    /// Some task in the column carries this identifier.
    pub open spec fn has_task(self, task_id: u128) -> bool {
        exists|i: int| 0 <= i < self.tasks.len() && (#[trigger] self.tasks[i]).id == task_id
    }

    /// `i` points at the first task carrying this identifier.
    pub open spec fn is_first_task_with_id(self, i: int, task_id: u128) -> bool {
        &&& 0 <= i < self.tasks.len()
        &&& self.tasks[i].id == task_id
        &&& forall|j: int| 0 <= j < i ==> (#[trigger] self.tasks[j]).id != task_id
    }

    /// The index of the first task carrying this identifier; meaningful
    /// only when `has_task` holds.
    pub open spec fn first_idx_of(self, task_id: u128) -> int {
        choose|i: int| self.is_first_task_with_id(i, task_id)
    }

    /// Below any index carrying the identifier there is a first one.
    proof fn lemma_exists_first(self, task_id: u128, w: int)
        requires
            0 <= w < self.tasks.len(),
            self.tasks[w].id == task_id,
        ensures
            exists|i: int| self.is_first_task_with_id(i, task_id),
        decreases w,
    {
        if exists|j: int| 0 <= j < w && (#[trigger] self.tasks[j]).id == task_id {
            let j = choose|j: int| 0 <= j < w && (#[trigger] self.tasks[j]).id == task_id;
            self.lemma_exists_first(task_id, j);
        } else {
            assert(self.is_first_task_with_id(w, task_id));
        }
    }

    /// When the column has the task, the first index exists, is unique,
    /// and `first_idx_of` points at it.
    pub proof fn lemma_first_idx(self, task_id: u128)
        requires
            self.has_task(task_id),
        ensures
            self.is_first_task_with_id(self.first_idx_of(task_id), task_id),
            forall|i: int| self.is_first_task_with_id(i, task_id) ==> i == self.first_idx_of(
                task_id,
            ),
    {
        let w = choose|i: int|
            0 <= i < self.tasks.len() && (#[trigger] self.tasks[i]).id == task_id;
        self.lemma_exists_first(task_id, w);
        let f = self.first_idx_of(task_id);
        assert(self.is_first_task_with_id(f, task_id));
        assert forall|i: int| self.is_first_task_with_id(i, task_id) implies i == f by {
            assert(self.tasks[f].id == task_id);
            assert(self.tasks[i].id == task_id);
        }
    }

    /// Every task in the column can be written out.
    pub open spec fn times_wf(self) -> bool {
        forall|i: int| 0 <= i < self.tasks.len() ==> (#[trigger] self.tasks[i]).times_wf()
    }
}

/// A named, ordered sequence of tasks.
#[derive(Clone, Debug, PartialEq)]
pub struct Column {
    pub id: u128,
    pub title: String,
    pub tasks: Vec<Task>,
}

impl View for Column {
    type V = ColumnView;

    open spec fn view(&self) -> ColumnView {
        ColumnView {
            id: self.id,
            title: self.title@,
            tasks: Seq::new(self.tasks@.len(), |i: int| self.tasks@[i]@),
        }
    }
}

impl Column {
    /// An empty column with a fresh identifier.
    pub fn new(title: String) -> (r: Column)
        ensures
            r@.title == title@,
            r@.tasks == Seq::<TaskView>::empty(),
    {
        let r = Column { id: fresh_id(), title, tasks: Vec::new() };
        proof {
            assert(r@.tasks =~= Seq::<TaskView>::empty());
        }
        r
    }

    /// Appends a task at the end of the column.
    pub fn add_task(&mut self, task: Task)
        ensures
            final(self)@ == (ColumnView { tasks: old(self)@.tasks.push(task@), ..old(self)@ }),
    {
        self.tasks.push(task);
        proof {
            assert(self@.tasks =~= old(self)@.tasks.push(task@));
        }
    }

    /// Removes and returns the first task with this identifier; a miss is
    /// a normal case, reported as `None`, and changes nothing.
    pub fn remove_task(&mut self, task_id: u128) -> (r: Option<Task>)
        ensures
            r is None <==> !old(self)@.has_task(task_id),
            r is None ==> *final(self) == *old(self),
            r matches Some(t) ==> ({
                let i = old(self)@.first_idx_of(task_id);
                &&& old(self)@.is_first_task_with_id(i, task_id)
                &&& t@ == old(self)@.tasks[i]
                &&& final(self)@ == (ColumnView { tasks: old(self)@.tasks.remove(i), ..old(self)@ })
            }),
    {
        let n = self.tasks.len();
        let mut i: usize = 0;
        while i < n
            invariant
                n == self.tasks.len(),
                *self == *old(self),
                i <= n,
                forall|j: int| 0 <= j < i ==> (#[trigger] self@.tasks[j]).id != task_id,
            decreases n - i,
        {
            if self.tasks[i].id == task_id {
                let t = self.tasks.remove(i);
                proof {
                    assert(old(self)@.is_first_task_with_id(i as int, task_id));
                    old(self)@.lemma_first_idx(task_id);
                    assert(self@.tasks =~= old(self)@.tasks.remove(i as int));
                }
                return Some(t);
            }
            i += 1;
        }
        None
    }

    /// A read-only borrow of the first task with this identifier.
    pub fn get_task(&self, task_id: u128) -> (r: Option<&Task>)
        ensures
            r is None <==> !self@.has_task(task_id),
            r matches Some(t) ==> ({
                let i = self@.first_idx_of(task_id);
                self@.is_first_task_with_id(i, task_id) && t@ == self@.tasks[i]
            }),
    {
        let n = self.tasks.len();
        let mut i: usize = 0;
        while i < n
            invariant
                n == self.tasks.len(),
                i <= n,
                forall|j: int| 0 <= j < i ==> (#[trigger] self@.tasks[j]).id != task_id,
            decreases n - i,
        {
            if self.tasks[i].id == task_id {
                proof {
                    assert(self@.is_first_task_with_id(i as int, task_id));
                    self@.lemma_first_idx(task_id);
                }
                return Some(&self.tasks[i]);
            }
            i += 1;
        }
        None
    }
}

} // verus!
