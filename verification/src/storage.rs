//! The persisted shape of a board, and the codec between the two.
//!
//! The persistence layer stores plain rows of text: identifiers in their
//! hyphenated UUID form, timestamps as RFC 3339 text in UTC, priorities
//! as their tags, and row order standing for column and task order.
//! Encoding a well-formed board always succeeds, and decoding what was
//! encoded gives the identical board back; decoding anything else either
//! produces a well-formed board or reports the record as corrupt.

use vstd::prelude::*;

use crate::board::{Board, BoardView};
use crate::column::{Column, ColumnView};
use crate::ids::{id_to_string, parse_id, uuid_str_of};
use crate::task::{lemma_priority_tag_round_trip, priority_of_tag, spec_priority_of_tag, Task, TaskView};
use crate::time::{format_timestamp, parse_timestamp, rfc3339_of, ts_ok};

verus! {

/// One task as the persistence layer stores it: every field as text.
#[derive(Clone, Debug, PartialEq)]
pub struct TaskRecord {
    pub id: String,
    pub title: String,
    pub description: Option<String>,
    pub due_date: Option<String>,
    pub priority: String,
    pub created_at: String,
    pub updated_at: String,
}

/// The mathematical value of a stored task row.
#[verifier::ext_equal]
pub struct TaskRecordView {
    pub id: Seq<char>,
    pub title: Seq<char>,
    pub description: Option<Seq<char>>,
    pub due_date: Option<Seq<char>>,
    pub priority: Seq<char>,
    pub created_at: Seq<char>,
    pub updated_at: Seq<char>,
}

impl View for TaskRecord {
    type V = TaskRecordView;

    open spec fn view(&self) -> TaskRecordView {
        TaskRecordView {
            id: self.id@,
            title: self.title@,
            description: match self.description {
                Some(s) => Some(s@),
                None => None,
            },
            due_date: match self.due_date {
                Some(s) => Some(s@),
                None => None,
            },
            priority: self.priority@,
            created_at: self.created_at@,
            updated_at: self.updated_at@,
        }
    }
}

/// One column as stored: its own row and its task rows in order.
#[derive(Clone, Debug, PartialEq)]
pub struct ColumnRecord {
    pub id: String,
    pub title: String,
    pub tasks: Vec<TaskRecord>,
}

/// The mathematical value of a stored column.
#[verifier::ext_equal]
pub struct ColumnRecordView {
    pub id: Seq<char>,
    pub title: Seq<char>,
    pub tasks: Seq<TaskRecordView>,
}

impl View for ColumnRecord {
    type V = ColumnRecordView;

    open spec fn view(&self) -> ColumnRecordView {
        ColumnRecordView {
            id: self.id@,
            title: self.title@,
            tasks: Seq::new(self.tasks@.len(), |i: int| self.tasks@[i]@),
        }
    }
}

/// One whole board as stored.
#[derive(Clone, Debug, PartialEq)]
pub struct BoardRecord {
    pub id: String,
    pub title: String,
    pub columns: Vec<ColumnRecord>,
}

/// The mathematical value of a stored board.
#[verifier::ext_equal]
pub struct BoardRecordView {
    pub id: Seq<char>,
    pub title: Seq<char>,
    pub columns: Seq<ColumnRecordView>,
}

impl View for BoardRecord {
    type V = BoardRecordView;

    open spec fn view(&self) -> BoardRecordView {
        BoardRecordView {
            id: self.id@,
            title: self.title@,
            columns: Seq::new(self.columns@.len(), |i: int| self.columns@[i]@),
        }
    }
}

/// The stored form of one task.
pub open spec fn spec_encode_task(t: TaskView) -> TaskRecordView {
    TaskRecordView {
        id: uuid_str_of(t.id),
        title: t.title,
        description: t.description,
        due_date: match t.due_date {
            Some(d) => Some(rfc3339_of(d)),
            None => None,
        },
        priority: t.priority.spec_tag(),
        created_at: rfc3339_of(t.created_at),
        updated_at: rfc3339_of(t.updated_at),
    }
}

/// The stored form of one column.
pub open spec fn spec_encode_column(c: ColumnView) -> ColumnRecordView {
    ColumnRecordView {
        id: uuid_str_of(c.id),
        title: c.title,
        tasks: c.tasks.map_values(|t: TaskView| spec_encode_task(t)),
    }
}

/// The stored form of one board.
pub open spec fn spec_encode_board(b: BoardView) -> BoardRecordView {
    BoardRecordView {
        id: uuid_str_of(b.id),
        title: b.title,
        columns: b.columns.map_values(|c: ColumnView| spec_encode_column(c)),
    }
}

/// Writes one task out; fails exactly when a timestamp cannot be stored.
pub fn encode_task(t: &Task) -> (r: Option<TaskRecord>)
    ensures
        r is Some <==> t@.times_wf(),
        r matches Some(rec) ==> rec@ == spec_encode_task(t@),
{
    if !ts_ok(t.created_at) || !ts_ok(t.updated_at) {
        return None;
    }
    let due_date = match &t.due_date {
        Some(d) => {
            if !ts_ok(*d) {
                return None;
            }
            Some(format_timestamp(*d))
        },
        None => None,
    };
    let description = match &t.description {
        Some(s) => Some(s.clone()),
        None => None,
    };
    let rec = TaskRecord {
        id: id_to_string(t.id),
        title: t.title.clone(),
        description,
        due_date,
        priority: t.priority.tag(),
        created_at: format_timestamp(t.created_at),
        updated_at: format_timestamp(t.updated_at),
    };
    proof {
        assert(rec@ =~= spec_encode_task(t@));
    }
    Some(rec)
}

/// Writes one column out; fails exactly when some task of it cannot be
/// stored.
pub fn encode_column(c: &Column) -> (r: Option<ColumnRecord>)
    ensures
        r is Some <==> c@.times_wf(),
        r matches Some(rec) ==> rec@ == spec_encode_column(c@),
{
    let n = c.tasks.len();
    let mut tasks: Vec<TaskRecord> = Vec::new();
    let mut i: usize = 0;
    while i < n
        invariant
            n == c.tasks.len(),
            i <= n,
            tasks@.len() == i,
            forall|j: int| 0 <= j < i ==> (#[trigger] c@.tasks[j]).times_wf(),
            forall|j: int| 0 <= j < i ==> (#[trigger] tasks@[j])@ == spec_encode_task(c@.tasks[j]),
        decreases n - i,
    {
        match encode_task(&c.tasks[i]) {
            Some(rec) => {
                tasks.push(rec);
            },
            None => {
                proof {
                    assert(!c@.tasks[i as int].times_wf());
                }
                return None;
            },
        }
        i += 1;
    }
    let rec = ColumnRecord { id: id_to_string(c.id), title: c.title.clone(), tasks };
    proof {
        assert(rec@ =~= spec_encode_column(c@));
    }
    Some(rec)
}

/// Writes one board out; fails exactly when some task of it cannot be
/// stored.
pub fn encode_board(b: &Board) -> (r: Option<BoardRecord>)
    ensures
        r is Some <==> b@.times_wf(),
        r matches Some(rec) ==> rec@ == spec_encode_board(b@),
{
    let n = b.columns.len();
    let mut columns: Vec<ColumnRecord> = Vec::new();
    let mut i: usize = 0;
    while i < n
        invariant
            n == b.columns.len(),
            i <= n,
            columns@.len() == i,
            forall|j: int| 0 <= j < i ==> (#[trigger] b@.columns[j]).times_wf(),
            forall|j: int| 0 <= j < i ==> (#[trigger] columns@[j])@ == spec_encode_column(
                b@.columns[j],
            ),
        decreases n - i,
    {
        match encode_column(&b.columns[i]) {
            Some(rec) => {
                columns.push(rec);
            },
            None => {
                proof {
                    assert(!b@.columns[i as int].times_wf());
                }
                return None;
            },
        }
        i += 1;
    }
    let rec = BoardRecord { id: id_to_string(b.id), title: b.title.clone(), columns };
    proof {
        assert(rec@ =~= spec_encode_board(b@));
    }
    Some(rec)
}

/// Reads one task row back. Any row that encodes a storable task decodes
/// to exactly that task; rows with unreadable fields are corrupt — in
/// particular a priority tag that is none of the four written ones
/// always fails the row.
pub fn decode_task(rec: &TaskRecord) -> (r: Option<Task>)
    ensures
        r matches Some(t) ==> t@.times_wf(),
        spec_priority_of_tag(rec@.priority) is None ==> r is None,
        forall|t: TaskView|
            t.times_wf() && #[trigger] spec_encode_task(t) == rec@ ==> (r matches Some(x)
                && x@ == t),
{
    let id = match parse_id(&rec.id) {
        Some(i) => i,
        None => {
            proof {
                assert forall|t: TaskView|
                    t.times_wf() && #[trigger] spec_encode_task(t) == rec@ implies false by {
                    assert(rec@.id == uuid_str_of(t.id));
                }
            }
            return None;
        },
    };
    let priority = match priority_of_tag(&rec.priority) {
        Some(p) => p,
        None => {
            proof {
                assert forall|t: TaskView|
                    t.times_wf() && #[trigger] spec_encode_task(t) == rec@ implies false by {
                    assert(rec@.priority == t.priority.spec_tag());
                    lemma_priority_tag_round_trip(t.priority);
                }
            }
            return None;
        },
    };
    let created_at = match parse_timestamp(&rec.created_at) {
        Some(c) => c,
        None => {
            proof {
                assert forall|t: TaskView|
                    t.times_wf() && #[trigger] spec_encode_task(t) == rec@ implies false by {
                    assert(rec@.created_at == rfc3339_of(t.created_at));
                }
            }
            return None;
        },
    };
    let updated_at = match parse_timestamp(&rec.updated_at) {
        Some(u) => u,
        None => {
            proof {
                assert forall|t: TaskView|
                    t.times_wf() && #[trigger] spec_encode_task(t) == rec@ implies false by {
                    assert(rec@.updated_at == rfc3339_of(t.updated_at));
                }
            }
            return None;
        },
    };
    if !ts_ok(created_at) || !ts_ok(updated_at) {
        proof {
            assert forall|t: TaskView|
                t.times_wf() && #[trigger] spec_encode_task(t) == rec@ implies false by {
                assert(rec@.created_at == rfc3339_of(t.created_at));
                assert(rec@.updated_at == rfc3339_of(t.updated_at));
            }
        }
        return None;
    }
    let due_date = match &rec.due_date {
        Some(s) => {
            match parse_timestamp(s) {
                Some(d) => {
                    if !ts_ok(d) {
                        proof {
                            assert forall|t: TaskView|
                                t.times_wf() && #[trigger] spec_encode_task(t) == rec@ implies false by {
                                assert(t.due_date matches Some(d0) && rec@.due_date == Some(
                                    rfc3339_of(d0),
                                ));
                            }
                        }
                        return None;
                    }
                    Some(d)
                },
                None => {
                    proof {
                        assert forall|t: TaskView|
                            t.times_wf() && #[trigger] spec_encode_task(t) == rec@ implies false by {
                            assert(t.due_date matches Some(d0) && rec@.due_date == Some(
                                rfc3339_of(d0),
                            ));
                        }
                    }
                    return None;
                },
            }
        },
        None => None,
    };
    let description = match &rec.description {
        Some(s) => Some(s.clone()),
        None => None,
    };
    let out = Task {
        id,
        title: rec.title.clone(),
        description,
        due_date,
        priority,
        created_at,
        updated_at,
    };
    proof {
        assert forall|t: TaskView|
            t.times_wf() && #[trigger] spec_encode_task(t) == rec@ implies out@ == t by {
            assert(rec@.id == uuid_str_of(t.id));
            assert(rec@.priority == t.priority.spec_tag());
            lemma_priority_tag_round_trip(t.priority);
            assert(rec@.created_at == rfc3339_of(t.created_at));
            assert(rec@.updated_at == rfc3339_of(t.updated_at));
            match t.due_date {
                Some(d0) => {
                    assert(rec@.due_date == Some(rfc3339_of(d0)));
                },
                None => {
                    assert(rec@.due_date is None);
                },
            }
            assert(out@ =~= t);
        }
    }
    Some(out)
}

/// Reads one column row and its task rows back, in order.
pub fn decode_column(rec: &ColumnRecord) -> (r: Option<Column>)
    ensures
        r matches Some(c) ==> c@.times_wf(),
        forall|c: ColumnView|
            c.times_wf() && #[trigger] spec_encode_column(c) == rec@ ==> (r matches Some(x)
                && x@ == c),
{
    let id = match parse_id(&rec.id) {
        Some(i) => i,
        None => {
            proof {
                assert forall|c: ColumnView|
                    c.times_wf() && #[trigger] spec_encode_column(c) == rec@ implies false by {
                    assert(rec@.id == uuid_str_of(c.id));
                }
            }
            return None;
        },
    };
    let n = rec.tasks.len();
    let mut tasks: Vec<Task> = Vec::new();
    let mut i: usize = 0;
    while i < n
        invariant
            n == rec.tasks@.len(),
            i <= n,
            tasks@.len() == i,
            forall|j: int| 0 <= j < i ==> (#[trigger] tasks@[j])@.times_wf(),
            forall|j: int, t: TaskView|
                0 <= j < i && t.times_wf() && #[trigger] spec_encode_task(t) == rec@.tasks[j] ==> (
                #[trigger] tasks@[j])@ == t,
        decreases n - i,
    {
        match decode_task(&rec.tasks[i]) {
            Some(t) => {
                tasks.push(t);
            },
            None => {
                proof {
                    assert forall|c: ColumnView|
                        c.times_wf() && #[trigger] spec_encode_column(c) == rec@ implies false by {
                        assert(rec@.tasks.len() == c.tasks.len());
                        assert(rec@.tasks[i as int] == spec_encode_task(c.tasks[i as int]));
                        assert(c.tasks[i as int].times_wf());
                    }
                }
                return None;
            },
        }
        i += 1;
    }
    let out = Column { id, title: rec.title.clone(), tasks };
    proof {
        assert forall|c: ColumnView|
            c.times_wf() && #[trigger] spec_encode_column(c) == rec@ implies out@ == c by {
            assert(rec@.id == uuid_str_of(c.id));
            assert(rec@.tasks.len() == c.tasks.len());
            assert forall|j: int| 0 <= j < c.tasks.len() implies out@.tasks[j] == c.tasks[j] by {
                assert(rec@.tasks[j] == spec_encode_task(c.tasks[j]));
                assert(c.tasks[j].times_wf());
            }
            assert(out@.tasks =~= c.tasks);
            assert(out@ =~= c);
        }
    }
    Some(out)
}

/// No task identifier occurs at one slot and again at a later slot.
spec fn no_later_dup(bv: BoardView, i: int, k: int) -> bool {
    &&& forall|k2: int|
        k < k2 < bv.columns[i].tasks.len() ==> (#[trigger] bv.columns[i].tasks[k2]).id
            != bv.columns[i].tasks[k].id
    &&& forall|i2: int|
        i < i2 < bv.columns.len() ==> !(#[trigger] bv.columns[i2]).has_task(
            bv.columns[i].tasks[k].id,
        )
}

/// If no slot has a later duplicate, identifiers are unique board-wide.
proof fn lemma_wf_from_no_later_dups(bv: BoardView)
    requires
        forall|i: int, k: int|
            0 <= i < bv.columns.len() && 0 <= k < bv.columns[i].tasks.len()
                ==> #[trigger] no_later_dup(bv, i, k),
    ensures
        bv.wf(),
{
    assert forall|i1: int, k1: int, i2: int, k2: int|
        0 <= i1 < bv.columns.len() && 0 <= k1 < bv.columns[i1].tasks.len() && 0 <= i2
            < bv.columns.len() && 0 <= k2 < bv.columns[i2].tasks.len()
            && (#[trigger] bv.columns[i1].tasks[k1]).id == (#[trigger] bv.columns[i2].tasks[k2]).id implies i1
        == i2 && k1 == k2 by {
        if i1 < i2 {
            assert(no_later_dup(bv, i1, k1));
            assert(bv.columns[i2].has_task(bv.columns[i1].tasks[k1].id));
            assert(false);
        } else if i2 < i1 {
            assert(no_later_dup(bv, i2, k2));
            assert(bv.columns[i1].has_task(bv.columns[i2].tasks[k2].id));
            assert(false);
        } else if k1 < k2 {
            assert(no_later_dup(bv, i1, k1));
            assert(false);
        } else if k2 < k1 {
            assert(no_later_dup(bv, i2, k2));
            assert(false);
        }
    }
}

/// Decides whether a board's task identifiers are unique board-wide.
fn board_wf_check(b: &Board) -> (r: bool)
    ensures
        r == b@.wf(),
{
    let ncols = b.columns.len();
    let mut i: usize = 0;
    while i < ncols
        invariant
            ncols == b.columns@.len(),
            i <= ncols,
            forall|i0: int, k0: int|
                0 <= i0 < i && 0 <= k0 < b@.columns[i0].tasks.len() ==> #[trigger] no_later_dup(
                    b@,
                    i0,
                    k0,
                ),
        decreases ncols - i,
    {
        let ntasks = b.columns[i].tasks.len();
        let mut k: usize = 0;
        while k < ntasks
            invariant
                ncols == b.columns@.len(),
                i < ncols,
                ntasks == b@.columns[i as int].tasks.len(),
                k <= ntasks,
                forall|i0: int, k0: int|
                    0 <= i0 < i && 0 <= k0 < b@.columns[i0].tasks.len() ==> #[trigger] no_later_dup(
                        b@,
                        i0,
                        k0,
                    ),
                forall|k0: int| 0 <= k0 < k ==> #[trigger] no_later_dup(b@, i as int, k0),
            decreases ntasks - k,
        {
            let id = b.columns[i].tasks[k].id;
            let mut k2: usize = k + 1;
            while k2 < ntasks
                invariant
                    ncols == b.columns@.len(),
                    i < ncols,
                    ntasks == b@.columns[i as int].tasks.len(),
                    k < ntasks,
                    k < k2,
                    id == b@.columns[i as int].tasks[k as int].id,
                    forall|m: int|
                        k < m < k2 ==> (#[trigger] b@.columns[i as int].tasks[m]).id != id,
                decreases ntasks - k2,
            {
                if b.columns[i].tasks[k2].id == id {
                    proof {
                        assert(b@.columns[i as int].tasks[k2 as int].id == b@.columns[i as int].tasks[k as int].id);
                        assert(!b@.wf());
                    }
                    return false;
                }
                k2 += 1;
            }
            let mut i2: usize = i + 1;
            while i2 < ncols
                invariant
                    ncols == b.columns@.len(),
                    i < ncols,
                    ntasks == b@.columns[i as int].tasks.len(),
                    k < ntasks,
                    i < i2,
                    id == b@.columns[i as int].tasks[k as int].id,
                    forall|m: int|
                        i < m < i2 ==> !(#[trigger] b@.columns[m]).has_task(id),
                decreases ncols - i2,
            {
                match b.columns[i2].get_task(id) {
                    Some(_) => {
                        proof {
                            let cv = b@.columns[i2 as int];
                            assert(cv.has_task(id));
                            let k3 = choose|k3: int|
                                0 <= k3 < cv.tasks.len() && (#[trigger] cv.tasks[k3]).id == id;
                            assert(b@.columns[i2 as int].tasks[k3].id == b@.columns[i as int].tasks[k as int].id);
                            assert(!b@.wf());
                        }
                        return false;
                    },
                    None => {},
                }
                i2 += 1;
            }
            proof {
                assert(no_later_dup(b@, i as int, k as int));
            }
            k += 1;
        }
        i += 1;
    }
    proof {
        lemma_wf_from_no_later_dups(b@);
    }
    true
}

/// Decides whether a board's column identifiers are unique board-wide.
fn board_cols_check(b: &Board) -> (r: bool)
    ensures
        r == b@.cols_wf(),
{
    let n = b.columns.len();
    let mut i: usize = 0;
    while i < n
        invariant
            n == b.columns@.len(),
            i <= n,
            forall|i0: int, j0: int|
                0 <= i0 < i && i0 < j0 < n ==> (#[trigger] b@.columns[i0]).id != (
                #[trigger] b@.columns[j0]).id,
        decreases n - i,
    {
        let mut j: usize = i + 1;
        while j < n
            invariant
                n == b.columns@.len(),
                i < j <= n,
                i < n,
                forall|j0: int|
                    i < j0 < j ==> (#[trigger] b@.columns[j0]).id != b@.columns[i as int].id,
            decreases n - j,
        {
            if b.columns[j].id == b.columns[i].id {
                proof {
                    assert(b@.columns[j as int].id == b@.columns[i as int].id);
                    assert(!b@.cols_wf());
                }
                return false;
            }
            j += 1;
        }
        i += 1;
    }
    proof {
        assert forall|i0: int, j0: int|
            0 <= i0 < n && 0 <= j0 < n && (#[trigger] b@.columns[i0]).id == (
        #[trigger] b@.columns[j0]).id implies i0 == j0 by {
            if i0 < j0 {
            } else if j0 < i0 {
            }
        }
    }
    true
}

/// Reads a whole stored board back. A stored well-formed board decodes
/// to exactly itself; any record whose rows are unreadable, or whose
/// task or column identifiers collide, is reported as corrupt, and
/// whatever decodes successfully is well-formed.
pub fn decode_board(rec: &BoardRecord) -> (r: Option<Board>)
    ensures
        r matches Some(b) ==> b@.wf() && b@.cols_wf() && b@.times_wf(),
        forall|bv: BoardView|
            bv.wf() && bv.cols_wf() && bv.times_wf() && #[trigger] spec_encode_board(bv) == rec@
                ==> (r matches Some(b) && b@ == bv),
{
    let id = match parse_id(&rec.id) {
        Some(i) => i,
        None => {
            proof {
                assert forall|bv: BoardView|
                    bv.wf() && bv.times_wf() && #[trigger] spec_encode_board(bv)
                        == rec@ implies false by {
                    assert(rec@.id == uuid_str_of(bv.id));
                }
            }
            return None;
        },
    };
    let n = rec.columns.len();
    let mut columns: Vec<Column> = Vec::new();
    let mut i: usize = 0;
    while i < n
        invariant
            n == rec.columns@.len(),
            i <= n,
            columns@.len() == i,
            forall|j: int| 0 <= j < i ==> (#[trigger] columns@[j])@.times_wf(),
            forall|j: int, c: ColumnView|
                0 <= j < i && c.times_wf() && #[trigger] spec_encode_column(c) == rec@.columns[j]
                    ==> (#[trigger] columns@[j])@ == c,
        decreases n - i,
    {
        match decode_column(&rec.columns[i]) {
            Some(c) => {
                columns.push(c);
            },
            None => {
                proof {
                    assert forall|bv: BoardView|
                        bv.wf() && bv.times_wf() && #[trigger] spec_encode_board(bv)
                            == rec@ implies false by {
                        assert(rec@.columns.len() == bv.columns.len());
                        assert(rec@.columns[i as int] == spec_encode_column(bv.columns[i as int]));
                        assert(bv.columns[i as int].times_wf());
                    }
                }
                return None;
            },
        }
        i += 1;
    }
    let out = Board { id, title: rec.title.clone(), columns };
    proof {
        assert forall|bv: BoardView|
            bv.wf() && bv.times_wf() && #[trigger] spec_encode_board(bv) == rec@ implies out@
            == bv by {
            assert(rec@.id == uuid_str_of(bv.id));
            assert(rec@.columns.len() == bv.columns.len());
            assert forall|j: int| 0 <= j < bv.columns.len() implies out@.columns[j]
                == bv.columns[j] by {
                assert(rec@.columns[j] == spec_encode_column(bv.columns[j]));
                assert(bv.columns[j].times_wf());
            }
            assert(out@.columns =~= bv.columns);
            assert(out@ =~= bv);
        }
    }
    if board_wf_check(&out) && board_cols_check(&out) {
        proof {
            assert forall|j: int| 0 <= j < out@.columns.len() implies (
            #[trigger] out@.columns[j]).times_wf() by {}
        }
        Some(out)
    } else {
        proof {
            assert forall|bv: BoardView|
                bv.wf() && bv.cols_wf() && bv.times_wf() && #[trigger] spec_encode_board(bv)
                    == rec@ implies false by {
                assert(out@ == bv);
            }
        }
        None
    }
}

} // verus!

