//! The application: owner of the board, the cursor, the staged edit form
//! and the input mode. Every mutation goes through a method here, and
//! every method keeps the invariants: task identifiers stay unique, the
//! cursor stays inside the board, and the moving-task marker exists
//! exactly while a move is in progress.

use vstd::prelude::*;

use crate::board::Board;
use crate::column::ColumnView;
use crate::task::{Priority, Task, TaskView};
use crate::text::{is_blank, string_is_blank, string_pop, string_push};
use crate::time::ts_in_range;

verus! {

/// Which interaction state is active; exactly one at a time.
#[derive(Clone, Copy, Debug, PartialEq, Eq, Structural)]
pub enum InputMode {
    Normal,
    Editing,
    AddingTask,
    MovingTask,
}

/// Which field of the add/edit form has input focus.
#[derive(Clone, Copy, Debug, PartialEq, Eq, Structural)]
pub enum EditField {
    Title,
    Description,
    Priority,
}

impl EditField {
    /// Focus cycle: Title, Description, Priority, and back to Title.
    pub open spec fn spec_next(self) -> EditField {
        match self {
            EditField::Title => EditField::Description,
            EditField::Description => EditField::Priority,
            EditField::Priority => EditField::Title,
        }
    }

    /// The reverse of the focus cycle.
    pub open spec fn spec_prev(self) -> EditField {
        match self {
            EditField::Title => EditField::Priority,
            EditField::Description => EditField::Title,
            EditField::Priority => EditField::Description,
        }
    }
}

/// The staged values of an open add/edit form. They touch the board only
/// on an explicit confirm.
#[derive(Clone, Debug, PartialEq)]
pub struct EditState {
    pub title: String,
    pub description: String,
    pub priority: Priority,
    pub selected_field: EditField,
}

impl EditState {
    /// The reset state a form starts from: empty texts, default priority,
    /// focus on the title.
    pub open spec fn is_default(self) -> bool {
        &&& self.title@ == Seq::<char>::empty()
        &&& self.description@ == Seq::<char>::empty()
        &&& self.priority == Priority::Medium
        &&& self.selected_field == EditField::Title
    }
}

impl Default for EditState {
    fn default() -> (r: Self)
        ensures
            r.is_default(),
    {
        EditState {
            title: String::new(),
            description: String::new(),
            priority: Priority::Medium,
            selected_field: EditField::Title,
        }
    }
}

/// The whole interactive state of one session.
pub struct App {
    pub board: Board,
    pub input_mode: InputMode,
    pub should_quit: bool,
    pub selected_column: usize,
    pub selected_task: usize,
    pub edit_state: EditState,
    pub status_message: String,
    pub moving_task_id: Option<u128>,
    pub target_column: usize,
}

impl App {
    /// The invariants that hold after every operation: unique task
    /// identifiers, storable timestamps, a cursor and move target inside
    /// the board, and a moving-task marker exactly in moving mode.
    pub open spec fn wf(self) -> bool {
        &&& self.board@.wf()
        &&& self.board@.times_wf()
        &&& self.board@.columns.len() > 0 ==> (self.selected_column as int)
            < self.board@.columns.len()
        &&& (self.board@.columns.len() > 0 && self.board@.columns[self.selected_column as int].tasks.len()
            > 0) ==> (self.selected_task as int)
            < self.board@.columns[self.selected_column as int].tasks.len()
        &&& (self.board@.columns.len() > 0 && self.board@.columns[self.selected_column as int].tasks.len()
            == 0) ==> self.selected_task == 0
        &&& self.board@.columns.len() > 0 ==> (self.target_column as int)
            < self.board@.columns.len()
        &&& (self.input_mode == InputMode::MovingTask <==> self.moving_task_id is Some)
    }

    /// The identifier of the task under the cursor, if the cursor points
    /// at one.
    pub open spec fn spec_selected_task_id(self) -> Option<u128> {
        let b = self.board@;
        if (self.selected_column as int) < b.columns.len() && (self.selected_task as int)
            < b.columns[self.selected_column as int].tasks.len() {
            Some(b.columns[self.selected_column as int].tasks[self.selected_task as int].id)
        } else {
            None
        }
    }

    /// The identifier of the column under the cursor, if any.
    pub open spec fn spec_selected_column_id(self) -> Option<u128> {
        let b = self.board@;
        if (self.selected_column as int) < b.columns.len() {
            Some(b.columns[self.selected_column as int].id)
        } else {
            None
        }
    }

    /// A fresh session: a default board, two sample tasks seeded into the
    /// first column, the cursor at the origin, normal mode.
    pub fn new() -> (r: App)
        ensures
            r.wf(),
            r.input_mode == InputMode::Normal,
            !r.should_quit,
            r.selected_column == 0,
            r.selected_task == 0,
            r.edit_state.is_default(),
            r.moving_task_id is None,
            r.target_column == 0,
            r.status_message@ == "Ready"@,
            r.board@.title == "My Kanban Board"@,
            r.board@.columns.len() == 3,
            r.board@.columns[0].title == "To Do"@,
            r.board@.columns[1].title == "In Progress"@,
            r.board@.columns[2].title == "Done"@,
            r.board@.columns[1].tasks.len() == 0,
            r.board@.columns[2].tasks.len() == 0,
            1 <= r.board@.columns[0].tasks.len() <= 2,
            ({
                let t = r.board@.columns[0].tasks[0];
                &&& t.title == "完成專案計畫"@
                &&& t.description == Some("規劃專案的整體架構和時程"@)
                &&& t.priority == Priority::High
            }),
            r.board@.columns[0].tasks.len() == 2 ==> ({
                let t = r.board@.columns[0].tasks[1];
                &&& t.title == "學習 Rust TUI"@
                &&& t.description == Some("深入了解 ratatui 框架"@)
                &&& t.priority == Priority::Medium
            }),
    {
        let mut board = Board::new("My Kanban Board".to_owned());

        let sample_task1 = Task::new("完成專案計畫".to_owned()).with_description(
            "規劃專案的整體架構和時程".to_owned(),
        ).with_priority(Priority::High);

        let sample_task2 = Task::new("學習 Rust TUI".to_owned()).with_description(
            "深入了解 ratatui 框架".to_owned(),
        );

        proof {
            assert forall|i: int| 0 <= i < board@.columns.len() implies !(
            #[trigger] board@.columns[i]).has_task(sample_task1@.id) by {}
        }
        board.add_task_to_column(0, sample_task1);
        if !board.contains_task(sample_task2.id) {
            board.add_task_to_column(0, sample_task2);
        }

        App {
            board,
            input_mode: InputMode::Normal,
            should_quit: false,
            selected_column: 0,
            selected_task: 0,
            edit_state: EditState::default(),
            status_message: "Ready".to_owned(),
            moving_task_id: None,
            target_column: 0,
        }
    }

    /// The periodic scheduling hook; deliberately a no-op.
    pub fn tick(&mut self)
        ensures
            *final(self) == *old(self),
    {
    }

    /// The exact effect of `quit`: only the quit flag is raised.
    pub open spec fn quit_effect(pre: App, post: App) -> bool {
        post == (App { should_quit: true, ..pre })
    }

    /// Asks the event loop to finish.
    pub fn quit(&mut self)
        requires
            old(self).wf(),
        ensures
            final(self).wf(),
            Self::quit_effect(*old(self), *final(self)),
    {
        self.should_quit = true;
    }

    /// The exact effect of `move_selection_left`: one column leftward,
    /// the cursor on its first task; at the leftmost column, no change.
    pub open spec fn select_left_effect(pre: App, post: App) -> bool {
        &&& (pre.selected_column > 0 ==> post == (App {
            selected_column: (pre.selected_column - 1) as usize,
            selected_task: 0,
            ..pre
        }))
        &&& (pre.selected_column == 0 ==> post == pre)
    }

    /// Moves the cursor one column to the left; at the leftmost column
    /// nothing happens. Entering a column puts the cursor on its first
    /// task.
    pub fn move_selection_left(&mut self)
        requires
            old(self).wf(),
        ensures
            final(self).wf(),
            Self::select_left_effect(*old(self), *final(self)),
    {
        if self.selected_column > 0 {
            self.selected_column -= 1;
            self.selected_task = 0;
        }
    }

    /// The exact effect of `move_selection_right`: one column rightward,
    /// the cursor on its first task; at the rightmost column, no change.
    pub open spec fn select_right_effect(pre: App, post: App) -> bool {
        &&& (pre.selected_column + 1 < pre.board@.columns.len() ==> post == (App {
            selected_column: (pre.selected_column + 1) as usize,
            selected_task: 0,
            ..pre
        }))
        &&& (pre.selected_column + 1 >= pre.board@.columns.len() ==> post == pre)
    }

    /// Moves the cursor one column to the right; at the rightmost column
    /// nothing happens.
    pub fn move_selection_right(&mut self)
        requires
            old(self).wf(),
        ensures
            final(self).wf(),
            Self::select_right_effect(*old(self), *final(self)),
    {
        let n = self.board.columns.len();
        if n > 0 && self.selected_column < n - 1 {
            self.selected_column += 1;
            self.selected_task = 0;
        }
    }

    /// The exact effect of `move_selection_up`: one task upward inside a
    /// non-empty selected column; at its top, or with nothing to select,
    /// no change.
    pub open spec fn select_up_effect(pre: App, post: App) -> bool {
        let can = (pre.selected_column as int) < pre.board@.columns.len()
            && pre.board@.columns[pre.selected_column as int].tasks.len() > 0 && pre.selected_task
            > 0;
        &&& (can ==> post == (App { selected_task: (pre.selected_task - 1) as usize, ..pre }))
        &&& (!can ==> post == pre)
    }

    /// Moves the cursor one task up inside the selected column.
    pub fn move_selection_up(&mut self)
        requires
            old(self).wf(),
        ensures
            final(self).wf(),
            Self::select_up_effect(*old(self), *final(self)),
    {
        if self.selected_column < self.board.columns.len() {
            let col_len = self.board.columns[self.selected_column].tasks.len();
            if col_len > 0 && self.selected_task > 0 {
                self.selected_task -= 1;
            }
        }
    }

    /// The exact effect of `move_selection_down`: one task downward
    /// inside the selected column; at its bottom, or with nothing to
    /// select, no change.
    pub open spec fn select_down_effect(pre: App, post: App) -> bool {
        let can = (pre.selected_column as int) < pre.board@.columns.len() && pre.selected_task + 1
            < pre.board@.columns[pre.selected_column as int].tasks.len();
        &&& (can ==> post == (App { selected_task: (pre.selected_task + 1) as usize, ..pre }))
        &&& (!can ==> post == pre)
    }

    /// Moves the cursor one task down inside the selected column.
    pub fn move_selection_down(&mut self)
        requires
            old(self).wf(),
        ensures
            final(self).wf(),
            Self::select_down_effect(*old(self), *final(self)),
    {
        if self.selected_column < self.board.columns.len() {
            let col_len = self.board.columns[self.selected_column].tasks.len();
            if col_len > 0 && self.selected_task < col_len - 1 {
                self.selected_task += 1;
            }
        }
    }

    /// The identifier of the task under the cursor.
    pub fn get_selected_task_id(&self) -> (r: Option<u128>)
        ensures
            r == self.spec_selected_task_id(),
    {
        if self.selected_column < self.board.columns.len() {
            let col = &self.board.columns[self.selected_column];
            if self.selected_task < col.tasks.len() {
                return Some(col.tasks[self.selected_task].id);
            }
        }
        None
    }

    /// The identifier of the column under the cursor.
    pub fn get_selected_column_id(&self) -> (r: Option<u128>)
        ensures
            r == self.spec_selected_column_id(),
    {
        if self.selected_column < self.board.columns.len() {
            Some(self.board.columns[self.selected_column].id)
        } else {
            None
        }
    }

    /// The exact effect of `start_adding_task`: the add form opens with
    /// fresh defaults; everything but mode, form and status stays.
    pub open spec fn start_adding_effect(pre: App, post: App) -> bool {
        &&& post == (App {
            input_mode: InputMode::AddingTask,
            edit_state: post.edit_state,
            status_message: post.status_message,
            ..pre
        })
        &&& post.edit_state.is_default()
        &&& post.status_message@ == "Enter new task title"@
    }

    /// Opens the add-task form with fresh defaults.
    pub fn start_adding_task(&mut self)
        requires
            old(self).wf(),
            old(self).input_mode == InputMode::Normal,
        ensures
            final(self).wf(),
            Self::start_adding_effect(*old(self), *final(self)),
    {
        self.input_mode = InputMode::AddingTask;
        self.edit_state = EditState::default();
        self.status_message = "Enter new task title".to_owned();
    }

    /// The exact effect of `start_editing_task`: with a task under the
    /// cursor, the edit form opens pre-filled from its fields; with no
    /// selection, no change.
    pub open spec fn start_editing_effect(pre: App, post: App) -> bool {
        &&& (pre.spec_selected_task_id() is None ==> post == pre)
        &&& (pre.spec_selected_task_id() is Some ==> ({
            let t = pre.board@.columns[pre.selected_column as int].tasks[pre.selected_task as int];
            &&& post == (App {
                input_mode: InputMode::Editing,
                edit_state: post.edit_state,
                status_message: post.status_message,
                ..pre
            })
            &&& post.edit_state.title@ == t.title
            &&& post.edit_state.description@ == (match t.description {
                Some(d) => d,
                None => Seq::<char>::empty(),
            })
            &&& post.edit_state.priority == t.priority
            &&& post.edit_state.selected_field == EditField::Title
            &&& post.status_message@ == "Editing task"@
        }))
    }

    /// Opens the edit form pre-filled from the selected task; without a
    /// selected task nothing happens.
    pub fn start_editing_task(&mut self)
        requires
            old(self).wf(),
            old(self).input_mode == InputMode::Normal,
        ensures
            final(self).wf(),
            Self::start_editing_effect(*old(self), *final(self)),
    {
        let task_id = match self.get_selected_task_id() {
            Some(id) => id,
            None => {
                return ;
            },
        };
        let sc = self.selected_column;
        let st = self.selected_task;
        let col = &self.board.columns[sc];
        let task = &col.tasks[st];
        let title = task.title.clone();
        let description = match &task.description {
            Some(d) => d.clone(),
            None => String::new(),
        };
        let priority = task.priority;
        self.edit_state = EditState {
            title,
            description,
            priority,
            selected_field: EditField::Title,
        };
        self.input_mode = InputMode::Editing;
        self.status_message = "Editing task".to_owned();
    }

    /// The exact effect of `cancel_input`: normal mode resumes, the form
    /// resets, the move marker clears; board and cursor are untouched.
    pub open spec fn cancel_effect(pre: App, post: App) -> bool {
        &&& post == (App {
            input_mode: InputMode::Normal,
            edit_state: post.edit_state,
            moving_task_id: None,
            status_message: post.status_message,
            ..pre
        })
        &&& post.edit_state.is_default()
        &&& post.status_message@ == "Cancelled"@
    }

    /// Drops the staged form or the move in progress; the board is left
    /// untouched.
    pub fn cancel_input(&mut self)
        requires
            old(self).wf(),
        ensures
            final(self).wf(),
            Self::cancel_effect(*old(self), *final(self)),
    {
        self.input_mode = InputMode::Normal;
        self.edit_state = EditState::default();
        self.moving_task_id = None;
        self.status_message = "Cancelled".to_owned();
    }

    /// The exact effect of `start_moving_task`: with a task under the
    /// cursor, it is marked for moving and the target starts at the
    /// selected column; with no selection, no change.
    pub open spec fn start_moving_effect(pre: App, post: App) -> bool {
        &&& (pre.spec_selected_task_id() is None ==> post == pre)
        &&& (pre.spec_selected_task_id() is Some ==> post == (App {
            moving_task_id: pre.spec_selected_task_id(),
            target_column: pre.selected_column,
            input_mode: InputMode::MovingTask,
            status_message: post.status_message,
            ..pre
        }) && post.status_message@
            == "Select target column (←/→ to choose, Enter to confirm, Esc to cancel)"@)
    }

    /// Marks the selected task for moving and starts choosing the target
    /// column; without a selected task nothing happens.
    pub fn start_moving_task(&mut self)
        requires
            old(self).wf(),
            old(self).input_mode == InputMode::Normal,
        ensures
            final(self).wf(),
            Self::start_moving_effect(*old(self), *final(self)),
    {
        let task_id = match self.get_selected_task_id() {
            Some(id) => id,
            None => {
                return ;
            },
        };
        self.moving_task_id = Some(task_id);
        self.target_column = self.selected_column;
        self.input_mode = InputMode::MovingTask;
        self.status_message = "Select target column (←/→ to choose, Enter to confirm, Esc to cancel)".to_owned();
    }

    /// The exact effect of `move_target_left`: the move target steps one
    /// column leftward, stopping at the first column.
    pub open spec fn target_left_effect(pre: App, post: App) -> bool {
        &&& (pre.target_column > 0 ==> post == (App {
            target_column: (pre.target_column - 1) as usize,
            ..pre
        }))
        &&& (pre.target_column == 0 ==> post == pre)
    }

    /// Moves the move target one column to the left, stopping at the
    /// first column.
    pub fn move_target_left(&mut self)
        requires
            old(self).wf(),
        ensures
            final(self).wf(),
            Self::target_left_effect(*old(self), *final(self)),
    {
        if self.target_column > 0 {
            self.target_column -= 1;
        }
    }

    /// The exact effect of `move_target_right`: the move target steps
    /// one column rightward, stopping at the last column.
    pub open spec fn target_right_effect(pre: App, post: App) -> bool {
        &&& (pre.target_column + 1 < pre.board@.columns.len() ==> post == (App {
            target_column: (pre.target_column + 1) as usize,
            ..pre
        }))
        &&& (pre.target_column + 1 >= pre.board@.columns.len() ==> post == pre)
    }

    /// Moves the move target one column to the right, stopping at the
    /// last column.
    pub fn move_target_right(&mut self)
        requires
            old(self).wf(),
        ensures
            final(self).wf(),
            Self::target_right_effect(*old(self), *final(self)),
    {
        let n = self.board.columns.len();
        if n > 0 && self.target_column < n - 1 {
            self.target_column += 1;
        }
    }

    /// The exact effect of `move_edit_field_next`: only the form focus
    /// moves, to the next field in the cycle.
    pub open spec fn field_next_effect(pre: App, post: App) -> bool {
        &&& post == (App { edit_state: post.edit_state, ..pre })
        &&& post.edit_state == (EditState {
            selected_field: pre.edit_state.selected_field.spec_next(),
            ..pre.edit_state
        })
    }

    /// Moves form focus to the next field in the cycle.
    pub fn move_edit_field_next(&mut self)
        requires
            old(self).wf(),
        ensures
            final(self).wf(),
            Self::field_next_effect(*old(self), *final(self)),
    {
        self.edit_state.selected_field = match self.edit_state.selected_field {
            EditField::Title => EditField::Description,
            EditField::Description => EditField::Priority,
            EditField::Priority => EditField::Title,
        };
    }

    /// The exact effect of `move_edit_field_prev`: only the form focus
    /// moves, to the previous field in the cycle.
    pub open spec fn field_prev_effect(pre: App, post: App) -> bool {
        &&& post == (App { edit_state: post.edit_state, ..pre })
        &&& post.edit_state == (EditState {
            selected_field: pre.edit_state.selected_field.spec_prev(),
            ..pre.edit_state
        })
    }

    /// Moves form focus to the previous field in the cycle.
    pub fn move_edit_field_prev(&mut self)
        requires
            old(self).wf(),
        ensures
            final(self).wf(),
            Self::field_prev_effect(*old(self), *final(self)),
    {
        self.edit_state.selected_field = match self.edit_state.selected_field {
            EditField::Title => EditField::Priority,
            EditField::Description => EditField::Title,
            EditField::Priority => EditField::Description,
        };
    }

    /// The exact effect of `edit_append_char`: only the staged form
    /// changes — the focused text field grows by the character, or on the
    /// priority field `+`/`=` raise and `-` lowers the staged priority,
    /// clamped at the ends of the scale.
    pub open spec fn append_char_effect(pre: App, post: App, c: char) -> bool {
        &&& post == (App { edit_state: post.edit_state, ..pre })
        &&& (pre.edit_state.selected_field == EditField::Title ==> post.edit_state == (EditState {
            title: post.edit_state.title,
            ..pre.edit_state
        }) && post.edit_state.title@ == pre.edit_state.title@.push(c))
        &&& (pre.edit_state.selected_field == EditField::Description ==> post.edit_state == (
        EditState { description: post.edit_state.description, ..pre.edit_state })
            && post.edit_state.description@ == pre.edit_state.description@.push(c))
        &&& (pre.edit_state.selected_field == EditField::Priority ==> post.edit_state == (
        EditState {
            priority: if c == '+' || c == '=' {
                pre.edit_state.priority.spec_up()
            } else if c == '-' {
                pre.edit_state.priority.spec_down()
            } else {
                pre.edit_state.priority
            },
            ..pre.edit_state
        }))
    }

    /// Applies one typed character to the focused form field: text fields
    /// grow by the character; on the priority field `+`/`=` raise and `-`
    /// lowers the staged priority, clamped at the ends of the scale.
    pub fn edit_append_char(&mut self, c: char)
        requires
            old(self).wf(),
        ensures
            final(self).wf(),
            Self::append_char_effect(*old(self), *final(self), c),
    {
        match self.edit_state.selected_field {
            EditField::Title => {
                string_push(&mut self.edit_state.title, c);
            },
            EditField::Description => {
                string_push(&mut self.edit_state.description, c);
            },
            EditField::Priority => {
                if c == '+' || c == '=' {
                    self.edit_state.priority = self.edit_state.priority.up();
                } else if c == '-' {
                    self.edit_state.priority = self.edit_state.priority.down();
                }
            },
        }
    }

    /// The exact effect of `edit_backspace`: only the staged form
    /// changes — the focused text field loses its last character (or
    /// stays empty); the priority field ignores backspace.
    pub open spec fn backspace_effect(pre: App, post: App) -> bool {
        &&& post == (App { edit_state: post.edit_state, ..pre })
        &&& (pre.edit_state.selected_field == EditField::Title ==> post.edit_state == (EditState {
            title: post.edit_state.title,
            ..pre.edit_state
        }) && post.edit_state.title@ == (if pre.edit_state.title@.len() == 0 {
            pre.edit_state.title@
        } else {
            pre.edit_state.title@.drop_last()
        }))
        &&& (pre.edit_state.selected_field == EditField::Description ==> post.edit_state == (
        EditState { description: post.edit_state.description, ..pre.edit_state })
            && post.edit_state.description@ == (if pre.edit_state.description@.len() == 0 {
            pre.edit_state.description@
        } else {
            pre.edit_state.description@.drop_last()
        }))
        &&& (pre.edit_state.selected_field == EditField::Priority ==> post == pre)
    }

    /// Removes the last character of the focused text field; the priority
    /// field ignores backspace.
    pub fn edit_backspace(&mut self)
        requires
            old(self).wf(),
        ensures
            final(self).wf(),
            Self::backspace_effect(*old(self), *final(self)),
    {
        match self.edit_state.selected_field {
            EditField::Title => {
                string_pop(&mut self.edit_state.title);
            },
            EditField::Description => {
                string_pop(&mut self.edit_state.description);
            },
            EditField::Priority => {},
        }
    }

    /// `post`'s board is `pre`'s board with one task built from the
    /// staged form appended to the selected column: the staged title, the
    /// staged description (kept even when blank, as an empty text), the
    /// staged priority, no due date, and a fresh identifier.
    pub open spec fn adds_staged_task(pre: App, post: App, t: TaskView) -> bool {
        &&& t.title == pre.edit_state.title@
        &&& t.description == Some(
            if is_blank(pre.edit_state.description@) {
                Seq::<char>::empty()
            } else {
                pre.edit_state.description@
            },
        )
        &&& t.due_date is None
        &&& t.priority == pre.edit_state.priority
        &&& t.times_wf()
        &&& !pre.board@.has_task(t.id)
        &&& post.board@.has_task(t.id)
        &&& post.board@.id == pre.board@.id
        &&& post.board@.title == pre.board@.title
        &&& post.board@.columns =~= pre.board@.columns.update(
            pre.selected_column as int,
            (ColumnView {
                tasks: pre.board@.columns[pre.selected_column as int].tasks.push(t),
                ..pre.board@.columns[pre.selected_column as int]
            }),
        )
        &&& post.status_message@ == "Task added successfully"@
    }

    /// The exact effect of `finish_adding_task`. A blank staged title
    /// leaves everything unchanged with the form still open. Otherwise
    /// the form closes, and either exactly the staged task was appended
    /// with an identifier the board did not hold, or — only when the
    /// freshly drawn identifier collided with an existing one, or the
    /// board has no columns — the board and status are untouched.
    pub open spec fn finish_adding_effect(pre: App, post: App) -> bool {
        &&& (is_blank(pre.edit_state.title@) ==> post == pre)
        &&& (!is_blank(pre.edit_state.title@) ==> ({
            &&& post == (App {
                input_mode: InputMode::Normal,
                edit_state: post.edit_state,
                status_message: post.status_message,
                board: post.board,
                ..pre
            })
            &&& post.edit_state.is_default()
            &&& (pre.board@.columns.len() == 0 ==> post.board@ == pre.board@
                && post.status_message == pre.status_message)
            &&& (pre.board@.columns.len() > 0 ==> ((post.board@ == pre.board@
                && post.status_message == pre.status_message) || exists|t: TaskView|
                Self::adds_staged_task(pre, post, t)))
        }))
    }

    /// Confirms the add form. A blank staged title is silently refused:
    /// nothing changes and the form stays open. Otherwise a new task is
    /// appended to the selected column (unless the freshly drawn
    /// identifier already exists, in which case the board is untouched)
    /// and the form closes.
    pub fn finish_adding_task(&mut self)
        requires
            old(self).wf(),
            old(self).input_mode == InputMode::AddingTask,
        ensures
            final(self).wf(),
            Self::finish_adding_effect(*old(self), *final(self)),
    {
        if string_is_blank(&self.edit_state.title) {
            return ;
        }
        let title = self.edit_state.title.clone();
        let description = if string_is_blank(&self.edit_state.description) {
            String::new()
        } else {
            self.edit_state.description.clone()
        };
        let priority = self.edit_state.priority;
        let task = Task::new(title).with_description(description).with_priority(priority);
        if self.selected_column < self.board.columns.len() {
            if !self.board.contains_task(task.id) {
                let ghost tv = task@;
                self.board.add_task_to_column(self.selected_column, task);
                self.status_message = "Task added successfully".to_owned();
                self.input_mode = InputMode::Normal;
                self.edit_state = EditState::default();
                proof {
                    let sc = old(self).selected_column as int;
                    let cv = self.board@.columns[sc];
                    assert(cv.tasks[cv.tasks.len() - 1].id == tv.id);
                    assert(cv.has_task(tv.id));
                    assert(self.board@.has_task(tv.id));
                    assert(Self::adds_staged_task(*old(self), *self, tv));
                }
                return ;
            }
        }
        self.input_mode = InputMode::Normal;
        self.edit_state = EditState::default();
    }

    /// The exact effect of `finish_editing_task`. A blank staged title
    /// leaves everything unchanged with the form still open. Otherwise
    /// the form closes and the selected task — if one exists — carries
    /// the staged title, description (cleared when blank) and priority,
    /// with a refreshed last-modified timestamp; identifier, due date
    /// and creation timestamp stay.
    pub open spec fn finish_editing_effect(pre: App, post: App) -> bool {
        &&& (is_blank(pre.edit_state.title@) ==> post == pre)
        &&& (!is_blank(pre.edit_state.title@) ==> ({
            &&& post == (App {
                input_mode: InputMode::Normal,
                edit_state: post.edit_state,
                status_message: post.status_message,
                board: post.board,
                ..pre
            })
            &&& post.edit_state.is_default()
            &&& (pre.spec_selected_task_id() is None ==> post.board@ == pre.board@
                && post.status_message == pre.status_message)
            &&& (pre.spec_selected_task_id() is Some ==> ({
                let sc = pre.selected_column as int;
                let st = pre.selected_task as int;
                let t0 = pre.board@.columns[sc].tasks[st];
                let t2 = post.board@.columns[sc].tasks[st];
                &&& t2 == (TaskView {
                    title: pre.edit_state.title@,
                    description: if is_blank(pre.edit_state.description@) {
                        None
                    } else {
                        Some(pre.edit_state.description@)
                    },
                    priority: pre.edit_state.priority,
                    updated_at: t2.updated_at,
                    ..t0
                })
                &&& ts_in_range(t2.updated_at)
                &&& post.board@.id == pre.board@.id
                &&& post.board@.title == pre.board@.title
                &&& post.board@.columns =~= pre.board@.columns.update(
                    sc,
                    (ColumnView {
                        tasks: pre.board@.columns[sc].tasks.update(st, t2),
                        ..pre.board@.columns[sc]
                    }),
                )
                &&& post.status_message@ == "Task updated successfully"@
            }))
        }))
    }

    /// Confirms the edit form. A blank staged title is silently refused:
    /// nothing changes and the form stays open. Otherwise the staged
    /// fields are written onto the selected task (a blank staged
    /// description clears the task's description) and the form closes.
    pub fn finish_editing_task(&mut self)
        requires
            old(self).wf(),
            old(self).input_mode == InputMode::Editing,
        ensures
            final(self).wf(),
            Self::finish_editing_effect(*old(self), *final(self)),
    {
        if string_is_blank(&self.edit_state.title) {
            return ;
        }
        match self.get_selected_task_id() {
            Some(_) => {
                let title = self.edit_state.title.clone();
                let description = if string_is_blank(&self.edit_state.description) {
                    None
                } else {
                    Some(self.edit_state.description.clone())
                };
                let priority = self.edit_state.priority;
                self.board.update_task_at(
                    self.selected_column,
                    self.selected_task,
                    title,
                    description,
                    priority,
                );
                self.status_message = "Task updated successfully".to_owned();
            },
            None => {},
        }
        self.input_mode = InputMode::Normal;
        self.edit_state = EditState::default();
    }

    /// The exact effect of `delete_selected_task`: the task under the
    /// cursor leaves its column, its identifier disappears from the
    /// whole board, and the cursor is pulled back inside the shrunken
    /// column; with no selection, no change.
    pub open spec fn delete_selected_effect(pre: App, post: App) -> bool {
        &&& (pre.spec_selected_task_id() is None ==> post == pre)
        &&& (pre.spec_selected_task_id() matches Some(tid) ==> ({
            let sc = pre.selected_column as int;
            let st = pre.selected_task as int;
            let b = pre.board@;
            let newlen = b.columns[sc].tasks.len() - 1;
            &&& post == (App {
                board: post.board,
                selected_task: post.selected_task,
                status_message: post.status_message,
                ..pre
            })
            &&& post.board@.id == b.id
            &&& post.board@.title == b.title
            &&& post.board@.columns =~= b.columns.update(
                sc,
                (ColumnView { tasks: b.columns[sc].tasks.remove(st), ..b.columns[sc] }),
            )
            &&& !post.board@.has_task(tid)
            &&& post.selected_task as int == (if st == newlen && newlen > 0 {
                newlen - 1
            } else {
                st
            })
            &&& post.status_message@ == "Task deleted successfully"@
        }))
    }

    /// Deletes the task under the cursor and pulls the cursor back inside
    /// the shrunken column; without a selected task nothing happens.
    pub fn delete_selected_task(&mut self)
        requires
            old(self).wf(),
        ensures
            final(self).wf(),
            Self::delete_selected_effect(*old(self), *final(self)),
    {
        let task_id = match self.get_selected_task_id() {
            Some(id) => id,
            None => {
                return ;
            },
        };
        proof {
            let b = old(self).board@;
            let sc = old(self).selected_column as int;
            let st = old(self).selected_task as int;
            assert(b.columns[sc].has_task(task_id));
            assert forall|ci2: int| b.is_first_col_with_task(ci2, task_id) implies ci2 == sc by {
                let k2 = choose|k2: int|
                    0 <= k2 < b.columns[ci2].tasks.len() && (#[trigger] b.columns[ci2].tasks[k2]).id
                        == task_id;
                assert(b.columns[ci2].tasks[k2].id == b.columns[sc].tasks[st].id);
            }
            assert forall|k2: int|
                b.columns[sc].is_first_task_with_id(k2, task_id) implies k2 == st by {
                assert(b.columns[sc].tasks[k2].id == b.columns[sc].tasks[st].id);
            }
            assert(b.has_task(task_id));
        }
        let deleted = self.board.delete_task(task_id);
        if deleted {
            if self.selected_column < self.board.columns.len() {
                let len = self.board.columns[self.selected_column].tasks.len();
                if self.selected_task >= len && len > 0 {
                    self.selected_task = len - 1;
                }
            }
            self.status_message = "Task deleted successfully".to_owned();
        }
    }

    /// The exact effect of `move_task_to_prev_column`: the selected task
    /// goes to the tail of the column one to the left when the move is
    /// possible; otherwise, including at the leftmost column or with no
    /// selection, nothing changes.
    pub open spec fn move_prev_effect(pre: App, post: App) -> bool {
        &&& (pre.spec_selected_task_id() is None ==> post == pre)
        &&& (pre.spec_selected_task_id() is Some && pre.selected_column == 0 ==> post == pre)
        &&& (pre.spec_selected_task_id() matches Some(tid) ==> pre.selected_column > 0 ==> ({
            let b = pre.board@;
            let sc = pre.selected_column as int;
            let from_id = b.columns[sc].id;
            let to_id = b.columns[sc - 1].id;
            &&& (!b.can_move(tid, from_id, to_id) ==> post == (App { board: post.board, ..pre })
                && post.board@ == b)
            &&& (b.can_move(tid, from_id, to_id) ==> ({
                let newlen = post.board@.columns[sc].tasks.len();
                &&& post == (App {
                    board: post.board,
                    selected_task: post.selected_task,
                    status_message: post.status_message,
                    ..pre
                })
                &&& b.moved(post.board@, tid, from_id, to_id)
                &&& post.selected_task as int == (if pre.selected_task as int >= newlen && newlen
                    > 0 {
                    newlen - 1
                } else {
                    pre.selected_task as int
                })
                &&& post.status_message@ == "Task moved to previous column"@
            }))
        }))
    }

    /// Moves the selected task to the column left of the selected one, in
    /// one keystroke; at the leftmost column, or without a selected task,
    /// nothing happens.
    pub fn move_task_to_prev_column(&mut self)
        requires
            old(self).wf(),
        ensures
            final(self).wf(),
            Self::move_prev_effect(*old(self), *final(self)),
    {
        let task_id = match self.get_selected_task_id() {
            Some(id) => id,
            None => {
                return ;
            },
        };
        if self.selected_column > 0 {
            let from_column_id = self.board.columns[self.selected_column].id;
            let to_column_id = self.board.columns[self.selected_column - 1].id;
            let moved = self.board.move_task(task_id, from_column_id, to_column_id);
            if moved {
                self.status_message = "Task moved to previous column".to_owned();
                if self.selected_column < self.board.columns.len() {
                    let len = self.board.columns[self.selected_column].tasks.len();
                    if self.selected_task >= len && len > 0 {
                        self.selected_task = len - 1;
                    }
                }
            }
        }
    }

    /// The exact effect of `confirm_move_task`: normal mode resumes and
    /// the marker clears, always; the marked task moves to the tail of
    /// the column under the move target exactly when the move is
    /// possible, and the board stays untouched otherwise.
    pub open spec fn confirm_move_effect(pre: App, post: App) -> bool {
        &&& post.input_mode == InputMode::Normal
        &&& post.moving_task_id is None
        &&& (pre.moving_task_id is None ==> post == (App {
            input_mode: InputMode::Normal,
            moving_task_id: None,
            ..pre
        }))
        &&& (pre.moving_task_id matches Some(tid) ==> ({
            let b = pre.board@;
            &&& (b.columns.len() == 0 ==> post == (App {
                input_mode: InputMode::Normal,
                moving_task_id: None,
                ..pre
            }))
            &&& (b.columns.len() > 0 ==> ({
                let from_id = b.columns[pre.selected_column as int].id;
                let to_id = b.columns[pre.target_column as int].id;
                &&& (!b.can_move(tid, from_id, to_id) ==> post == (App {
                    input_mode: InputMode::Normal,
                    moving_task_id: None,
                    board: post.board,
                    ..pre
                }) && post.board@ == b)
                &&& (b.can_move(tid, from_id, to_id) ==> ({
                    let sc = pre.selected_column as int;
                    let newlen = post.board@.columns[sc].tasks.len();
                    &&& post == (App {
                        input_mode: InputMode::Normal,
                        moving_task_id: None,
                        board: post.board,
                        selected_task: post.selected_task,
                        status_message: post.status_message,
                        ..pre
                    })
                    &&& b.moved(post.board@, tid, from_id, to_id)
                    &&& post.selected_task as int == (if pre.selected_task as int >= newlen
                        && newlen > 0 {
                        newlen - 1
                    } else {
                        pre.selected_task as int
                    })
                    &&& post.status_message@ == "Task moved to "@
                        + b.columns[pre.target_column as int].title
                }))
            }))
        }))
    }

    /// Confirms the move in progress: the marked task goes to the column
    /// under the move target, the marker is cleared and normal mode
    /// resumes. A failed move (say, the target is the source column)
    /// changes nothing but the mode.
    pub fn confirm_move_task(&mut self)
        requires
            old(self).wf(),
        ensures
            final(self).wf(),
            Self::confirm_move_effect(*old(self), *final(self)),
    {
        match self.moving_task_id {
            Some(task_id) => {
                if self.selected_column < self.board.columns.len() && self.target_column
                    < self.board.columns.len() {
                    let from_column_id = self.board.columns[self.selected_column].id;
                    let to_column_id = self.board.columns[self.target_column].id;
                    let moved = self.board.move_task(task_id, from_column_id, to_column_id);
                    if moved {
                        proof {
                            let b = old(self).board@;
                            let tc = old(self).target_column as int;
                            let fi = b.first_col_idx_of(from_column_id);
                            let ti = b.first_col_idx_of(to_column_id);
                            assert(self.board@.columns[tc].title == b.columns[tc].title) by {
                                if tc == fi {
                                    assert(self.board@.columns[tc] == (ColumnView {
                                        tasks: b.columns[fi].tasks.remove(
                                            b.columns[fi].first_idx_of(task_id),
                                        ),
                                        ..b.columns[fi]
                                    }));
                                } else if tc == ti {
                                    assert(self.board@.columns[tc] == (ColumnView {
                                        tasks: b.columns[ti].tasks.push(
                                            b.columns[fi].tasks[b.columns[fi].first_idx_of(
                                                task_id,
                                            )],
                                        ),
                                        ..b.columns[ti]
                                    }));
                                } else {
                                    assert(self.board@.columns[tc] == b.columns[tc]);
                                }
                            }
                        }
                        let target_name = self.board.columns[self.target_column].title.clone();
                        self.status_message = "Task moved to ".to_owned().concat(
                            target_name.as_str(),
                        );
                        if self.selected_column < self.board.columns.len() {
                            let len = self.board.columns[self.selected_column].tasks.len();
                            if self.selected_task >= len && len > 0 {
                                self.selected_task = len - 1;
                            }
                        }
                    }
                }
                self.input_mode = InputMode::Normal;
                self.moving_task_id = None;
            },
            None => {
                self.input_mode = InputMode::Normal;
                self.moving_task_id = None;
            },
        }
    }

    /// An index clamped into a collection of length `n`: kept when it is
    /// in bounds, pulled to the last valid index when it is past the end,
    /// and zero for an empty collection.
    pub open spec fn clamp_index(i: int, n: int) -> int {
        if i < n {
            i
        } else if n == 0 {
            0
        } else {
            n - 1
        }
    }

    /// Pulls the cursor and the move target back inside the board; run
    /// after a persisted board replaces the in-memory one, whose counts
    /// may differ.
    pub fn validate_selection(&mut self)
        requires
            old(self).board@.wf(),
            old(self).board@.times_wf(),
            old(self).input_mode == InputMode::MovingTask <==> old(self).moving_task_id is Some,
        ensures
            final(self).wf(),
            *final(self) == (App {
                selected_column: final(self).selected_column,
                selected_task: final(self).selected_task,
                target_column: final(self).target_column,
                ..*old(self)
            }),
            final(self).selected_column as int == Self::clamp_index(
                old(self).selected_column as int,
                old(self).board@.columns.len() as int,
            ),
            final(self).selected_task as int == (if old(self).board@.columns.len() == 0 {
                old(self).selected_task as int
            } else {
                Self::clamp_index(
                    old(self).selected_task as int,
                    old(self).board@.columns[final(self).selected_column as int].tasks.len() as int,
                )
            }),
            final(self).target_column as int == Self::clamp_index(
                old(self).target_column as int,
                old(self).board@.columns.len() as int,
            ),
    {
        let n = self.board.columns.len();
        if self.selected_column >= n {
            self.selected_column = if n == 0 {
                0
            } else {
                n - 1
            };
        }
        if self.selected_column < n {
            let len = self.board.columns[self.selected_column].tasks.len();
            if self.selected_task >= len {
                self.selected_task = if len == 0 {
                    0
                } else {
                    len - 1
                };
            }
        }
        if self.target_column >= n {
            self.target_column = if n == 0 {
                0
            } else {
                n - 1
            };
        }
    }
}

} // verus!
