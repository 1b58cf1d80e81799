use kanban::app::{App, EditField, EditState, InputMode};
use kanban::board::Board;
use kanban::input::{handle_key_events, Key};
use kanban::task::{Priority, Task};

fn empty_board_app() -> App {
    App {
        board: Board::new("My Kanban Board".to_string()),
        input_mode: InputMode::Normal,
        should_quit: false,
        selected_column: 0,
        selected_task: 0,
        edit_state: EditState::default(),
        status_message: "Ready".to_string(),
        moving_task_id: None,
        target_column: 0,
    }
}

fn type_text(app: &mut App, text: &str) {
    for c in text.chars() {
        app.edit_append_char(c);
    }
}

#[test]
fn new_app_is_sample_seeded() {
    let app = App::new();
    assert_eq!(app.board.title, "My Kanban Board");
    assert_eq!(app.board.columns.len(), 3);
    assert_eq!(app.board.columns[0].title, "To Do");
    assert_eq!(app.board.columns[1].title, "In Progress");
    assert_eq!(app.board.columns[2].title, "Done");
    assert_eq!(app.board.columns[0].tasks.len(), 2);
    assert!(app.board.columns[1].tasks.is_empty());
    assert!(app.board.columns[2].tasks.is_empty());
    assert!(matches!(app.input_mode, InputMode::Normal));
    assert_eq!(app.selected_column, 0);
    assert_eq!(app.selected_task, 0);
    // The two seeded tasks carry distinct identifiers.
    assert_ne!(app.board.columns[0].tasks[0].id, app.board.columns[0].tasks[1].id);
}

#[test]
fn delete_on_empty_board_is_a_noop() {
    let mut app = empty_board_app();
    let snapshot = app.board.clone();
    app.delete_selected_task();
    assert_eq!(app.board, snapshot);
    assert_eq!(app.selected_task, 0);
    assert_eq!(app.status_message, "Ready");
}

#[test]
fn add_task_buy_milk() {
    let mut app = empty_board_app();
    let before = app.board.columns[0].tasks.len();
    app.start_adding_task();
    assert!(matches!(app.input_mode, InputMode::AddingTask));
    type_text(&mut app, "Buy milk");
    app.finish_adding_task();
    assert!(matches!(app.input_mode, InputMode::Normal));
    assert_eq!(app.board.columns[0].tasks.len(), before + 1);
    let task = app.board.columns[0].tasks.last().unwrap();
    assert_eq!(task.title, "Buy milk");
    assert!(matches!(task.priority, Priority::Medium));
    let id = task.id;
    let mut occurrences = 0;
    for column in &app.board.columns {
        for t in &column.tasks {
            if t.id == id {
                occurrences += 1;
            }
        }
    }
    assert_eq!(occurrences, 1);
    assert_eq!(app.status_message, "Task added successfully");
}

#[test]
fn move_selected_task_to_third_column() {
    let mut app = empty_board_app();
    let solo = Task::new("solo".to_string());
    let id = solo.id;
    app.board.add_task_to_column(0, solo);
    app.start_moving_task();
    assert!(matches!(app.input_mode, InputMode::MovingTask));
    assert_eq!(app.moving_task_id, Some(id));
    assert_eq!(app.target_column, 0);
    app.move_target_right();
    app.move_target_right();
    assert_eq!(app.target_column, 2);
    app.confirm_move_task();
    assert!(matches!(app.input_mode, InputMode::Normal));
    assert_eq!(app.moving_task_id, None);
    assert!(app.board.columns[0].tasks.is_empty());
    assert_eq!(app.board.columns[2].tasks.len(), 1);
    assert_eq!(app.board.columns[2].tasks[0].id, id);
    // The emptied column's cursor stays at zero, without underflow.
    assert_eq!(app.selected_task, 0);
    assert_eq!(app.status_message, "Task moved to Done");
}

#[test]
fn cancelled_edit_leaves_priority_unchanged() {
    let mut app = empty_board_app();
    app.board.add_task_to_column(0, Task::new("steady".to_string()));
    app.start_editing_task();
    assert!(matches!(app.input_mode, InputMode::Editing));
    assert!(matches!(app.edit_state.priority, Priority::Medium));
    app.move_edit_field_next();
    app.move_edit_field_next();
    assert!(matches!(app.edit_state.selected_field, EditField::Priority));
    app.edit_append_char('+');
    app.edit_append_char('+');
    assert!(matches!(app.edit_state.priority, Priority::Critical));
    app.cancel_input();
    assert!(matches!(app.input_mode, InputMode::Normal));
    assert!(matches!(app.board.columns[0].tasks[0].priority, Priority::Medium));
}

#[test]
fn blank_title_confirm_is_refused_in_adding_mode() {
    let mut app = empty_board_app();
    let snapshot = app.board.clone();
    app.start_adding_task();
    type_text(&mut app, "   \u{3000}\t");
    app.finish_adding_task();
    assert!(matches!(app.input_mode, InputMode::AddingTask));
    assert_eq!(app.board, snapshot);
}

#[test]
fn blank_title_confirm_is_refused_in_editing_mode() {
    let mut app = empty_board_app();
    app.board.add_task_to_column(0, Task::new("keep me".to_string()));
    let snapshot = app.board.clone();
    app.start_editing_task();
    // Erase the pre-filled title down to nothing.
    for _ in 0.."keep me".len() {
        app.edit_backspace();
    }
    assert!(app.edit_state.title.is_empty());
    app.finish_editing_task();
    assert!(matches!(app.input_mode, InputMode::Editing));
    assert_eq!(app.board, snapshot);
}

#[test]
fn finish_editing_writes_staged_fields_back() {
    let mut app = empty_board_app();
    app.board.add_task_to_column(0, Task::new("draft".to_string()));
    let id = app.board.columns[0].tasks[0].id;
    app.start_editing_task();
    assert_eq!(app.edit_state.title, "draft");
    type_text(&mut app, " v2");
    app.move_edit_field_next();
    type_text(&mut app, "notes");
    app.move_edit_field_next();
    app.edit_append_char('+');
    app.finish_editing_task();
    let task = &app.board.columns[0].tasks[0];
    assert_eq!(task.id, id);
    assert_eq!(task.title, "draft v2");
    assert_eq!(task.description.as_deref(), Some("notes"));
    assert!(matches!(task.priority, Priority::High));
    assert_eq!(app.status_message, "Task updated successfully");
}

#[test]
fn selection_navigation_clamps_at_bounds() {
    let mut app = empty_board_app();
    app.board.add_task_to_column(1, Task::new("a".to_string()));
    app.board.add_task_to_column(1, Task::new("b".to_string()));
    app.move_selection_left();
    assert_eq!(app.selected_column, 0);
    app.move_selection_right();
    assert_eq!(app.selected_column, 1);
    app.move_selection_down();
    assert_eq!(app.selected_task, 1);
    app.move_selection_down();
    assert_eq!(app.selected_task, 1);
    app.move_selection_up();
    assert_eq!(app.selected_task, 0);
    app.move_selection_up();
    assert_eq!(app.selected_task, 0);
    app.move_selection_right();
    app.move_selection_right();
    assert_eq!(app.selected_column, 2);
    app.move_selection_right();
    assert_eq!(app.selected_column, 2);
}

#[test]
fn move_task_to_prev_column_from_leftmost_is_noop() {
    let mut app = empty_board_app();
    app.board.add_task_to_column(0, Task::new("stay".to_string()));
    let snapshot = app.board.clone();
    app.move_task_to_prev_column();
    assert_eq!(app.board, snapshot);
}

#[test]
fn move_task_to_prev_column_moves_one_left() {
    let mut app = empty_board_app();
    let t = Task::new("go".to_string());
    let id = t.id;
    app.board.add_task_to_column(1, t);
    app.move_selection_right();
    app.move_task_to_prev_column();
    assert!(app.board.columns[1].tasks.is_empty());
    assert_eq!(app.board.columns[0].tasks.len(), 1);
    assert_eq!(app.board.columns[0].tasks[0].id, id);
    assert_eq!(app.status_message, "Task moved to previous column");
}

#[test]
fn delete_clamps_cursor_to_last_task() {
    let mut app = empty_board_app();
    app.board.add_task_to_column(0, Task::new("a".to_string()));
    app.board.add_task_to_column(0, Task::new("b".to_string()));
    app.move_selection_down();
    assert_eq!(app.selected_task, 1);
    app.delete_selected_task();
    assert_eq!(app.board.columns[0].tasks.len(), 1);
    assert_eq!(app.board.columns[0].tasks[0].title, "a");
    assert_eq!(app.selected_task, 0);
    assert_eq!(app.status_message, "Task deleted successfully");
}

#[test]
fn validate_selection_clamps_after_board_swap() {
    let mut app = empty_board_app();
    app.selected_column = 7;
    app.selected_task = 9;
    app.target_column = 5;
    app.validate_selection();
    assert_eq!(app.selected_column, 2);
    assert_eq!(app.selected_task, 0);
    assert_eq!(app.target_column, 2);
}

#[test]
fn tick_and_quit() {
    let mut app = empty_board_app();
    app.tick();
    assert!(!app.should_quit);
    app.quit();
    assert!(app.should_quit);
}

#[test]
fn keys_drive_a_full_add() {
    let mut app = empty_board_app();
    handle_key_events(Key::Char('n'), &mut app);
    assert!(matches!(app.input_mode, InputMode::AddingTask));
    for c in "Plan week".chars() {
        handle_key_events(Key::Char(c), &mut app);
    }
    handle_key_events(Key::Enter, &mut app);
    assert!(matches!(app.input_mode, InputMode::Normal));
    assert_eq!(app.board.columns[0].tasks.len(), 1);
    assert_eq!(app.board.columns[0].tasks[0].title, "Plan week");
}

#[test]
fn key_q_quits_only_in_normal_mode() {
    let mut app = empty_board_app();
    handle_key_events(Key::Char('n'), &mut app);
    handle_key_events(Key::Char('q'), &mut app);
    assert!(!app.should_quit);
    assert_eq!(app.edit_state.title, "q");
    handle_key_events(Key::Esc, &mut app);
    assert!(matches!(app.input_mode, InputMode::Normal));
    handle_key_events(Key::Char('q'), &mut app);
    assert!(app.should_quit);
}

#[test]
fn unknown_keys_are_ignored() {
    let mut app = empty_board_app();
    handle_key_events(Key::Char('x'), &mut app);
    handle_key_events(Key::Backspace, &mut app);
    handle_key_events(Key::Tab, &mut app);
    assert!(matches!(app.input_mode, InputMode::Normal));
    assert!(!app.should_quit);
}

#[test]
fn ctrl_c_cancels_an_open_form() {
    let mut app = empty_board_app();
    handle_key_events(Key::Char('n'), &mut app);
    handle_key_events(Key::CtrlChar('c'), &mut app);
    assert!(matches!(app.input_mode, InputMode::Normal));
    assert_eq!(app.status_message, "Cancelled");
}

#[test]
fn edit_field_focus_cycles_both_ways() {
    let mut app = empty_board_app();
    app.start_adding_task();
    assert!(matches!(app.edit_state.selected_field, EditField::Title));
    app.move_edit_field_next();
    assert!(matches!(app.edit_state.selected_field, EditField::Description));
    app.move_edit_field_next();
    assert!(matches!(app.edit_state.selected_field, EditField::Priority));
    app.move_edit_field_next();
    assert!(matches!(app.edit_state.selected_field, EditField::Title));
    app.move_edit_field_prev();
    assert!(matches!(app.edit_state.selected_field, EditField::Priority));
}

#[test]
fn moving_mode_keys_choose_target_and_cancel() {
    let mut app = empty_board_app();
    app.board.add_task_to_column(0, Task::new("mv".to_string()));
    let snapshot = app.board.clone();
    handle_key_events(Key::Char('m'), &mut app);
    assert!(matches!(app.input_mode, InputMode::MovingTask));
    handle_key_events(Key::Right, &mut app);
    assert_eq!(app.target_column, 1);
    handle_key_events(Key::Left, &mut app);
    assert_eq!(app.target_column, 0);
    handle_key_events(Key::Esc, &mut app);
    assert!(matches!(app.input_mode, InputMode::Normal));
    assert_eq!(app.moving_task_id, None);
    assert_eq!(app.board, snapshot);
}

#[test]
fn confirm_move_into_same_column_changes_nothing() {
    let mut app = empty_board_app();
    app.board.add_task_to_column(0, Task::new("still".to_string()));
    let snapshot = app.board.clone();
    app.start_moving_task();
    app.confirm_move_task();
    assert_eq!(app.board, snapshot);
    assert!(matches!(app.input_mode, InputMode::Normal));
    assert_eq!(app.moving_task_id, None);
}

#[test]
fn selected_ids_follow_the_cursor() {
    let mut app = empty_board_app();
    assert_eq!(app.get_selected_task_id(), None);
    assert_eq!(app.get_selected_column_id(), Some(app.board.columns[0].id));
    let t = Task::new("here".to_string());
    let id = t.id;
    app.board.add_task_to_column(1, t);
    app.move_selection_right();
    assert_eq!(app.get_selected_column_id(), Some(app.board.columns[1].id));
    assert_eq!(app.get_selected_task_id(), Some(id));
}

#[test]
fn start_adding_resets_the_form() {
    let mut app = empty_board_app();
    app.edit_state.title = "leftover".to_string();
    app.edit_state.priority = Priority::Critical;
    app.start_adding_task();
    assert_eq!(app.edit_state.title, "");
    assert_eq!(app.edit_state.description, "");
    assert!(matches!(app.edit_state.priority, Priority::Medium));
    assert!(matches!(app.edit_state.selected_field, EditField::Title));
    assert_eq!(app.status_message, "Enter new task title");
}
