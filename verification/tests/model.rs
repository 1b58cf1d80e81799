use kanban::board::Board;
use kanban::column::Column;
use kanban::task::{Priority, Task};

#[test]
fn new_board_has_default_columns() {
    let board = Board::new("My Kanban Board".to_string());
    assert_eq!(board.title, "My Kanban Board");
    assert_eq!(board.columns.len(), 3);
    assert_eq!(board.columns[0].title, "To Do");
    assert_eq!(board.columns[1].title, "In Progress");
    assert_eq!(board.columns[2].title, "Done");
    for column in &board.columns {
        assert!(column.tasks.is_empty());
    }
}

#[test]
fn task_new_defaults() {
    let task = Task::new("Write report".to_string());
    assert_eq!(task.title, "Write report");
    assert_eq!(task.description, None);
    assert_eq!(task.due_date, None);
    assert!(matches!(task.priority, Priority::Medium));
    assert_eq!(task.created_at, task.updated_at);
}

#[test]
fn task_builders_and_updates() {
    let mut task = Task::new("t".to_string())
        .with_description("d".to_string())
        .with_priority(Priority::High);
    assert_eq!(task.description.as_deref(), Some("d"));
    assert!(matches!(task.priority, Priority::High));
    task.update_title("t2".to_string());
    assert_eq!(task.title, "t2");
    task.update_description(None);
    assert_eq!(task.description, None);
    task.update_priority(Priority::Low);
    assert!(matches!(task.priority, Priority::Low));
}

#[test]
fn column_add_remove_get() {
    let mut column = Column::new("stage".to_string());
    let t1 = Task::new("a".to_string());
    let t2 = Task::new("b".to_string());
    let id1 = t1.id;
    let id2 = t2.id;
    column.add_task(t1);
    column.add_task(t2);
    assert_eq!(column.tasks.len(), 2);
    assert_eq!(column.get_task(id2).unwrap().title, "b");
    let removed = column.remove_task(id1).unwrap();
    assert_eq!(removed.title, "a");
    assert_eq!(column.tasks.len(), 1);
    assert_eq!(column.tasks[0].title, "b");
    assert!(column.remove_task(id1).is_none());
}

#[test]
fn move_task_success_appends_at_tail() {
    let mut board = Board::new("b".to_string());
    let t1 = Task::new("one".to_string());
    let t2 = Task::new("two".to_string());
    let id1 = t1.id;
    board.add_task_to_column(0, t1);
    board.add_task_to_column(1, t2);
    let from = board.columns[0].id;
    let to = board.columns[1].id;
    assert!(board.move_task(id1, from, to));
    assert!(board.columns[0].tasks.is_empty());
    assert_eq!(board.columns[1].tasks.len(), 2);
    assert_eq!(board.columns[1].tasks[1].title, "one");
    assert_eq!(board.columns[1].tasks[1].id, id1);
}

#[test]
fn move_task_failures_leave_board_unchanged() {
    let mut board = Board::new("b".to_string());
    let t1 = Task::new("one".to_string());
    let id1 = t1.id;
    board.add_task_to_column(0, t1);
    let from = board.columns[0].id;
    let to = board.columns[1].id;
    let snapshot = board.clone();

    // Source equals destination.
    assert!(!board.move_task(id1, from, from));
    assert_eq!(board, snapshot);
    // Unknown destination column: the task must not be dropped.
    assert!(!board.move_task(id1, from, 0xdead_beef));
    assert_eq!(board, snapshot);
    // Unknown source column.
    assert!(!board.move_task(id1, 0xdead_beef, to));
    assert_eq!(board, snapshot);
    // Task not in the source column.
    assert!(!board.move_task(0x1234, from, to));
    assert_eq!(board, snapshot);
}

#[test]
fn delete_task_removes_first_match_only() {
    let mut board = Board::new("b".to_string());
    let t1 = Task::new("one".to_string());
    let t2 = Task::new("two".to_string());
    let id1 = t1.id;
    board.add_task_to_column(0, t1);
    board.add_task_to_column(2, t2);
    assert!(board.delete_task(id1));
    assert!(board.columns[0].tasks.is_empty());
    assert_eq!(board.columns[2].tasks.len(), 1);
    assert!(!board.delete_task(id1));
}

#[test]
fn get_task_scans_all_columns() {
    let mut board = Board::new("b".to_string());
    let t = Task::new("deep".to_string());
    let id = t.id;
    board.add_task_to_column(2, t);
    assert_eq!(board.get_task(id).unwrap().title, "deep");
    assert!(board.get_task(id ^ 1).is_none());
    assert!(board.contains_task(id));
    assert!(!board.contains_task(id ^ 1));
}

#[test]
fn update_task_at_overwrites_fields() {
    let mut board = Board::new("b".to_string());
    let t = Task::new("old".to_string());
    let id = t.id;
    let created = t.created_at;
    board.add_task_to_column(1, t);
    board.update_task_at(1, 0, "new".to_string(), Some("desc".to_string()), Priority::Critical);
    let task = &board.columns[1].tasks[0];
    assert_eq!(task.id, id);
    assert_eq!(task.title, "new");
    assert_eq!(task.description.as_deref(), Some("desc"));
    assert!(matches!(task.priority, Priority::Critical));
    assert_eq!(task.created_at, created);
}

#[test]
fn priority_up_down_clamp_at_bounds() {
    assert!(matches!(Priority::Low.up(), Priority::Medium));
    assert!(matches!(Priority::Medium.up(), Priority::High));
    assert!(matches!(Priority::High.up(), Priority::Critical));
    assert!(matches!(Priority::Critical.up(), Priority::Critical));
    assert!(matches!(Priority::Critical.down(), Priority::High));
    assert!(matches!(Priority::High.down(), Priority::Medium));
    assert!(matches!(Priority::Medium.down(), Priority::Low));
    assert!(matches!(Priority::Low.down(), Priority::Low));
}

#[test]
fn priority_tags_are_exact() {
    assert_eq!(Priority::Low.tag(), "Low");
    assert_eq!(Priority::Medium.tag(), "Medium");
    assert_eq!(Priority::High.tag(), "High");
    assert_eq!(Priority::Critical.tag(), "Critical");
    assert_eq!(Priority::default().tag(), "Medium");
}
