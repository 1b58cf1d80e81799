use kanban::board::Board;
use kanban::storage::{
    decode_board, decode_task, encode_board, encode_task, BoardRecord, ColumnRecord, TaskRecord,
};
use kanban::task::{priority_of_tag, Priority, Task};
use kanban::text::string_is_blank;

fn sample_board() -> Board {
    let mut board = Board::new("Round trip".to_string());
    let t1 = Task::new("first".to_string())
        .with_description("with text".to_string())
        .with_priority(Priority::Low);
    let mut t2 = Task::new("second".to_string()).with_priority(Priority::Critical);
    t2.due_date = Some(1_700_000_000_123_456);
    let t3 = Task::new("third".to_string());
    board.add_task_to_column(0, t1);
    board.add_task_to_column(0, t2);
    board.add_task_to_column(2, t3);
    board
}

#[test]
fn board_round_trips_through_records() {
    let board = sample_board();
    let record = encode_board(&board).expect("a fresh board always encodes");
    let reloaded = decode_board(&record).expect("an encoded board always decodes");
    assert_eq!(reloaded, board);
}

#[test]
fn round_trip_keeps_timestamps_to_the_microsecond() {
    let mut board = Board::new("times".to_string());
    let mut task = Task::new("timed".to_string());
    task.created_at = 1_234_567_890_654_321;
    task.updated_at = -863_999_999_000_001;
    task.due_date = Some(253_402_300_799_999_999);
    board.add_task_to_column(1, task);
    let record = encode_board(&board).unwrap();
    let reloaded = decode_board(&record).unwrap();
    assert_eq!(reloaded.columns[1].tasks[0].created_at, 1_234_567_890_654_321);
    assert_eq!(reloaded.columns[1].tasks[0].updated_at, -863_999_999_000_001);
    assert_eq!(reloaded.columns[1].tasks[0].due_date, Some(253_402_300_799_999_999));
}

#[test]
fn round_trip_keeps_identifiers_and_order() {
    let board = sample_board();
    let record = encode_board(&board).unwrap();
    let reloaded = decode_board(&record).unwrap();
    assert_eq!(reloaded.id, board.id);
    for (c0, c1) in board.columns.iter().zip(reloaded.columns.iter()) {
        assert_eq!(c0.id, c1.id);
        assert_eq!(c0.title, c1.title);
        let ids0: Vec<u128> = c0.tasks.iter().map(|t| t.id).collect();
        let ids1: Vec<u128> = c1.tasks.iter().map(|t| t.id).collect();
        assert_eq!(ids0, ids1);
    }
}

#[test]
fn encoded_fields_have_the_stored_shapes() {
    let mut board = Board::new("shapes".to_string());
    let mut task = Task::new("shaped".to_string()).with_priority(Priority::High);
    task.created_at = 0;
    task.updated_at = 0;
    board.add_task_to_column(0, task);
    let record = encode_board(&board).unwrap();
    // Hyphenated UUID text: 36 characters, hyphens in the fixed places.
    assert_eq!(record.id.len(), 36);
    let bytes = record.id.as_bytes();
    assert_eq!(bytes[8], b'-');
    assert_eq!(bytes[13], b'-');
    assert_eq!(bytes[18], b'-');
    assert_eq!(bytes[23], b'-');
    let task_rec = &record.columns[0].tasks[0];
    assert_eq!(task_rec.priority, "High");
    // The Unix epoch in RFC 3339, UTC.
    assert_eq!(task_rec.created_at, "1970-01-01T00:00:00+00:00");
    assert_eq!(task_rec.due_date, None);
}

#[test]
fn encode_task_refuses_unstorable_timestamps() {
    let mut task = Task::new("far".to_string());
    task.created_at = i64::MAX;
    assert!(encode_task(&task).is_none());
    let mut task2 = Task::new("near".to_string());
    task2.due_date = Some(i64::MIN);
    assert!(encode_task(&task2).is_none());
}

fn valid_task_record() -> TaskRecord {
    let task = Task::new("ok".to_string());
    encode_task(&task).unwrap()
}

#[test]
fn decode_task_rejects_corrupt_fields() {
    let mut bad_id = valid_task_record();
    bad_id.id = "not-a-uuid".to_string();
    assert!(decode_task(&bad_id).is_none());

    let mut bad_priority = valid_task_record();
    bad_priority.priority = "Urgent".to_string();
    assert!(decode_task(&bad_priority).is_none());

    let mut bad_time = valid_task_record();
    bad_time.created_at = "yesterday".to_string();
    assert!(decode_task(&bad_time).is_none());

    let mut bad_due = valid_task_record();
    bad_due.due_date = Some("tomorrow".to_string());
    assert!(decode_task(&bad_due).is_none());

    assert!(decode_task(&valid_task_record()).is_some());
}

#[test]
fn decode_board_rejects_duplicate_task_ids() {
    let board = sample_board();
    let mut record = encode_board(&board).unwrap();
    // Copy a task row into another column: the identifier now occurs twice.
    let dup = record.columns[0].tasks[0].clone();
    record.columns[1].tasks.push(dup);
    assert!(decode_board(&record).is_none());
}

#[test]
fn decode_board_rejects_duplicate_column_ids() {
    let board = sample_board();
    let mut record = encode_board(&board).unwrap();
    // Give the last column the first column's identifier: column lookup
    // by identifier would become ambiguous, so the record is corrupt.
    record.columns[2].id = record.columns[0].id.clone();
    assert!(decode_board(&record).is_none());
}

#[test]
fn decode_board_rejects_a_corrupt_board_id() {
    let record = BoardRecord {
        id: "xyz".to_string(),
        title: "broken".to_string(),
        columns: Vec::new(),
    };
    assert!(decode_board(&record).is_none());
}

#[test]
fn decode_board_rejects_a_corrupt_column() {
    let board = sample_board();
    let mut record = encode_board(&board).unwrap();
    record.columns[2] = ColumnRecord {
        id: "###".to_string(),
        title: "broken".to_string(),
        tasks: Vec::new(),
    };
    assert!(decode_board(&record).is_none());
}

#[test]
fn priority_tag_parsing_is_the_inverse_of_writing() {
    for p in [Priority::Low, Priority::Medium, Priority::High, Priority::Critical] {
        let tag = p.tag();
        let back = priority_of_tag(&tag).unwrap();
        assert_eq!(back.tag(), tag);
    }
    assert!(priority_of_tag(&"".to_string()).is_none());
    assert!(priority_of_tag(&"low".to_string()).is_none());
}

#[test]
fn blankness_of_strings() {
    assert!(string_is_blank(&"".to_string()));
    assert!(string_is_blank(&" \t\r\n".to_string()));
    assert!(string_is_blank(&"\u{3000}\u{00a0}".to_string()));
    assert!(!string_is_blank(&" a ".to_string()));
    assert!(!string_is_blank(&"x".to_string()));
}
