use jot::inbox::{format_date, inbox_notes, inbox_order, note_from_row, try_format_date, NoteRow};
use jot::note::Priority;

fn row(note_id: u32, user_id: u32, timestamp: i64, priority: u32, dismissed: bool) -> NoteRow {
    NoteRow { note_id, user_id, text: format!("note {}", note_id), timestamp, priority, dismissed }
}

#[test]
fn format_date_epoch() {
    assert_eq!(format_date(0), "Jan 01, 1970 | 00:00");
}

#[test]
fn format_date_examples() {
    assert_eq!(format_date(1_700_000_000), "Nov 14, 2023 | 22:13");
    assert_eq!(format_date(-1), "Dec 31, 1969 | 23:59");
    assert_eq!(format_date(951_782_400), "Feb 29, 2000 | 00:00");
}

#[test]
fn format_date_range_edges() {
    assert!(try_format_date(8_210_266_876_799).is_some());
    assert!(try_format_date(8_210_266_876_800).is_none());
    assert!(try_format_date(-8_334_601_228_800).is_some());
    assert!(try_format_date(-8_334_601_228_801).is_none());
    assert!(try_format_date(i64::MAX).is_none());
    assert!(try_format_date(i64::MIN).is_none());
    assert_eq!(try_format_date(0).as_deref(), Some("Jan 01, 1970 | 00:00"));
}

#[test]
fn inbox_orders_by_priority_then_latest() {
    let rows = vec![
        row(1, 5, 100, 0, false),
        row(2, 5, 300, 2, false),
        row(3, 5, 200, 2, false),
        row(4, 5, 400, 1, false),
        row(5, 5, 500, 0, false),
    ];
    let ids: Vec<u32> = inbox_order(5, rows).iter().map(|r| r.note_id).collect();
    assert_eq!(ids, vec![2, 3, 4, 5, 1]);
}

#[test]
fn inbox_leaves_out_dismissed_and_other_users() {
    let rows = vec![
        row(1, 5, 100, 0, true),
        row(2, 6, 300, 2, false),
        row(3, 5, 200, 1, false),
        row(4, 6, 400, 1, true),
    ];
    let ids: Vec<u32> = inbox_order(5, rows).iter().map(|r| r.note_id).collect();
    assert_eq!(ids, vec![3]);
    assert!(inbox_order(7, vec![row(1, 5, 1, 1, false)]).is_empty());
    assert!(inbox_order(5, Vec::new()).is_empty());
}

#[test]
fn inbox_notes_are_formatted() {
    let rows = vec![row(1, 9, 0, 0, false), row(2, 9, 60, 2, false), row(3, 9, 0, 7, true)];
    let notes = inbox_notes(9, rows);
    assert_eq!(notes.len(), 2);
    assert_eq!(notes[0].note_id, 2);
    assert_eq!(notes[0].priority, Priority::HIGH);
    assert_eq!(notes[0].timestamp, "Jan 01, 1970 | 00:01");
    assert_eq!(notes[0].text, "note 2");
    assert_eq!(notes[0].user_id, 9);
    assert!(!notes[0].dismissed);
    assert_eq!(notes[1].note_id, 1);
    assert_eq!(notes[1].priority, Priority::LOW);
    assert_eq!(notes[1].timestamp, "Jan 01, 1970 | 00:00");
}

#[test]
fn note_from_row_fields() {
    let n = note_from_row(row(8, 3, 86_400, 1, false));
    assert_eq!(n.note_id, 8);
    assert_eq!(n.user_id, 3);
    assert_eq!(n.priority, Priority::MED);
    assert_eq!(n.timestamp, "Jan 02, 1970 | 00:00");
}

#[test]
fn inbox_ties_keep_all_notes() {
    let rows = vec![row(1, 1, 10, 1, false), row(2, 1, 10, 1, false), row(3, 1, 10, 1, false)];
    let mut ids: Vec<u32> = inbox_order(1, rows).iter().map(|r| r.note_id).collect();
    ids.sort();
    assert_eq!(ids, vec![1, 2, 3]);
}
