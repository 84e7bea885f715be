use chronos_clock::note_key::{note_key, HourStamp};
use chronos_clock::notes::{NoteStore, TimeNote};
use chronos_clock::selection::{move_minute, Direction, Selection};
use chronos_clock::session::{Control, Outcome, Session};
use chronos_clock::text::{decimal_width, push_decimal, push_padded};

fn stamp() -> HourStamp {
    HourStamp { year: 2024, month: 3, day: 5, hour: 7 }
}

#[test]
fn moves_from_no_selection_start_at_zero() {
    for direction in [Direction::Right, Direction::Left, Direction::Up, Direction::Down] {
        assert_eq!(move_minute(None, direction), 0);
    }
}

#[test]
fn moves_wrap_round_the_dial() {
    assert_eq!(move_minute(Some(59), Direction::Right), 0);
    assert_eq!(move_minute(Some(0), Direction::Left), 59);
    assert_eq!(move_minute(Some(57), Direction::Up), 2);
    assert_eq!(move_minute(Some(3), Direction::Down), 58);
    assert_eq!(move_minute(Some(30), Direction::Right), 31);
    assert_eq!(move_minute(Some(30), Direction::Left), 29);
    assert_eq!(move_minute(Some(30), Direction::Up), 35);
    assert_eq!(move_minute(Some(30), Direction::Down), 25);
}

#[test]
fn selection_stays_on_the_dial() {
    let moves = [
        Direction::Left,
        Direction::Down,
        Direction::Down,
        Direction::Right,
        Direction::Up,
        Direction::Left,
        Direction::Left,
        Direction::Down,
    ];
    let mut current: Option<u32> = None;
    for round in 0..100 {
        for (i, direction) in moves.iter().enumerate() {
            if (round + i) % 3 != 0 {
                let next = move_minute(current, *direction);
                assert!(next < 60);
                current = Some(next);
            }
        }
    }
}

#[test]
fn opposite_moves_cancel() {
    for m in 0..60u32 {
        assert_eq!(move_minute(Some(move_minute(Some(m), Direction::Right)), Direction::Left), m);
        assert_eq!(move_minute(Some(move_minute(Some(m), Direction::Left)), Direction::Right), m);
        assert_eq!(move_minute(Some(move_minute(Some(m), Direction::Up)), Direction::Down), m);
        assert_eq!(move_minute(Some(move_minute(Some(m), Direction::Down)), Direction::Up), m);
    }
}

#[test]
fn right_from_fifty_nine_then_left() {
    let selection = Selection::Selected(59).moved(Direction::Right);
    assert_eq!(selection.minute(), Some(0));
    let selection = selection.moved(Direction::Left);
    assert_eq!(selection.minute(), Some(59));
}

#[test]
fn selection_opens_and_closes() {
    let selection = Selection::NoSelection.begin_edit(String::from("k"));
    assert!(matches!(selection, Selection::NoSelection));
    let selection = Selection::Selected(12).begin_edit(String::from("k"));
    assert!(selection.is_editing());
    assert_eq!(selection.minute(), Some(12));
    // While a note is open the highlight stays.
    let selection = selection.moved(Direction::Up);
    assert_eq!(selection.minute(), Some(12));
    assert!(selection.is_editing());
    let (selection, key) = selection.end_edit();
    assert_eq!(key, Some(String::from("k")));
    assert!(matches!(selection, Selection::Selected(12)));
    let (selection, key) = selection.end_edit();
    assert_eq!(key, None);
    assert!(matches!(selection, Selection::Selected(12)));
}

#[test]
fn note_key_joins_date_hour_and_minute() {
    assert_eq!(note_key(stamp(), 9), "2024-03-05-07-09");
    assert_eq!(note_key(HourStamp { year: 1999, month: 12, day: 31, hour: 23 }, 59), "1999-12-31-23-59");
    assert_eq!(note_key(HourStamp { year: 2024, month: 1, day: 1, hour: 0 }, 0), "2024-01-01-00-00");
}

#[test]
fn note_key_of_unusual_years() {
    assert_eq!(note_key(HourStamp { year: 33, month: 4, day: 3, hour: 15 }, 7), "0033-04-03-15-07");
    assert_eq!(note_key(HourStamp { year: 0, month: 4, day: 3, hour: 15 }, 7), "0000-04-03-15-07");
    assert_eq!(note_key(HourStamp { year: 12345, month: 4, day: 3, hour: 15 }, 7), "+12345-04-03-15-07");
    assert_eq!(note_key(HourStamp { year: -44, month: 3, day: 15, hour: 11 }, 30), "-0044-03-15-11-30");
    assert_eq!(
        note_key(HourStamp { year: i32::MIN, month: 1, day: 1, hour: 0 }, 0),
        "-2147483648-01-01-00-00"
    );
}

#[test]
fn note_key_does_not_cut_wide_fields() {
    assert_eq!(note_key(stamp(), 123), "2024-03-05-07-123");
}

#[test]
fn decimal_text() {
    let mut out = String::from("n=");
    push_decimal(&mut out, 0);
    assert_eq!(out, "n=0");
    push_decimal(&mut out, 4_294_967_295);
    assert_eq!(out, "n=04294967295");
    let mut padded = String::new();
    push_padded(&mut padded, 7, 4);
    push_padded(&mut padded, 12345, 2);
    push_padded(&mut padded, 0, 0);
    assert_eq!(padded, "0007123450");
    assert_eq!(decimal_width(0), 1);
    assert_eq!(decimal_width(9), 1);
    assert_eq!(decimal_width(10), 2);
    assert_eq!(decimal_width(u32::MAX), 10);
}

#[test]
fn save_then_lookup_round_trip() {
    let mut store = NoteStore::new();
    let key = String::from("2024-03-05-07-09");
    assert_eq!(store.lookup(&key), None);
    store.save(key.clone(), String::from("hello"));
    assert_eq!(store.lookup(&key), Some(String::from("hello")));
    assert_eq!(store.lookup(&String::from("2024-03-05-07-10")), None);
    assert_eq!(store.is_locked(&key), Some(false));
    assert_eq!(store.len(), 1);
}

#[test]
fn save_overwrites() {
    let mut store = NoteStore::new();
    let first = String::from("a");
    let second = String::from("b");
    store.save(first.clone(), String::from("one"));
    store.save(second.clone(), String::from("two"));
    store.save(first.clone(), String::from("three"));
    assert_eq!(store.len(), 2);
    assert_eq!(store.lookup(&first), Some(String::from("three")));
    assert_eq!(store.lookup(&second), Some(String::from("two")));
    assert_eq!(store.key(0), "a");
    assert_eq!(store.key(1), "b");
    assert_eq!(store.note(0).content, "three");
    store.save(second.clone(), String::new());
    assert_eq!(store.lookup(&second), Some(String::new()));
}

#[test]
fn insert_keeps_the_lock_and_save_clears_it() {
    let mut store = NoteStore::new();
    let key = String::from("k");
    store.insert(key.clone(), TimeNote { content: String::from("kept"), is_locked: true });
    assert_eq!(store.is_locked(&key), Some(true));
    assert_eq!(store.lookup(&key), Some(String::from("kept")));
    store.save(key.clone(), String::from("new"));
    assert_eq!(store.is_locked(&key), Some(false));
    assert_eq!(store.is_locked(&String::from("other")), None);
}

#[test]
fn session_starts_without_selection() {
    let session = Session::new(77, NoteStore::new());
    assert!(matches!(session.selection, Selection::NoSelection));
    assert!(!session.should_quit);
    assert_eq!(session.clock.virtual_micros, 77);
    assert_eq!(session.clock.multiplier_tenths, 10);
    assert_eq!(session.notes.len(), 0);
}

#[test]
fn session_tick_advances_the_clock() {
    let mut session = Session::new(1_000, NoteStore::new());
    let (next, _) = session.handle(Control::Faster, stamp(), String::new());
    session = next;
    session.tick(1_010);
    assert_eq!(session.clock.virtual_micros, 1_011);
    assert_eq!(session.clock.last_real_micros, 1_010);
}

#[test]
fn session_speed_controls() {
    let session = Session::new(0, NoteStore::new());
    let (session, outcome) = session.handle(Control::Faster, stamp(), String::new());
    assert!(matches!(outcome, Outcome::Idle));
    assert_eq!(session.clock.multiplier_tenths, 11);
    let (session, _) = session.handle(Control::Slower, stamp(), String::new());
    let (session, _) = session.handle(Control::Slower, stamp(), String::new());
    assert_eq!(session.clock.multiplier_tenths, 9);
    let (session, _) = session.handle(Control::Quit, stamp(), String::new());
    assert!(session.should_quit);
}

#[test]
fn session_right_from_fifty_nine_uses_the_hour_of_the_confirm() {
    let mut session = Session::new(0, NoteStore::new());
    session.selection = Selection::Selected(59);
    let (session, _) = session.handle(Control::Move(Direction::Right), stamp(), String::new());
    assert_eq!(session.selection.minute(), Some(0));
    let later = HourStamp { year: 2024, month: 3, day: 6, hour: 8 };
    let (session, outcome) = session.handle(Control::Confirm, later, String::new());
    assert!(matches!(outcome, Outcome::EditorOpened(ref text) if text.is_empty()));
    assert!(matches!(session.selection, Selection::Editing(0, ref key) if key == "2024-03-06-08-00"));
}

#[test]
fn session_confirm_without_selection_does_nothing() {
    let session = Session::new(0, NoteStore::new());
    let (session, outcome) = session.handle(Control::Confirm, stamp(), String::new());
    assert!(matches!(outcome, Outcome::Idle));
    assert!(matches!(session.selection, Selection::NoSelection));
    let (session, outcome) = session.handle(Control::Cancel, stamp(), String::from("x"));
    assert!(matches!(outcome, Outcome::Idle));
    assert_eq!(session.notes.len(), 0);
}

#[test]
fn session_edit_saves_under_the_key_of_entry() {
    let session = Session::new(0, NoteStore::new());
    let (session, _) = session.handle(Control::Move(Direction::Up), stamp(), String::new());
    let (session, _) = session.handle(Control::Move(Direction::Up), stamp(), String::new());
    assert_eq!(session.selection.minute(), Some(5));
    let (session, outcome) = session.handle(Control::Confirm, stamp(), String::new());
    assert!(matches!(outcome, Outcome::EditorOpened(ref text) if text.is_empty()));
    // While the note is open the other controls belong to the editor.
    let (session, outcome) = session.handle(Control::Quit, stamp(), String::from("he"));
    assert!(matches!(outcome, Outcome::Idle));
    assert!(!session.should_quit);
    let (session, _) = session.handle(Control::Faster, stamp(), String::from("hel"));
    assert_eq!(session.clock.multiplier_tenths, 10);
    let (session, _) = session.handle(Control::Move(Direction::Right), stamp(), String::from("hell"));
    assert_eq!(session.selection.minute(), Some(5));
    let (session, _) = session.handle(Control::Confirm, stamp(), String::from("hell"));
    assert!(session.selection.is_editing());
    // Virtual time has run into another hour by the time of the cancel.
    let later = HourStamp { year: 2025, month: 1, day: 1, hour: 0 };
    let (session, outcome) = session.handle(Control::Cancel, later, String::from("hello"));
    assert!(matches!(outcome, Outcome::NoteSaved));
    assert!(matches!(session.selection, Selection::Selected(5)));
    assert_eq!(session.notes.lookup(&String::from("2024-03-05-07-05")), Some(String::from("hello")));
    assert_eq!(session.notes.lookup(&String::from("2025-01-01-00-05")), None);
    // Opening it again shows what was saved.
    let (session, outcome) = session.handle(Control::Confirm, stamp(), String::new());
    assert!(matches!(outcome, Outcome::EditorOpened(ref text) if text == "hello"));
    // A cancel saves even an empty, unchanged or emptied text.
    let (session, outcome) = session.handle(Control::Cancel, stamp(), String::new());
    assert!(matches!(outcome, Outcome::NoteSaved));
    assert_eq!(session.notes.lookup(&String::from("2024-03-05-07-05")), Some(String::new()));
    assert_eq!(session.notes.len(), 1);
}
