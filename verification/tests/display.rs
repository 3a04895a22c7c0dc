use echo_service::display::DisplayLog;
use echo_service::{INITIAL_LINE_OFFSET, LINE_HEIGHT, MAX_LINE_POSITION};

#[test]
fn append_draws_at_cursor_and_advances() {
    let mut log = DisplayLog::new_appliance();
    let e = log.append(String::from("hello"));
    assert!(!e.cleared);
    assert_eq!(e.line, INITIAL_LINE_OFFSET);
    assert_eq!(e.text, "hello");
    assert_eq!(log.cursor, INITIAL_LINE_OFFSET + LINE_HEIGHT);
}

#[test]
fn fifteen_appends_fill_screen_sixteenth_clears() {
    let mut log = DisplayLog::new_appliance();
    for n in 0..15u32 {
        let e = log.append(String::from("line"));
        assert!(!e.cleared);
        assert_eq!(e.line, n * LINE_HEIGHT);
    }
    // the 15th append drew at 210 and left the cursor at 225, past the bound
    assert_eq!(log.cursor, 225);
    assert!(log.cursor > MAX_LINE_POSITION);
    // the 16th append clears first, then draws at the initial offset
    let e = log.append(String::from("overflow"));
    assert!(e.cleared);
    assert_eq!(e.line, INITIAL_LINE_OFFSET);
    assert_eq!(log.cursor, INITIAL_LINE_OFFSET + LINE_HEIGHT);
}

#[test]
fn clear_resets_cursor_to_initial_offset() {
    let mut log = DisplayLog::new(20, 15, 220);
    log.append(String::from("a"));
    log.append(String::from("b"));
    assert_eq!(log.cursor, 50);
    log.clear();
    assert_eq!(log.cursor, 20);
}

#[test]
fn nonzero_initial_offset_wraps_to_it() {
    let mut log = DisplayLog::new(20, 100, 150);
    // draws at 20, cursor 120; draws at 120, cursor 220 > 150
    assert_eq!(log.append(String::from("a")).line, 20);
    assert_eq!(log.append(String::from("b")).line, 120);
    let e = log.append(String::from("c"));
    assert!(e.cleared);
    assert_eq!(e.line, 20);
    assert_eq!(log.cursor, 120);
}

#[test]
fn cursor_position_follows_line_count() {
    // with the appliance geometry, 15 lines fit on one screen; the cursor
    // cycles with period 15: after n appends it stands at ((n - 1) % 15) * 15 + 15
    let mut log = DisplayLog::new_appliance();
    for n in 1..40u32 {
        log.append(String::from("x"));
        assert_eq!(log.cursor, ((n - 1) % 15) * LINE_HEIGHT + LINE_HEIGHT);
    }
}
