use hecto::terminal::{clamp_to_u16, Command, Position, Terminal};

#[test]
fn clamp_passes_small_values_through() {
    assert_eq!(clamp_to_u16(0), 0);
    assert_eq!(clamp_to_u16(42), 42);
    assert_eq!(clamp_to_u16(65535), 65535);
}

#[test]
fn clamp_saturates_large_values() {
    assert_eq!(clamp_to_u16(65536), u16::MAX);
    assert_eq!(clamp_to_u16(usize::MAX), u16::MAX);
}

#[test]
fn queued_commands_appear_only_in_the_flushed_batch() {
    let mut term = Terminal::new();
    term.clear_screen();
    term.move_cursor_to(Position { column: 3, row: 7 });
    term.print("abc");
    term.hide_cursor();
    term.show_cursor();
    term.clear_line();
    // nothing has been handed over yet; the queue still holds everything
    assert_eq!(term.queued.len(), 6);
    let batch = term.execute();
    assert_eq!(
        batch,
        vec![
            Command::ClearScreen,
            Command::MoveTo(3, 7),
            Command::Print("abc".to_string()),
            Command::HideCaret,
            Command::ShowCaret,
            Command::ClearLine,
        ]
    );
    // the flush emptied the queue: a second flush hands over nothing
    assert_eq!(term.queued.len(), 0);
    let empty = term.execute();
    assert_eq!(empty, vec![]);
}

#[test]
fn move_cursor_truncates_to_protocol_maximum() {
    let mut term = Terminal::new();
    term.move_cursor_to(Position {
        column: usize::MAX,
        row: 70000,
    });
    term.move_cursor_to(Position { column: 5, row: 65535 });
    let batch = term.execute();
    assert_eq!(
        batch,
        vec![Command::MoveTo(65535, 65535), Command::MoveTo(5, 65535)]
    );
}

#[test]
fn initialize_clears_homes_and_flushes() {
    let mut term = Terminal::new();
    let batch = term.initialize();
    assert_eq!(batch, vec![Command::ClearScreen, Command::MoveTo(0, 0)]);
    assert_eq!(term.queued.len(), 0);
}

#[test]
fn terminate_flushes_whatever_is_pending() {
    let mut term = Terminal::new();
    term.print("leftover");
    let batch = term.terminate();
    assert_eq!(batch, vec![Command::Print("leftover".to_string())]);
    assert_eq!(term.queued.len(), 0);
}

#[test]
fn position_default_is_origin() {
    let p = Position::default();
    assert_eq!(p, Position { column: 0, row: 0 });
}
