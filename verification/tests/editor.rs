use hecto::editor::{centered_banner_line, Editor, Event, KeyCode, KeyEvent};
use hecto::terminal::{Command, Position, Size, Terminal};

fn key(code: KeyCode) -> Event {
    Event::Key(KeyEvent {
        code,
        control_only: false,
    })
}

fn ctrl_q() -> Event {
    Event::Key(KeyEvent {
        code: KeyCode::Char('q'),
        control_only: true,
    })
}

const WELCOME: &str = "hecto editor -- version 0.1.0";

/// The frame a non-quitting redraw flushes for a 20x10 terminal with the
/// cursor at `position`.
fn expected_frame_20x10(position: Position) -> Vec<Command> {
    let mut frame = vec![Command::HideCaret, Command::MoveTo(0, 0)];
    for row in 0..10u16 {
        frame.push(Command::ClearLine);
        if row == 3 {
            // 20 columns cannot hold the 30-character banner row: it is
            // truncated to exactly the terminal width
            frame.push(Command::Print("~hecto editor -- ver".to_string()));
        } else {
            frame.push(Command::Print("~".to_string()));
        }
        if row < 9 {
            frame.push(Command::Print("\r\n".to_string()));
        }
    }
    frame.push(Command::MoveTo(position.column as u16, position.row as u16));
    frame.push(Command::ShowCaret);
    frame
}

fn goodbye_frame() -> Vec<Command> {
    vec![
        Command::HideCaret,
        Command::MoveTo(0, 0),
        Command::ClearScreen,
        Command::Print("Goodbye.\r\n".to_string()),
        Command::ShowCaret,
    ]
}

#[test]
fn left_at_left_edge_is_a_no_op() {
    let size = Size {
        width: 20,
        height: 10,
    };
    let mut editor = Editor::default();
    for _ in 0..5 {
        editor.evaluate_event(&key(KeyCode::Left), size);
        assert_eq!(editor.position, Position { column: 0, row: 0 });
        assert!(!editor.should_quit);
    }
}

#[test]
fn up_at_top_edge_is_a_no_op() {
    let size = Size {
        width: 20,
        height: 10,
    };
    let mut editor = Editor::default();
    for _ in 0..5 {
        editor.evaluate_event(&key(KeyCode::Up), size);
        assert_eq!(editor.position, Position { column: 0, row: 0 });
    }
}

#[test]
fn right_at_right_edge_is_a_no_op() {
    let size = Size {
        width: 20,
        height: 10,
    };
    let mut editor = Editor::default();
    editor.evaluate_event(&key(KeyCode::End), size);
    assert_eq!(editor.position, Position { column: 19, row: 0 });
    for _ in 0..5 {
        editor.evaluate_event(&key(KeyCode::Right), size);
        assert_eq!(editor.position, Position { column: 19, row: 0 });
    }
}

#[test]
fn down_at_bottom_edge_is_a_no_op() {
    let size = Size {
        width: 20,
        height: 10,
    };
    let mut editor = Editor::default();
    editor.evaluate_event(&key(KeyCode::PageDown), size);
    assert_eq!(editor.position, Position { column: 0, row: 9 });
    for _ in 0..5 {
        editor.evaluate_event(&key(KeyCode::Down), size);
        assert_eq!(editor.position, Position { column: 0, row: 9 });
    }
}

#[test]
fn every_step_of_a_mixed_script_stays_in_bounds() {
    let size = Size {
        width: 5,
        height: 4,
    };
    let script = vec![
        key(KeyCode::Right),
        key(KeyCode::Right),
        key(KeyCode::End),
        key(KeyCode::Right),
        key(KeyCode::Down),
        key(KeyCode::PageDown),
        key(KeyCode::Down),
        key(KeyCode::Left),
        key(KeyCode::Up),
        key(KeyCode::Home),
        key(KeyCode::Left),
        key(KeyCode::PageUp),
        key(KeyCode::Up),
        key(KeyCode::Char('x')),
        Event::Other,
    ];
    let mut editor = Editor::default();
    for event in &script {
        editor.evaluate_event(event, size);
        assert!(editor.position.column < size.width);
        assert!(editor.position.row < size.height);
    }
}

#[test]
fn absolute_keys_are_deterministic() {
    let size = Size {
        width: 20,
        height: 10,
    };
    let mut editor = Editor::default();
    // park the cursor somewhere in the middle first
    for _ in 0..7 {
        editor.evaluate_event(&key(KeyCode::Right), size);
    }
    for _ in 0..5 {
        editor.evaluate_event(&key(KeyCode::Down), size);
    }
    assert_eq!(editor.position, Position { column: 7, row: 5 });

    let mut e = editor;
    e.evaluate_event(&key(KeyCode::Home), size);
    assert_eq!(e.position, Position { column: 0, row: 5 });

    let mut e = editor;
    e.evaluate_event(&key(KeyCode::End), size);
    assert_eq!(e.position, Position { column: 19, row: 5 });

    let mut e = editor;
    e.evaluate_event(&key(KeyCode::PageUp), size);
    assert_eq!(e.position, Position { column: 7, row: 0 });

    let mut e = editor;
    e.evaluate_event(&key(KeyCode::PageDown), size);
    assert_eq!(e.position, Position { column: 7, row: 9 });
}

#[test]
fn plain_q_and_other_events_do_not_quit() {
    let size = Size {
        width: 20,
        height: 10,
    };
    let mut editor = Editor::default();
    editor.evaluate_event(&key(KeyCode::Char('q')), size);
    editor.evaluate_event(&key(KeyCode::Other), size);
    editor.evaluate_event(&Event::Other, size);
    assert!(!editor.should_quit);
}

#[test]
fn quit_is_terminal() {
    let size = Size {
        width: 20,
        height: 10,
    };
    let mut editor = Editor::default();
    editor.evaluate_event(&ctrl_q(), size);
    assert!(editor.should_quit);
    // no subsequent event clears the flag
    for event in [
        key(KeyCode::Left),
        key(KeyCode::Char('q')),
        ctrl_q(),
        Event::Other,
        key(KeyCode::Home),
    ] {
        editor.evaluate_event(&event, size);
        assert!(editor.should_quit);
    }
    // the next redraw is the goodbye frame alone: no row drawing
    let mut term = Terminal::new();
    let frame = editor.refresh_screen(&mut term, size);
    assert_eq!(frame, goodbye_frame());
    assert!(!frame.contains(&Command::ClearLine));
}

#[test]
fn refresh_flushes_one_whole_frame_and_leaves_nothing_queued() {
    let size = Size {
        width: 20,
        height: 10,
    };
    let editor = Editor::default();
    let mut term = Terminal::new();
    let frame = editor.refresh_screen(&mut term, size);
    assert_eq!(frame, expected_frame_20x10(Position { column: 0, row: 0 }));
    // frame atomicity: the flush handed everything over in one batch
    assert_eq!(term.queued.len(), 0);
    assert_eq!(term.execute(), vec![]);
}

#[test]
fn banner_of_length_30_on_width_80_gets_24_leading_spaces() {
    let message = "abcdefghijklmnopqrstuvwxyz0123";
    assert_eq!(message.len(), 30);
    let line = centered_banner_line(80, message);
    let expected = format!("~{}{}", " ".repeat(24), message);
    assert_eq!(line, expected);
    assert_eq!(line.len(), 55);
}

#[test]
fn banner_truncates_to_the_terminal_width() {
    let message = "abcdefghijklmnopqrstuvwxyz0123";
    let line = centered_banner_line(10, message);
    assert_eq!(line, "~abcdefghi");
    assert_eq!(line.len(), 10);
}

#[test]
fn welcome_banner_is_centered_on_a_wide_terminal() {
    let line = centered_banner_line(80, WELCOME);
    assert_eq!(line, format!("~{}{}", " ".repeat(24), WELCOME));
}

#[test]
fn scenario_right_right_down_end() {
    let size = Size {
        width: 20,
        height: 10,
    };
    let script = vec![
        key(KeyCode::Right),
        key(KeyCode::Right),
        key(KeyCode::Down),
        key(KeyCode::End),
    ];
    let mut editor = Editor::default();
    let mut term = Terminal::new();
    let frames = editor.run(&mut term, &script, size);
    assert_eq!(editor.position, Position { column: 19, row: 1 });
    assert!(!editor.should_quit);
    // initial clear, one redraw per loop pass, one final redraw where the
    // script ran out, and the empty closing flush
    assert_eq!(frames.len(), 7);
    assert_eq!(
        frames[6],
        Vec::<Command>::new()
    );
}

#[test]
fn scenario_quit_as_the_very_first_event() {
    let size = Size {
        width: 20,
        height: 10,
    };
    let script = vec![ctrl_q()];
    let mut editor = Editor::default();
    let mut term = Terminal::new();
    let frames = editor.run(&mut term, &script, size);
    assert!(editor.should_quit);
    // initial clear; exactly one redraw with all placeholder rows; then the
    // goodbye frame, screen cleared first; then the empty closing flush
    assert_eq!(frames.len(), 4);
    assert_eq!(frames[0], vec![Command::ClearScreen, Command::MoveTo(0, 0)]);
    assert_eq!(frames[1], expected_frame_20x10(Position { column: 0, row: 0 }));
    assert_eq!(frames[2], goodbye_frame());
    assert_eq!(frames[3], Vec::<Command>::new());
}

#[test]
fn session_with_no_events_draws_once_and_ends() {
    let size = Size {
        width: 20,
        height: 10,
    };
    let mut editor = Editor::default();
    let mut term = Terminal::new();
    let frames = editor.run(&mut term, &vec![], size);
    assert_eq!(frames.len(), 3);
    assert_eq!(frames[1], expected_frame_20x10(Position { column: 0, row: 0 }));
    assert_eq!(editor.position, Position { column: 0, row: 0 });
    assert!(!editor.should_quit);
}
