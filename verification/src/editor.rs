//! The editor session: a quit flag and a cursor position, driven by a
//! read-eval-redraw loop.
//!
//! Every function here is deterministic over plain values.  The host binary
//! queries the real terminal size, reads real keyboard events, translates
//! them into [`Event`] values, and emits the command batches produced here.

use vstd::prelude::*;
use vstd::string::{StrSliceExecFns, StringExecFns};

use crate::terminal::{
    queue_view, spec_clamped_u16, Command, CommandView, Position, Size, Terminal,
};

verus! {

/// The key codes the editor distinguishes.  Every other key the host may
/// report maps to `Other` and is ignored.
#[derive(Clone, Copy, PartialEq, Eq, Debug)]
pub enum KeyCode {
    Left,
    Right,
    Up,
    Down,
    Home,
    End,
    PageUp,
    PageDown,
    Char(char),
    Other,
}

/// One keyboard press: the key code, and whether Control was the only
/// modifier held.  That is all the editor reads of a key event.
#[derive(Clone, Copy, PartialEq, Eq, Debug)]
pub struct KeyEvent {
    pub code: KeyCode,
    pub control_only: bool,
}

/// One input event.  Only keyboard presses are interpreted; every other
/// event kind (resize, mouse, paste, focus) maps to `Other` and is ignored.
#[derive(Clone, Copy, PartialEq, Eq, Debug)]
pub enum Event {
    Key(KeyEvent),
    Other,
}

/// The editor session state: created with `should_quit` false and the
/// cursor at the origin, mutated only by event evaluation.
#[derive(Clone, Copy, PartialEq, Eq, Structural, Debug)]
pub struct Editor {
    pub should_quit: bool,
    pub position: Position,
}

impl Default for Editor {
    /// A fresh session: not quitting, cursor at the origin.
    fn default() -> (e: Self)
        ensures
            e == (Editor { should_quit: false, position: Position { column: 0usize, row: 0usize } }),
    {
        Editor { should_quit: false, position: Position { column: 0, row: 0 } }
    }
}

/// The cursor lies inside the viewport measured by `size`.
pub open spec fn in_bounds(p: Position, size: Size) -> bool {
    p.column < size.width && p.row < size.height
}

/// How one event transforms the session state, clamped against the
/// dimensions queried at the moment of the move.
///
/// Arrow keys move one step and stop at the edges; Home/End and
/// PageUp/PageDown jump to an edge; Control+q alone sets the quit flag;
/// everything else is a no-op.  At a degenerate zero dimension the
/// edge-jump keys clamp to the origin instead of wrapping.
pub open spec fn spec_evaluate(e: Editor, event: Event, size: Size) -> Editor {
    match event {
        Event::Key(key) => match key.code {
            KeyCode::Left => {
                if e.position.column > 0 {
                    Editor {
                        position: Position {
                            column: (e.position.column - 1) as usize,
                            row: e.position.row,
                        },
                        ..e
                    }
                } else {
                    e
                }
            },
            KeyCode::Right => {
                if e.position.column + 1 < size.width {
                    Editor {
                        position: Position {
                            column: (e.position.column + 1) as usize,
                            row: e.position.row,
                        },
                        ..e
                    }
                } else {
                    e
                }
            },
            KeyCode::Up => {
                if e.position.row > 0 {
                    Editor {
                        position: Position {
                            column: e.position.column,
                            row: (e.position.row - 1) as usize,
                        },
                        ..e
                    }
                } else {
                    e
                }
            },
            KeyCode::Down => {
                if e.position.row + 1 < size.height {
                    Editor {
                        position: Position {
                            column: e.position.column,
                            row: (e.position.row + 1) as usize,
                        },
                        ..e
                    }
                } else {
                    e
                }
            },
            KeyCode::Char(c) => {
                if c == 'q' && key.control_only {
                    Editor { should_quit: true, ..e }
                } else {
                    e
                }
            },
            KeyCode::PageUp => {
                Editor { position: Position { column: e.position.column, row: 0 }, ..e }
            },
            KeyCode::PageDown => {
                Editor {
                    position: Position {
                        column: e.position.column,
                        row: if size.height > 0 {
                            (size.height - 1) as usize
                        } else {
                            0
                        },
                    },
                    ..e
                }
            },
            KeyCode::Home => {
                Editor { position: Position { column: 0, row: e.position.row }, ..e }
            },
            KeyCode::End => {
                Editor {
                    position: Position {
                        column: if size.width > 0 {
                            (size.width - 1) as usize
                        } else {
                            0
                        },
                        row: e.position.row,
                    },
                    ..e
                }
            },
            KeyCode::Other => e,
        },
        Event::Other => e,
    }
}

/// The session state after a whole sequence of events, evaluated in order
/// against one fixed queried size.
pub open spec fn spec_evaluate_all(e: Editor, events: Seq<Event>, size: Size) -> Editor
    decreases events.len(),
{
    if events.len() == 0 {
        e
    } else {
        spec_evaluate_all(spec_evaluate(e, events[0], size), events.skip(1), size)
    }
}

/// The fixed product-name/version banner shown once near vertical center.
pub open spec fn spec_welcome_text() -> Seq<char> {
    "hecto editor -- version 0.1.0"@
}

/// `n` spaces.
pub open spec fn spec_spaces(n: nat) -> Seq<char> {
    Seq::new(n, |i: int| ' ')
}

/// The text of the welcome row: the placeholder glyph, a computed left
/// padding of spaces, and the banner message, truncated to the terminal
/// width if it would overflow.
///
/// The padding is `(width - length) / 2` (saturating, integer division;
/// off-center by at most one column is intended), less one column for the
/// leading glyph; at padding zero the spaces are omitted entirely rather
/// than underflowing.
pub open spec fn spec_banner_line(width: int, message: Seq<char>) -> Seq<char> {
    let padding: int = if width >= message.len() {
        (width - message.len()) / 2
    } else {
        0
    };
    let spaces: int = if padding >= 1 {
        padding - 1
    } else {
        0
    };
    let full = seq!['~'] + spec_spaces(spaces as nat) + message;
    if full.len() <= width {
        full
    } else {
        full.take(width)
    }
}

/// Build the welcome row text for the given terminal width and banner
/// message: `~`, the centering spaces, the message, truncated to `width`
/// characters if the terminal is too narrow.
pub fn centered_banner_line(width: usize, message: &str) -> (line: String)
    ensures
        line@ == spec_banner_line(width as int, message@),
{
    proof {
        reveal_strlit("~");
        reveal_strlit(" ");
    }
    let length = message.unicode_len();
    let padding: usize = if width > length {
        (width - length) / 2
    } else {
        0
    };
    let spaces: usize = if padding >= 1 {
        padding - 1
    } else {
        0
    };
    let mut line = "~".to_owned();
    let mut i: usize = 0;
    while i < spaces
        invariant
            i <= spaces,
            line@ =~= seq!['~'] + spec_spaces(i as nat),
        decreases spaces - i,
    {
        line.append(" ");
        proof {
            reveal_strlit(" ");
            assert(line@ =~= seq!['~'] + spec_spaces((i + 1) as nat));
        }
        i += 1;
    }
    line.append(message);
    proof {
        assert(line@ =~= seq!['~'] + spec_spaces(spaces as nat) + message@);
    }
    let total = line.as_str().unicode_len();
    if total > width {
        let truncated = line.as_str().substring_char(0, width);
        line = truncated.to_owned();
        proof {
            assert(line@ =~= spec_banner_line(width as int, message@));
        }
    }
    line
}

/// The text drawn on row `row`: the welcome banner on the one designated
/// row near vertical center (`height / 3`, integer division, off-center by
/// design), a single placeholder glyph on every other row.
pub open spec fn spec_row_text(size: Size, row: int) -> Seq<char> {
    if row == size.height as int / 3 {
        spec_banner_line(size.width as int, spec_welcome_text())
    } else {
        "~"@
    }
}

/// The commands queued for row `row`: clear the line, print the row text,
/// and, on every row but the last, advance with a carriage-return +
/// line-feed.
pub open spec fn spec_row_commands(size: Size, row: int) -> Seq<CommandView> {
    seq![CommandView::ClearLine, CommandView::Print(spec_row_text(size, row))] + if row + 1
        < size.height as int {
        seq![CommandView::Print("\r\n"@)]
    } else {
        Seq::<CommandView>::empty()
    }
}

/// The commands queued for the rows `0 .. n`, in order.
pub open spec fn spec_rows_upto(size: Size, n: int) -> Seq<CommandView>
    decreases n,
{
    if n <= 0 {
        Seq::<CommandView>::empty()
    } else {
        spec_rows_upto(size, n - 1) + spec_row_commands(size, n - 1)
    }
}

/// The commands queued by a full row redraw.
pub open spec fn spec_rows(size: Size) -> Seq<CommandView> {
    spec_rows_upto(size, size.height as int)
}

/// The one complete frame that a redraw of state `e` queues and flushes:
/// hide the caret, home it, then either the goodbye message on a cleared
/// screen (when quitting) or all rows followed by a caret move to the
/// logical position, and finally show the caret again.
pub open spec fn spec_frame(e: Editor, size: Size) -> Seq<CommandView> {
    seq![CommandView::HideCaret, CommandView::MoveTo(0u16, 0u16)] + (if e.should_quit {
        seq![CommandView::ClearScreen, CommandView::Print("Goodbye.\r\n"@)]
    } else {
        spec_rows(size) + seq![
            CommandView::MoveTo(
                spec_clamped_u16(e.position.column),
                spec_clamped_u16(e.position.row),
            ),
        ]
    }) + seq![CommandView::ShowCaret]
}

/// The final state and the frames flushed by the read-eval-redraw loop
/// run on a finite script of events at one fixed queried size.
///
/// Each iteration draws a frame first, then exits if the quit flag is set,
/// then consumes the next event; a session whose script runs out ends
/// after the frame it had just drawn (where the interactive loop would
/// block waiting for input).  The farewell frame is therefore always the
/// last thing rendered.
pub open spec fn spec_repl(e: Editor, events: Seq<Event>, size: Size) -> (Editor, Seq<
    Seq<CommandView>,
>)
    decreases events.len(),
{
    let frame = spec_frame(e, size);
    if e.should_quit || events.len() == 0 {
        (e, seq![frame])
    } else {
        let stepped = spec_evaluate(e, events[0], size);
        let rest = spec_repl(stepped, events.skip(1), size);
        (rest.0, seq![frame] + rest.1)
    }
}

/// The values of a sequence of flushed batches.
pub open spec fn frames_view(frames: Seq<Vec<Command>>) -> Seq<Seq<CommandView>> {
    frames.map_values(|f: Vec<Command>| queue_view(f@))
}

impl Editor {
    /// Queue the placeholder glyph for an empty row.
    pub fn draw_empty_row(term: &mut Terminal)
        ensures
            final(term)@ == old(term)@.push(CommandView::Print("~"@)),
    {
        term.print("~");
    }

    /// Queue the centered one-time welcome banner for the given width.
    pub fn draw_welcome_message(term: &mut Terminal, width: usize)
        ensures
            final(term)@ == old(term)@.push(
                CommandView::Print(spec_banner_line(width as int, spec_welcome_text())),
            ),
    {
        let message = centered_banner_line(width, "hecto editor -- version 0.1.0");
        term.print(message.as_str());
    }

    /// Queue a full redraw of every visible row: clear each line, print its
    /// text, and advance between rows (but not after the last).
    pub fn draw_rows(term: &mut Terminal, size: Size)
        ensures
            final(term)@ == old(term)@ + spec_rows(size),
    {
        let height = size.height;
        let mut current_row: usize = 0;
        while current_row < height
            invariant
                current_row <= height,
                height == size.height,
                term@ =~= old(term)@ + spec_rows_upto(size, current_row as int),
            decreases height - current_row,
        {
            term.clear_line();
            // the welcome banner sits a third of the way down; the rest are
            // placeholder rows
            if current_row == height / 3 {
                Self::draw_welcome_message(term, size.width);
            } else {
                Self::draw_empty_row(term);
            }
            if current_row + 1 < height {
                term.print("\r\n");
            }
            proof {
                assert(term@ =~= old(term)@ + spec_rows_upto(size, current_row + 1));
            }
            current_row += 1;
        }
    }

    /// Compose and flush one frame for the current state: the goodbye frame
    /// when quitting, the full row redraw otherwise.  The returned batch is
    /// everything this call queued (after whatever was already pending),
    /// and nothing stays queued behind.
    pub fn refresh_screen(&self, term: &mut Terminal, size: Size) -> (frame: Vec<Command>)
        ensures
            queue_view(frame@) == old(term)@ + spec_frame(*self, size),
            final(term)@ == Seq::<CommandView>::empty(),
    {
        term.hide_cursor();
        term.move_cursor_to(Position { column: 0, row: 0 });
        if self.should_quit {
            term.clear_screen();
            term.print("Goodbye.\r\n");
        } else {
            Self::draw_rows(term, size);
            term.move_cursor_to(self.position);
        }
        term.show_cursor();
        let frame = term.execute();
        proof {
            assert(queue_view(frame@) =~= old(term)@ + spec_frame(*self, size));
        }
        frame
    }

    /// Evaluate one input event against the dimensions `size`, queried
    /// fresh at the start of evaluation, and update the session state.
    pub fn evaluate_event(&mut self, event: &Event, size: Size)
        ensures
            *final(self) == spec_evaluate(*old(self), *event, size),
    {
        let Size { height, width } = size;
        if let Event::Key(key) = event {
            match key.code {
                KeyCode::Left => {
                    // at the left edge the position does not change
                    if self.position.column > 0 {
                        self.position = Position {
                            column: self.position.column - 1,
                            row: self.position.row,
                        };
                    }
                },
                KeyCode::Right => {
                    // at the right edge the position does not change
                    if width > 0 && self.position.column < width - 1 {
                        self.position = Position {
                            column: self.position.column + 1,
                            row: self.position.row,
                        };
                    }
                },
                KeyCode::Up => {
                    // at the top of the screen the position does not change
                    if self.position.row > 0 {
                        self.position = Position {
                            column: self.position.column,
                            row: self.position.row - 1,
                        };
                    }
                },
                KeyCode::Down => {
                    // at the bottom of the screen the position does not change
                    if height > 0 && self.position.row < height - 1 {
                        self.position = Position {
                            column: self.position.column,
                            row: self.position.row + 1,
                        };
                    }
                },
                KeyCode::Char(c) => {
                    if c == 'q' && key.control_only {
                        self.should_quit = true;
                    }
                },
                KeyCode::PageUp => {
                    self.position = Position { column: self.position.column, row: 0 };
                },
                KeyCode::PageDown => {
                    self.position = Position {
                        column: self.position.column,
                        row: height.saturating_sub(1),
                    };
                },
                KeyCode::Home => {
                    self.position = Position { column: 0, row: self.position.row };
                },
                KeyCode::End => {
                    self.position = Position {
                        column: width.saturating_sub(1),
                        row: self.position.row,
                    };
                },
                KeyCode::Other => {},
            }
        }
    }

    /// The loop body of the session: redraw, exit if quitting, consume the
    /// next scripted event, evaluate it; when the script runs out the
    /// session ends after the frame just drawn.  Returns every flushed
    /// frame, in order.
    fn repl(&mut self, term: &mut Terminal, events: &Vec<Event>, size: Size) -> (frames: Vec<
        Vec<Command>,
    >)
        requires
            old(term)@ == Seq::<CommandView>::empty(),
        ensures
            *final(self) == spec_repl(*old(self), events@, size).0,
            frames_view(frames@) == spec_repl(*old(self), events@, size).1,
            final(term)@ == Seq::<CommandView>::empty(),
    {
        let mut frames: Vec<Vec<Command>> = Vec::new();
        let mut i: usize = 0;
        proof {
            assert(events@.skip(0) =~= events@);
            assert(frames_view(frames@) =~= Seq::<Seq<CommandView>>::empty());
            assert(frames_view(frames@) + spec_repl(*self, events@, size).1 =~= spec_repl(
                *old(self),
                events@,
                size,
            ).1);
        }
        while !self.should_quit && i < events.len()
            invariant
                i <= events@.len(),
                term@ == Seq::<CommandView>::empty(),
                spec_repl(*self, events@.skip(i as int), size).0 == spec_repl(
                    *old(self),
                    events@,
                    size,
                ).0,
                frames_view(frames@) + spec_repl(*self, events@.skip(i as int), size).1
                    =~= spec_repl(*old(self), events@, size).1,
            decreases events@.len() - i,
        {
            let ghost state_before = *self;
            let ghost remaining = events@.skip(i as int);
            let frame = self.refresh_screen(term, size);
            frames.push(frame);
            self.evaluate_event(&events[i], size);
            proof {
                assert(remaining[0] == events@[i as int]);
                assert(remaining.skip(1) =~= events@.skip(i + 1));
                assert(frames_view(frames@) =~= frames_view(frames@.drop_last()).push(
                    spec_frame(state_before, size),
                ));
                assert(spec_repl(state_before, remaining, size).1 == seq![
                    spec_frame(state_before, size),
                ] + spec_repl(*self, remaining.skip(1), size).1);
                assert(frames_view(frames@) + spec_repl(*self, events@.skip(i + 1), size).1
                    =~= spec_repl(*old(self), events@, size).1);
            }
            i += 1;
        }
        let ghost state_before = *self;
        let frame = self.refresh_screen(term, size);
        frames.push(frame);
        proof {
            let remaining = events@.skip(i as int);
            assert(remaining.len() == 0 || state_before.should_quit);
            assert(spec_repl(state_before, remaining, size).1 == seq![
                spec_frame(state_before, size),
            ]);
            assert(frames_view(frames@) =~= frames_view(frames@.drop_last()).push(
                spec_frame(state_before, size),
            ));
            assert(frames_view(frames@) =~= spec_repl(*old(self), events@, size).1);
        }
        frames
    }

    /// Run a whole session on a finite script of events: start the
    /// terminal session, run the read-eval-redraw loop, and end the
    /// session, in that order on every path.
    ///
    /// The first returned batch is the initial screen clear with the caret
    /// homed; then comes one batch per redraw, exactly as `spec_repl`
    /// describes; the last batch is the final flush of the session end,
    /// which finds nothing pending.
    pub fn run(&mut self, term: &mut Terminal, events: &Vec<Event>, size: Size) -> (frames: Vec<
        Vec<Command>,
    >)
        ensures
            *final(self) == spec_repl(*old(self), events@, size).0,
            frames_view(frames@) == seq![
                old(term)@ + seq![CommandView::ClearScreen, CommandView::MoveTo(0u16, 0u16)],
            ] + spec_repl(*old(self), events@, size).1 + seq![Seq::<CommandView>::empty()],
            final(term)@ == Seq::<CommandView>::empty(),
    {
        let mut frames: Vec<Vec<Command>> = Vec::new();
        let first = term.initialize();
        frames.push(first);
        let mut body = self.repl(term, events, size);
        frames.append(&mut body);
        let last = term.terminate();
        frames.push(last);
        proof {
            assert(frames_view(frames@) =~= seq![
                old(term)@ + seq![CommandView::ClearScreen, CommandView::MoveTo(0u16, 0u16)],
            ] + spec_repl(*old(self), events@, size).1 + seq![Seq::<CommandView>::empty()]);
        }
        frames
    }
}

/// Clamping is idempotent at the edges: a Left press at the left edge, a
/// Right press at (or beyond) the right edge, an Up press at the top and a
/// Down press at (or beyond) the bottom leave the whole state unchanged, so
/// repeating any of them changes nothing either.
pub proof fn lemma_clamping_idempotent(e: Editor, key: KeyEvent, size: Size)
    ensures
        key.code == KeyCode::Left && e.position.column == 0 ==> spec_evaluate(
            e,
            Event::Key(key),
            size,
        ) == e,
        key.code == KeyCode::Right && e.position.column + 1 >= size.width ==> spec_evaluate(
            e,
            Event::Key(key),
            size,
        ) == e,
        key.code == KeyCode::Up && e.position.row == 0 ==> spec_evaluate(
            e,
            Event::Key(key),
            size,
        ) == e,
        key.code == KeyCode::Down && e.position.row + 1 >= size.height ==> spec_evaluate(
            e,
            Event::Key(key),
            size,
        ) == e,
{
}

/// Events that individually leave a state unchanged leave it unchanged in
/// any repetition and mixture: the general form of "repeatedly sending a
/// clamped key never changes the position".
pub proof fn lemma_noop_events_all(e: Editor, events: Seq<Event>, size: Size)
    requires
        forall|k: int| 0 <= k < events.len() ==> spec_evaluate(e, events[k], size) == e,
    ensures
        spec_evaluate_all(e, events, size) == e,
    decreases events.len(),
{
    if events.len() > 0 {
        lemma_noop_events_all(e, events.skip(1), size);
    }
}

/// One evaluation step keeps the cursor inside the viewport: from any
/// in-bounds state, any event leads to an in-bounds state (for the size
/// queried during that step).
pub proof fn lemma_step_in_bounds(e: Editor, event: Event, size: Size)
    requires
        in_bounds(e.position, size),
    ensures
        in_bounds(spec_evaluate(e, event, size).position, size),
{
}

/// A whole sequence of events keeps the cursor inside the viewport when
/// evaluated against one fixed queried size; instantiated on a prefix it
/// gives the bound after every intermediate step.
pub proof fn lemma_all_steps_in_bounds(e: Editor, events: Seq<Event>, size: Size)
    requires
        in_bounds(e.position, size),
    ensures
        in_bounds(spec_evaluate_all(e, events, size).position, size),
    decreases events.len(),
{
    if events.len() > 0 {
        lemma_step_in_bounds(e, events[0], size);
        lemma_all_steps_in_bounds(spec_evaluate(e, events[0], size), events.skip(1), size);
    }
}

/// The absolute keys are deterministic, whatever the prior position: Home
/// zeroes the column, End sets it to the last column, PageUp zeroes the
/// row, PageDown sets it to the last row; the other coordinate and the
/// quit flag are untouched.
pub proof fn lemma_absolute_keys(e: Editor, key: KeyEvent, size: Size)
    ensures
        key.code == KeyCode::Home ==> spec_evaluate(e, Event::Key(key), size) == (Editor {
            position: Position { column: 0usize, row: e.position.row },
            ..e
        }),
        key.code == KeyCode::End && size.width > 0 ==> spec_evaluate(e, Event::Key(key), size)
            == (Editor {
            position: Position { column: (size.width - 1) as usize, row: e.position.row },
            ..e
        }),
        key.code == KeyCode::PageUp ==> spec_evaluate(e, Event::Key(key), size) == (Editor {
            position: Position { column: e.position.column, row: 0usize },
            ..e
        }),
        key.code == KeyCode::PageDown && size.height > 0 ==> spec_evaluate(e, Event::Key(key), size)
            == (Editor {
            position: Position { column: e.position.column, row: (size.height - 1) as usize },
            ..e
        }),
{
}

/// Quitting is terminal: no event ever clears the quit flag, neither one
/// step at a time nor over any whole sequence.
pub proof fn lemma_quit_persists(e: Editor, event: Event, events: Seq<Event>, size: Size)
    requires
        e.should_quit,
    ensures
        spec_evaluate(e, event, size).should_quit,
        spec_evaluate_all(e, events, size).should_quit,
    decreases events.len(),
{
    if events.len() > 0 {
        lemma_quit_persists(spec_evaluate(e, events[0], size), events[0], events.skip(1), size);
    }
}

/// Once the quit flag is set, the next redraw is the goodbye frame alone —
/// no row drawing — and the loop flushes exactly that one frame more,
/// whatever events the script still holds.
pub proof fn lemma_goodbye_frame(e: Editor, events: Seq<Event>, size: Size)
    requires
        e.should_quit,
    ensures
        spec_frame(e, size) =~= seq![
            CommandView::HideCaret,
            CommandView::MoveTo(0u16, 0u16),
            CommandView::ClearScreen,
            CommandView::Print("Goodbye.\r\n"@),
            CommandView::ShowCaret,
        ],
        spec_repl(e, events, size).1 =~= seq![spec_frame(e, size)],
        spec_repl(e, events, size).0 == e,
{
}

/// Welcome banner placement: with room to spare the row is the placeholder
/// glyph, a leading pad of `(width - length) / 2 - 1` spaces, and the
/// message; on a terminal narrower than the message the printed text
/// truncates to exactly `width` characters.
pub proof fn lemma_banner_placement(width: int, message: Seq<char>)
    ensures
        width >= message.len() + 2 ==> spec_banner_line(width, message) =~= seq!['~']
            + spec_spaces(((width - message.len()) / 2 - 1) as nat) + message,
        0 <= width <= message.len() ==> spec_banner_line(width, message) =~= (seq!['~']
            + message).take(width),
        0 <= width <= message.len() ==> spec_banner_line(width, message).len() == width,
{
    if width >= message.len() + 2 {
        let padding = (width - message.len()) / 2;
        assert(padding >= 1);
        assert(1 + (padding - 1) + message.len() <= width) by (nonlinear_arith)
            requires
                padding == (width - message.len()) / 2,
                width >= message.len() + 2,
        ;
    }
}

} // verus!
