//! The terminal façade: logical screen operations queued as command values
//! and flushed atomically, one batch per frame.
//!
//! Nothing here touches a real terminal.  Each operation pushes a
//! [`Command`] onto an internal queue; [`Terminal::execute`] hands the whole
//! queue over as one batch and empties it.  The host binary translates a
//! batch into real control sequences and flushes them in one step, so
//! partial frames are never observable.

use vstd::prelude::*;

verus! {

/// Snapshot of the terminal dimensions at query time.  The dimensions are
/// re-queried before every use; nothing caches a `Size`.
#[derive(Clone, Copy, PartialEq, Eq, Structural, Debug)]
pub struct Size {
    pub width: usize,
    pub height: usize,
}

/// The logical caret location in viewport coordinates, 0-based with the
/// origin at the top left.
#[derive(Clone, Copy, PartialEq, Eq, Structural, Debug)]
pub struct Position {
    pub column: usize,
    pub row: usize,
}

impl Default for Position {
    /// The origin, `{column: 0, row: 0}`.
    fn default() -> (p: Self)
        ensures
            p == (Position { column: 0usize, row: 0usize }),
    {
        Position { column: 0, row: 0 }
    }
}

/// One queued low-level terminal command.
///
/// `MoveTo` carries the coordinates already narrowed to the addressable
/// range of the terminal protocol (see [`clamp_to_u16`]).
#[derive(Debug, PartialEq, Eq)]
pub enum Command {
    ClearScreen,
    ClearLine,
    MoveTo(u16, u16),
    HideCaret,
    ShowCaret,
    Print(String),
}

/// The mathematical value of a [`Command`]: printed text is a sequence of
/// characters.
pub enum CommandView {
    ClearScreen,
    ClearLine,
    MoveTo(u16, u16),
    HideCaret,
    ShowCaret,
    Print(Seq<char>),
}

impl View for Command {
    type V = CommandView;

    open spec fn view(&self) -> CommandView {
        match self {
            Command::ClearScreen => CommandView::ClearScreen,
            Command::ClearLine => CommandView::ClearLine,
            Command::MoveTo(column, row) => CommandView::MoveTo(*column, *row),
            Command::HideCaret => CommandView::HideCaret,
            Command::ShowCaret => CommandView::ShowCaret,
            Command::Print(text) => CommandView::Print(text@),
        }
    }
}

/// The value of a whole command queue or batch.
pub open spec fn queue_view(commands: Seq<Command>) -> Seq<CommandView> {
    commands.map_values(|c: Command| c@)
}

/// A coordinate narrowed to the addressable range of the terminal protocol:
/// values past `u16::MAX` saturate to `u16::MAX`.  An explicit, lossy
/// clamp-to-max conversion, not an error.
pub open spec fn spec_clamped_u16(v: usize) -> u16 {
    if v > u16::MAX as usize {
        u16::MAX
    } else {
        v as u16
    }
}

/// Exec counterpart of [`spec_clamped_u16`].
pub fn clamp_to_u16(v: usize) -> (r: u16)
    ensures
        r == spec_clamped_u16(v),
{
    if v > u16::MAX as usize {
        u16::MAX
    } else {
        v as u16
    }
}

/// The façade over the host terminal.  It owns only the queue of commands
/// not yet flushed; its view is that queue's value.
pub struct Terminal {
    pub queued: Vec<Command>,
}

impl View for Terminal {
    type V = Seq<CommandView>;

    open spec fn view(&self) -> Seq<CommandView> {
        queue_view(self.queued@)
    }
}

impl Terminal {
    /// A terminal façade with nothing queued.
    pub fn new() -> (t: Terminal)
        ensures
            t@ == Seq::<CommandView>::empty(),
    {
        let t = Terminal { queued: Vec::new() };
        proof {
            assert(t@ =~= Seq::<CommandView>::empty());
        }
        t
    }

    fn queue_command(&mut self, command: Command)
        ensures
            final(self)@ == old(self)@.push(command@),
    {
        self.queued.push(command);
        proof {
            assert(final(self)@ =~= old(self)@.push(command@));
        }
    }

    /// Queue a full-screen clear.
    pub fn clear_screen(&mut self)
        ensures
            final(self)@ == old(self)@.push(CommandView::ClearScreen),
    {
        self.queue_command(Command::ClearScreen);
    }

    /// Queue a clear of the current line.
    pub fn clear_line(&mut self)
        ensures
            final(self)@ == old(self)@.push(CommandView::ClearLine),
    {
        self.queue_command(Command::ClearLine);
    }

    /// Queue a caret move.  Coordinates past the addressable range of the
    /// terminal protocol are clamped to its maximum rather than erroring.
    pub fn move_cursor_to(&mut self, position: Position)
        ensures
            final(self)@ == old(self)@.push(
                CommandView::MoveTo(
                    spec_clamped_u16(position.column),
                    spec_clamped_u16(position.row),
                ),
            ),
    {
        let column = clamp_to_u16(position.column);
        let row = clamp_to_u16(position.row);
        self.queue_command(Command::MoveTo(column, row));
    }

    /// Queue a caret-visibility toggle: hide.  Callers hide before a
    /// multi-line redraw and show again afterward.
    pub fn hide_cursor(&mut self)
        ensures
            final(self)@ == old(self)@.push(CommandView::HideCaret),
    {
        self.queue_command(Command::HideCaret);
    }

    /// Queue a caret-visibility toggle: show.
    pub fn show_cursor(&mut self)
        ensures
            final(self)@ == old(self)@.push(CommandView::ShowCaret),
    {
        self.queue_command(Command::ShowCaret);
    }

    /// Queue literal text emission.
    pub fn print(&mut self, text: &str)
        ensures
            final(self)@ == old(self)@.push(CommandView::Print(text@)),
    {
        self.queue_command(Command::Print(text.to_owned()));
    }

    /// Flush: hand over every queued command, in the order queued, as one
    /// batch, leaving the queue empty.  Nothing queued is observable before
    /// this step, which is what lets a frame be composed invisibly and
    /// revealed atomically.
    pub fn execute(&mut self) -> (batch: Vec<Command>)
        ensures
            batch@ == old(self).queued@,
            queue_view(batch@) == old(self)@,
            final(self)@ == Seq::<CommandView>::empty(),
    {
        let mut batch: Vec<Command> = Vec::new();
        core::mem::swap(&mut batch, &mut self.queued);
        proof {
            assert(final(self)@ =~= Seq::<CommandView>::empty());
        }
        batch
    }

    /// Start a session: queue a full clear and a caret move to the origin,
    /// then flush.  (Enabling raw input mode is the host's part; it happens
    /// before the batch returned here is emitted.)
    pub fn initialize(&mut self) -> (batch: Vec<Command>)
        ensures
            queue_view(batch@) == old(self)@ + seq![
                CommandView::ClearScreen,
                CommandView::MoveTo(0u16, 0u16),
            ],
            final(self)@ == Seq::<CommandView>::empty(),
    {
        self.clear_screen();
        self.move_cursor_to(Position { column: 0, row: 0 });
        let batch = self.execute();
        proof {
            assert(queue_view(batch@) =~= old(self)@ + seq![
                CommandView::ClearScreen,
                CommandView::MoveTo(0u16, 0u16),
            ]);
        }
        batch
    }

    /// End a session: flush whatever is still pending.  (Disabling raw
    /// input mode is the host's part; it happens after the batch returned
    /// here is emitted.)
    pub fn terminate(&mut self) -> (batch: Vec<Command>)
        ensures
            queue_view(batch@) == old(self)@,
            final(self)@ == Seq::<CommandView>::empty(),
    {
        self.execute()
    }
}

} // verus!
