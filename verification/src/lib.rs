//! Rendering and input-handling core of a terminal screen editor.
//!
//! The crate owns the relationship between a logical cursor position, the
//! terminal dimensions, and a per-frame redraw of visible rows.  All screen
//! output is modelled as queued [`terminal::Command`] values that become
//! visible only when a frame is flushed, so a full redraw can be composed
//! invisibly and revealed atomically.  The binary around the crate translates
//! the queued commands into real terminal control sequences and feeds real
//! keyboard events back in.

pub mod editor;
pub mod terminal;
