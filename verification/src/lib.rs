//! Core of a terminal-resident line editor: an in-memory text model with a
//! cursor and viewport state machine, and the mode-dispatch logic that routes
//! keyboard input into buffer mutations and minimal redraw instructions.
//!
//! Rendering and terminal I/O live outside this crate; the library works on
//! plain values (lines as vectors of characters, cursor indices, key events
//! already decoded into [`events::KeyInput`]) and every function is verified
//! against its contract.

use vstd::prelude::*;

pub mod buffer;
pub mod console;
pub mod dispatch;
pub mod editmode;
pub mod events;
pub mod format;
pub mod functions;
pub mod menu;
pub mod skeleton;
pub mod state;
pub mod writemode;

verus! {

/// The active input-interpretation state: exactly one mode is active at a
/// time, and every key event is dispatched to exactly one mode's handler.
#[derive(Clone, Copy, Debug, PartialEq, Eq, Structural)]
pub enum Mode {
    WriteMode,
    EditMode,
    MenuMode,
    ConsoleMode,
}

/// Describes what an input cycle changed, so the renderer redraws no more
/// than necessary. Produced fresh on every cycle, never accumulated.
#[derive(Clone, Copy, Debug, PartialEq, Eq, Structural)]
pub enum ChangedLineType {
    /// Nothing visible changed.
    Unchanged,
    /// Redraw everything: skeleton, editor area and menu header.
    All,
    /// Redraw only the window skeleton (status bar and frame).
    Skeleton,
    /// Redraw a single editor row.
    Line(usize),
    /// Redraw an inclusive range of editor rows.
    Lines(usize, usize),
    /// Redraw every editor row, but not the skeleton.
    AllLines,
}

} // verus!
