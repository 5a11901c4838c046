//! The vocabulary of terminal control operations the library emits.
//!
//! The library never touches a terminal: frame composition and the editor
//! state machine produce sequences of these operations, and the binary
//! around the library performs them in order.

use vstd::prelude::*;
use crate::editor::Coords;

verus! {

/// A movement or scroll direction on the terminal.
#[derive(Clone, Copy, PartialEq, Eq, Structural, Debug)]
pub enum Dir {
    Up,
    Down,
    Left,
    Right,
    Tab,
}

/// The colors the renderer asks for.
#[derive(Clone, Copy, PartialEq, Eq, Structural, Debug)]
pub enum Color {
    Cyan,
    Reset,
}

/// One terminal control operation. `Text(s)` prints `s` followed by a
/// carriage return and a line feed; `Enter` acquires raw mode and the
/// alternate screen, `Exit` releases both.
#[derive(PartialEq, Eq, Debug)]
pub enum TermOp {
    Clear,
    ClearLn,
    Enter,
    Exit,
    Flush,
    CursorEnabled(bool),
    SetCursor(Coords),
    Move(Dir, u16),
    SetBg(Color),
    SetFg(Color),
    Scroll(Dir, u16),
    Text(String),
}

} // verus!
