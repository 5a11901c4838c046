//! A small terminal text-viewer core: grapheme-aware rows, file buffers,
//! a scrolling viewport, a key-event decoder and the editor state machine.
//!
//! Everything here is pure logic over plain values; the binary around this
//! library owns the actual terminal and performs the emitted operations.

pub mod action;
pub mod editor;
pub mod file;
pub mod row;
pub mod term;
