//! The key events the state machine dispatches on: the key codes the
//! navigator reacts to, as plain values, so the dispatch can be stated and
//! checked without a terminal. The process edge translates whatever event
//! source it uses into these.

use vstd::prelude::*;

verus! {

/// A single key code. Codes the navigator never reacts to arrive as
/// `Other`, which every mode ignores.
#[derive(Clone, Copy, Debug, PartialEq, Eq)]
pub enum Key {
    /// A printable character, carried as a Unicode scalar value.
    Char(char),
    Backspace,
    Left,
    Right,
    Up,
    Down,
    Esc,
    Other,
}

} // verus!
