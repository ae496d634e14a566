//! A small terminal directory navigator with two interaction modes.
//!
//! The verified core is the interaction state machine: a text buffer with a
//! Unicode-correct cursor, a highlight row over a directory listing, and the
//! mode-gated key dispatch that ties them together. A separate scoreboard
//! table (a name-to-score mapping) is kept here as well. Terminal rendering
//! and filesystem enumeration live outside the library and only hand plain
//! values in and out.

pub mod app;
pub mod buffer;
pub mod highlight;
pub mod key;
pub mod listing;
pub mod table;
