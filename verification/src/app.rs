//! The session state and its mode-gated key dispatch: the state machine
//! that routes each key event either to the highlight navigator or to the
//! text buffer, switches between the two interaction modes, and raises the
//! exit flag.

use vstd::prelude::*;

use crate::buffer::BufferModel;
use crate::buffer::TextBuffer;
use crate::highlight::Highlight;
use crate::highlight::spec_move_down;
use crate::highlight::spec_move_up;
use crate::key::Key;

verus! {

/// The current interaction context: `Normal` for navigation, `Editing` for
/// text entry. There is no third mode.
#[derive(Clone, Copy, Debug, PartialEq, Eq, Default)]
pub enum InputMode {
    #[default]
    Normal,
    Editing,
}

/// The mathematical content of an [`App`]: the mode, the buffer model, the
/// highlight rectangle and the exit flag.
pub ghost struct AppModel {
    pub mode: InputMode,
    pub buffer: BufferModel,
    pub hl: Highlight,
    pub exit: bool,
}

impl AppModel {
    /// The session invariant: the buffer's cursor invariant.
    pub open spec fn wf(self) -> bool {
        self.buffer.wf()
    }
}

/// Whether `handle_key` on this state and event would move the highlight
/// one row down: the one dispatch outcome whose effect is bounded by the
/// range of the row type.
pub open spec fn moves_highlight_down(m: AppModel, code: Key, press: bool) -> bool {
    !m.exit && match m.mode {
        InputMode::Normal => code == Key::Down || code == Key::Char('j'),
        InputMode::Editing => press && code == Key::Down,
    }
}

/// The transition function of the state machine: the state after one key
/// event. Every key event yields exactly one such step; unrecognized keys
/// leave the state unchanged, and once the exit flag is raised no event
/// changes anything.
pub open spec fn spec_handle_key(m: AppModel, code: Key, press: bool) -> AppModel {
    if m.exit {
        m
    } else {
        match m.mode {
            InputMode::Normal => spec_handle_key_normal(m, code),
            InputMode::Editing => if press {
                spec_handle_key_editing(m, code)
            } else {
                m
            },
        }
    }
}

/// The `Normal`-mode row of the dispatch table: the edit-entry key enters
/// `Editing`, the quit key raises the exit flag, and the list keys move the
/// highlight.
pub open spec fn spec_handle_key_normal(m: AppModel, code: Key) -> AppModel {
    match code {
        Key::Char(c) => if c == 'e' {
            AppModel { mode: InputMode::Editing, buffer: m.buffer, hl: m.hl, exit: m.exit }
        } else if c == 'q' {
            AppModel { mode: m.mode, buffer: m.buffer, hl: m.hl, exit: true }
        } else if c == 'k' {
            AppModel { mode: m.mode, buffer: m.buffer, hl: spec_move_up(m.hl), exit: m.exit }
        } else if c == 'j' {
            AppModel { mode: m.mode, buffer: m.buffer, hl: spec_move_down(m.hl), exit: m.exit }
        } else {
            m
        },
        Key::Up => AppModel { mode: m.mode, buffer: m.buffer, hl: spec_move_up(m.hl), exit: m.exit },
        Key::Down => AppModel { mode: m.mode, buffer: m.buffer, hl: spec_move_down(m.hl), exit: m.exit },
        _ => m,
    }
}

/// The `Editing`-mode row of the dispatch table: printable characters go
/// into the buffer, Backspace and the arrow keys edit or move the cursor,
/// the vertical keys move the highlight, and Escape returns to `Normal`.
pub open spec fn spec_handle_key_editing(m: AppModel, code: Key) -> AppModel {
    match code {
        Key::Char(c) => AppModel { mode: m.mode, buffer: m.buffer.insert(c), hl: m.hl, exit: m.exit },
        Key::Backspace => AppModel {
            mode: m.mode,
            buffer: m.buffer.delete_before_cursor(),
            hl: m.hl,
            exit: m.exit,
        },
        Key::Left => AppModel { mode: m.mode, buffer: m.buffer.move_left(), hl: m.hl, exit: m.exit },
        Key::Right => AppModel { mode: m.mode, buffer: m.buffer.move_right(), hl: m.hl, exit: m.exit },
        Key::Up => AppModel { mode: m.mode, buffer: m.buffer, hl: spec_move_up(m.hl), exit: m.exit },
        Key::Down => AppModel { mode: m.mode, buffer: m.buffer, hl: spec_move_down(m.hl), exit: m.exit },
        Key::Esc => AppModel { mode: InputMode::Normal, buffer: m.buffer, hl: m.hl, exit: m.exit },
        _ => m,
    }
}

/// One step of the state machine keeps the session invariant.
pub proof fn lemma_handle_key_preserves_wf(m: AppModel, code: Key, press: bool)
    requires
        m.wf(),
    ensures
        spec_handle_key(m, code, press).wf(),
{
}

/// The mode transitions: from `Normal`, the edit-entry key enters
/// `Editing`; from `Editing`, Escape returns to `Normal`; and no key event
/// whatsoever reaches a third mode.
pub proof fn lemma_mode_transitions(m: AppModel, code: Key, press: bool)
    ensures
        !m.exit && m.mode == InputMode::Normal && code == Key::Char('e')
            ==> spec_handle_key(m, code, press).mode == InputMode::Editing,
        !m.exit && m.mode == InputMode::Editing && press && code == Key::Esc
            ==> spec_handle_key(m, code, press).mode == InputMode::Normal,
        spec_handle_key(m, code, press).mode == InputMode::Normal
            || spec_handle_key(m, code, press).mode == InputMode::Editing,
{
}

/// Pressing the quit key in `Normal` mode raises the exit flag, and a state
/// whose exit flag is raised is terminal: no further event changes it.
pub proof fn lemma_quit_is_terminal(m: AppModel, code: Key, press: bool)
    ensures
        !m.exit && m.mode == InputMode::Normal && code == Key::Char('q')
            ==> spec_handle_key(m, code, press).exit,
        m.exit ==> spec_handle_key(m, code, press) == m,
{
}

/// The session: the mode, the editable line, the highlight over the
/// directory listing, and the exit flag.
pub struct App {
    input: TextBuffer,
    input_mode: InputMode,
    hl_block: Highlight,
    exit: bool,
}

impl View for App {
    type V = AppModel;

    closed spec fn view(&self) -> AppModel {
        AppModel { mode: self.input_mode, buffer: self.input@, hl: self.hl_block, exit: self.exit }
    }
}

impl App {
    /// The session invariant carried by every session the library hands
    /// out.
    pub open spec fn wf(&self) -> bool {
        self@.wf()
    }

    /// A fresh session: `Normal` mode, empty buffer, highlight at the top,
    /// exit flag down.
    pub fn new() -> (r: App)
        ensures
            r@.mode == InputMode::Normal,
            r@.buffer.chars == Seq::<char>::empty(),
            r@.buffer.cursor == 0,
            r@.hl == (Highlight { x: 0u16, y: 0u16, width: 0u16, height: 1u16 }),
            !r@.exit,
            r.wf(),
    {
        App {
            input: TextBuffer::new(),
            input_mode: InputMode::Normal,
            hl_block: Highlight::new(),
            exit: false,
        }
    }

    /// The current interaction mode.
    pub fn input_mode(&self) -> (r: InputMode)
        ensures
            r == self@.mode,
    {
        self.input_mode
    }

    /// Whether the session has ended.
    pub fn exit(&self) -> (r: bool)
        ensures
            r == self@.exit,
    {
        self.exit
    }

    /// The editable line, for rendering and inspection.
    pub fn input(&self) -> (r: &TextBuffer)
        ensures
            r@ == self@.buffer,
    {
        &self.input
    }

    /// The highlight rectangle, for rendering and inspection.
    pub fn hl_block(&self) -> (r: Highlight)
        ensures
            r == self@.hl,
    {
        self.hl_block
    }

    /// Refreshes the highlight width to the current terminal width; done
    /// once per render pass.
    pub fn refresh_width(&mut self, width: u16)
        ensures
            final(self)@ == (AppModel {
                mode: old(self)@.mode,
                buffer: old(self)@.buffer,
                hl: Highlight {
                    x: old(self)@.hl.x,
                    y: old(self)@.hl.y,
                    width: width,
                    height: old(self)@.hl.height,
                },
                exit: old(self)@.exit,
            }),
    {
        self.hl_block.set_width(width);
    }

    /// Dispatches one key event: exactly the step of the transition
    /// function, so each event produces at most one state mutation, and an
    /// ended session processes no further input.
    pub fn handle_key(&mut self, code: Key, press: bool)
        requires
            old(self).wf(),
            moves_highlight_down(old(self)@, code, press) ==> old(self)@.hl.y < u16::MAX,
        ensures
            final(self)@ == spec_handle_key(old(self)@, code, press),
            final(self).wf(),
    {
        if self.exit {
            return;
        }
        match self.input_mode {
            InputMode::Normal => {
                match code {
                    Key::Char(c) => {
                        if c == 'e' {
                            self.input_mode = InputMode::Editing;
                        } else if c == 'q' {
                            self.exit = true;
                        } else if c == 'k' {
                            self.hl_block.move_up();
                        } else if c == 'j' {
                            self.hl_block.move_down();
                        }
                    },
                    Key::Up => self.hl_block.move_up(),
                    Key::Down => self.hl_block.move_down(),
                    _ => {},
                }
            },
            InputMode::Editing => {
                if press {
                    match code {
                        Key::Char(c) => self.input.insert(c),
                        Key::Backspace => self.input.delete_before_cursor(),
                        Key::Left => self.input.move_cursor_left(),
                        Key::Right => self.input.move_cursor_right(),
                        Key::Up => self.hl_block.move_up(),
                        Key::Down => self.hl_block.move_down(),
                        Key::Esc => self.input_mode = InputMode::Normal,
                        _ => {},
                    }
                }
            },
        }
    }
}

} // verus!
