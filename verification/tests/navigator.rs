use dirnav::app::App;
use dirnav::app::InputMode;
use dirnav::buffer::TextBuffer;
use dirnav::highlight::Highlight;
use dirnav::key::Key;

fn cursor_in_bounds(b: &TextBuffer) -> bool {
    b.cursor() <= b.char_count()
}

#[test]
fn cursor_invariant_under_edits() {
    let mut b = TextBuffer::new();
    assert!(cursor_in_bounds(&b));
    b.insert('a');
    assert!(cursor_in_bounds(&b));
    b.insert('é');
    assert!(cursor_in_bounds(&b));
    b.move_cursor_left();
    assert!(cursor_in_bounds(&b));
    b.insert('b');
    assert!(cursor_in_bounds(&b));
    b.delete_before_cursor();
    assert!(cursor_in_bounds(&b));
    b.delete_before_cursor();
    assert!(cursor_in_bounds(&b));
    b.delete_before_cursor();
    assert!(cursor_in_bounds(&b));
    b.delete_before_cursor();
    assert!(cursor_in_bounds(&b));
    b.move_cursor_right();
    assert!(cursor_in_bounds(&b));
}

#[test]
fn multibyte_round_trip() {
    let mut b = TextBuffer::new();
    b.insert('a');
    b.insert('b');
    b.move_cursor_left();
    let chars_before = b.chars().clone();
    let cursor_before = b.cursor();
    b.insert('é');
    b.delete_before_cursor();
    assert_eq!(*b.chars(), chars_before);
    assert_eq!(b.cursor(), cursor_before);
}

#[test]
fn move_left_at_zero_is_noop() {
    let mut b = TextBuffer::new();
    b.insert('x');
    b.move_cursor_left();
    assert_eq!(b.cursor(), 0);
    b.move_cursor_left();
    assert_eq!(b.cursor(), 0);
    assert_eq!(*b.chars(), vec!['x']);
}

#[test]
fn move_right_at_end_is_noop() {
    let mut b = TextBuffer::new();
    b.insert('x');
    assert_eq!(b.cursor(), 1);
    b.move_cursor_right();
    assert_eq!(b.cursor(), 1);
    assert_eq!(*b.chars(), vec!['x']);
}

#[test]
fn clamp_cursor_caps_at_length() {
    let mut b = TextBuffer::new();
    b.insert('x');
    b.insert('y');
    assert_eq!(b.clamp_cursor(0), 0);
    assert_eq!(b.clamp_cursor(1), 1);
    assert_eq!(b.clamp_cursor(2), 2);
    assert_eq!(b.clamp_cursor(9), 2);
}

#[test]
fn reset_cursor_goes_to_start() {
    let mut b = TextBuffer::new();
    b.insert('x');
    b.insert('y');
    b.reset_cursor();
    assert_eq!(b.cursor(), 0);
    assert_eq!(b.char_count(), 2);
}

#[test]
fn delete_at_start_is_noop() {
    let mut b = TextBuffer::new();
    b.insert('x');
    b.reset_cursor();
    b.delete_before_cursor();
    assert_eq!(*b.chars(), vec!['x']);
    assert_eq!(b.cursor(), 0);
}

#[test]
fn highlight_up_at_top_is_noop() {
    let mut h = Highlight::new();
    assert_eq!(h.y, 0);
    h.move_up();
    assert_eq!(h.y, 0);
}

#[test]
fn highlight_down_increments_row() {
    let mut h = Highlight::new();
    h.move_down();
    assert_eq!(h.y, 1);
    h.move_down();
    assert_eq!(h.y, 2);
    h.move_up();
    assert_eq!(h.y, 1);
}

#[test]
fn highlight_width_refresh() {
    let mut h = Highlight::new();
    h.set_width(80);
    assert_eq!(h.width, 80);
    assert_eq!(h.height, 1);
}

#[test]
fn mode_transitions() {
    let mut app = App::new();
    assert_eq!(app.input_mode(), InputMode::Normal);
    app.handle_key(Key::Char('e'), true);
    assert_eq!(app.input_mode(), InputMode::Editing);
    app.handle_key(Key::Esc, true);
    assert_eq!(app.input_mode(), InputMode::Normal);
}

#[test]
fn quit_sets_exit_and_freezes_state() {
    let mut app = App::new();
    app.handle_key(Key::Char('q'), true);
    assert!(app.exit());
    app.handle_key(Key::Char('e'), true);
    assert_eq!(app.input_mode(), InputMode::Normal);
    app.handle_key(Key::Down, true);
    assert_eq!(app.hl_block().y, 0);
    assert!(app.exit());
}

#[test]
fn scenario_edit_and_escape() {
    let mut app = App::new();
    assert_eq!(app.input_mode(), InputMode::Normal);
    assert_eq!(app.input().char_count(), 0);
    assert_eq!(app.input().cursor(), 0);
    app.handle_key(Key::Char('e'), true);
    assert_eq!(app.input_mode(), InputMode::Editing);
    app.handle_key(Key::Char('a'), true);
    app.handle_key(Key::Char('b'), true);
    assert_eq!(*app.input().chars(), vec!['a', 'b']);
    assert_eq!(app.input().cursor(), 2);
    app.handle_key(Key::Backspace, true);
    assert_eq!(*app.input().chars(), vec!['a']);
    assert_eq!(app.input().cursor(), 1);
    app.handle_key(Key::Esc, true);
    assert_eq!(app.input_mode(), InputMode::Normal);
}

#[test]
fn editing_ignores_key_releases() {
    let mut app = App::new();
    app.handle_key(Key::Char('e'), true);
    app.handle_key(Key::Char('a'), false);
    assert_eq!(app.input().char_count(), 0);
    app.handle_key(Key::Char('a'), true);
    assert_eq!(app.input().char_count(), 1);
}

#[test]
fn unrecognized_keys_are_ignored() {
    let mut app = App::new();
    app.handle_key(Key::Other, true);
    assert_eq!(app.input_mode(), InputMode::Normal);
    assert!(!app.exit());
    app.handle_key(Key::Backspace, true);
    assert_eq!(app.hl_block().y, 0);
    app.handle_key(Key::Char('e'), true);
    app.handle_key(Key::Other, true);
    assert_eq!(app.input().char_count(), 0);
    assert_eq!(app.input_mode(), InputMode::Editing);
}

#[test]
fn normal_mode_list_keys_move_highlight() {
    let mut app = App::new();
    app.handle_key(Key::Char('j'), true);
    app.handle_key(Key::Down, true);
    assert_eq!(app.hl_block().y, 2);
    app.handle_key(Key::Char('k'), true);
    assert_eq!(app.hl_block().y, 1);
    app.handle_key(Key::Up, true);
    assert_eq!(app.hl_block().y, 0);
    app.handle_key(Key::Up, true);
    assert_eq!(app.hl_block().y, 0);
}

#[test]
fn editing_mode_arrows_move_highlight() {
    let mut app = App::new();
    app.handle_key(Key::Char('e'), true);
    app.handle_key(Key::Down, true);
    app.handle_key(Key::Down, true);
    app.handle_key(Key::Up, true);
    assert_eq!(app.hl_block().y, 1);
    // 'j' and 'k' are ordinary characters while editing.
    app.handle_key(Key::Char('j'), true);
    assert_eq!(*app.input().chars(), vec!['j']);
    assert_eq!(app.hl_block().y, 1);
}

#[test]
fn app_refresh_width() {
    let mut app = App::new();
    app.refresh_width(120);
    assert_eq!(app.hl_block().width, 120);
    assert_eq!(app.hl_block().y, 0);
}
