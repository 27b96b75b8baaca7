use eta_editor::buffer::{
    char_is_blank, cluster_end_after, cluster_start_before, CharBuffer, CharCursor,
};
use eta_editor::dispatch::{
    check_for_mutating_key_press, InputEvent, Key, Modifiers, OperatingSystem,
};
use eta_editor::editor::{Dispatch, FileData};
use eta_editor::history::{Snapshot, UndoHistory};
use eta_editor::scroll::ScrollState;
use eta_editor::selection::{RowLayout, SelectionRange};

fn chars(s: &str) -> Vec<char> {
    s.chars().collect()
}

fn text_of(b: &CharBuffer) -> String {
    b.as_chars().iter().collect()
}

fn cursor(i: usize) -> CharCursor {
    CharCursor::new(i)
}

fn key(k: Key, modifiers: Modifiers) -> InputEvent {
    InputEvent::Key { key: k, pressed: true, modifiers }
}

fn ctrl() -> Modifiers {
    Modifiers { ctrl: true, command: true, ..Modifiers::none() }
}

fn doc(s: &str, sel: SelectionRange) -> FileData {
    let mut d = FileData::new(chars(s));
    d.editor.selection = sel;
    d
}

fn press(d: &mut FileData, ev: InputEvent) -> Dispatch {
    let layout = RowLayout::unwrapped(&d.text);
    d.handle_event(OperatingSystem::Nix, &layout, &ev, usize::MAX).dispatch
}

fn frame(d: &mut FileData, t: u64, events: Vec<InputEvent>) -> bool {
    d.run_frame(OperatingSystem::Nix, &events, t, usize::MAX).changed
}

#[test]
fn backspace_at_end_deletes_last_char() {
    let mut d = doc("ab\ncd", SelectionRange::one(cursor(5)));
    let r = press(&mut d, key(Key::Backspace, Modifiers::none()));
    assert_eq!(text_of(&d.text), "ab\nc");
    assert_eq!(d.editor.selection.primary.index, 4);
    assert_eq!(d.editor.selection.secondary.index, 4);
    assert!(matches!(r, Dispatch::Mutated(_)));
}

#[test]
fn delete_removes_selection() {
    let mut d = doc("hello world", SelectionRange::two(cursor(0), cursor(5)));
    press(&mut d, key(Key::Delete, Modifiers::none()));
    assert_eq!(text_of(&d.text), " world");
    assert_eq!(d.editor.selection.primary.index, 0);
    assert!(d.editor.selection.is_empty());
}

#[test]
fn undo_after_separate_keystrokes_returns_to_first() {
    let mut d = FileData::new(Vec::new());
    frame(&mut d, 0, vec![InputEvent::Text(chars("x"))]);
    frame(&mut d, 5000, vec![InputEvent::Text(chars("y"))]);
    assert_eq!(text_of(&d.text), "xy");
    frame(&mut d, 6000, vec![key(Key::Z, ctrl())]);
    assert_eq!(text_of(&d.text), "x");
    assert_eq!(d.editor.selection.primary.index, 1);
}

#[test]
fn undo_after_coalesced_keystrokes_returns_to_empty() {
    let mut d = FileData::new(Vec::new());
    frame(&mut d, 0, vec![InputEvent::Text(chars("x"))]);
    frame(&mut d, 100, vec![InputEvent::Text(chars("y"))]);
    assert_eq!(text_of(&d.text), "xy");
    frame(&mut d, 200, vec![key(Key::Z, ctrl())]);
    assert_eq!(text_of(&d.text), "");
    assert_eq!(d.editor.selection.primary.index, 0);
}

#[test]
fn scroll_moves_target_and_converges() {
    let mut s = ScrollState::new();
    s.update(-50, 1000, 200, 16);
    assert_eq!(s.target, 50);
    assert!(s.current > 0 && s.current <= 50);
    for _ in 0..60 {
        s.update(0, 1000, 200, 16);
    }
    assert_eq!(s.target, 50);
    assert_eq!(s.current, 50);
}

#[test]
fn scroll_is_clamped_to_bounds() {
    let mut s = ScrollState::new();
    s.update(-5000, 1000, 200, 1000);
    assert_eq!(s.target, 900);
    assert_eq!(s.current, 900);
    s.update(10_000, 1000, 200, 1000);
    assert_eq!(s.target, 0);
    assert_eq!(s.current, 0);
    s.update(-300, 150, 200, 16);
    assert_eq!(s.target, 0);
    assert_eq!(s.current, 0);
}

#[test]
fn scroll_smoothing_step_exact() {
    let mut s = ScrollState::new();
    s.update(-100, 1000, 200, 10);
    // 100 * 300 / 1000 = 30
    assert_eq!(s.current, 30);
    s.update(0, 1000, 200, 10);
    // 30 + 70 * 300 / 1000 = 51
    assert_eq!(s.current, 51);
}

#[test]
fn visible_lines_window() {
    let s = ScrollState { current: 45, target: 45 };
    assert_eq!(s.visible_lines(10, 95, 100), (4, 9));
    assert_eq!(s.visible_lines(10, 95, 3), (4, 3));
}

#[test]
fn insert_then_delete_round_trip() {
    let mut b = CharBuffer::from_chars(chars("hello"));
    let mut c = cursor(2);
    b.insert_text_at(&mut c, &chars("XYZ"), usize::MAX);
    assert_eq!(text_of(&b), "heXYZllo");
    assert_eq!(c.index, 5);
    b.delete_char_range(2, c.index);
    assert_eq!(text_of(&b), "hello");
}

#[test]
fn insert_is_truncated_at_limit() {
    let mut b = CharBuffer::from_chars(chars("abc"));
    let mut c = cursor(10);
    b.insert_text_at(&mut c, &chars("defgh"), 5);
    assert_eq!(text_of(&b), "abcde");
    assert_eq!(c.index, 5);
}

#[test]
fn cut_then_paste_round_trip() {
    let mut b = CharBuffer::from_chars(chars("hello world"));
    let sel = SelectionRange::two(cursor(8), cursor(3));
    let cut = sel.slice_str(&b);
    assert_eq!(cut.iter().collect::<String>(), "lo wo");
    let mut c = b.delete_selected(&sel);
    assert_eq!(text_of(&b), "helrld");
    assert_eq!(c.index, 3);
    b.insert_text_at(&mut c, &cut, usize::MAX);
    assert_eq!(text_of(&b), "hello world");
    assert_eq!(c.index, 8);
}

#[test]
fn delete_selected_empty_is_noop() {
    let mut b = CharBuffer::from_chars(chars("abc"));
    let c = b.delete_selected(&SelectionRange::one(cursor(2)));
    assert_eq!(text_of(&b), "abc");
    assert_eq!(c, cursor(2));
}

#[test]
fn backspace_then_delete_removes_two() {
    let mut b = CharBuffer::from_chars(chars("abcd"));
    let c = b.delete_previous_char(cursor(2));
    let c = b.delete_next_char(c);
    assert_eq!(text_of(&b), "ad");
    assert_eq!(c.index, 1);
    let mut b = CharBuffer::from_chars(chars("abcd"));
    let c = b.delete_previous_char(cursor(0));
    assert_eq!(text_of(&b), "abcd");
    b.delete_next_char(c);
    assert_eq!(text_of(&b), "bcd");
}

#[test]
fn word_deletion() {
    let mut b = CharBuffer::from_chars(chars("foo bar  baz"));
    let c = b.delete_previous_word(cursor(9));
    assert_eq!(text_of(&b), "foo baz");
    assert_eq!(c.index, 4);
    let mut b = CharBuffer::from_chars(chars("foo bar  baz"));
    let c = b.delete_next_word(cursor(3));
    assert_eq!(text_of(&b), "foo  baz");
    assert_eq!(c.index, 3);
}

#[test]
fn ctrl_backspace_deletes_word() {
    let mut d = doc("let x = 1", SelectionRange::one(cursor(9)));
    press(&mut d, key(Key::Backspace, Modifiers { ctrl: true, ..Modifiers::none() }));
    assert_eq!(text_of(&d.text), "let x = ");
}

#[test]
fn ctrl_w_deletes_word_or_selection() {
    let mut d = doc("one two", SelectionRange::one(cursor(7)));
    press(&mut d, key(Key::W, ctrl()));
    assert_eq!(text_of(&d.text), "one ");
    let mut d = doc("one two", SelectionRange::two(cursor(0), cursor(2)));
    press(&mut d, key(Key::W, ctrl()));
    assert_eq!(text_of(&d.text), "e two");
}

#[test]
fn paragraph_deletion() {
    let mut d = doc("ab\ncdef\ngh", SelectionRange::one(cursor(6)));
    press(&mut d, key(Key::U, ctrl()));
    assert_eq!(text_of(&d.text), "ab\nf\ngh");
    assert_eq!(d.editor.selection.primary.index, 3);
    press(&mut d, key(Key::K, ctrl()));
    assert_eq!(text_of(&d.text), "ab\n\ngh");
    // at a line start, Ctrl+U joins with the line above
    press(&mut d, key(Key::U, ctrl()));
    assert_eq!(text_of(&d.text), "ab\ngh");
    assert_eq!(d.editor.selection.primary.index, 2);
}

#[test]
fn paragraph_deletion_on_wrapped_rows() {
    let mut b = CharBuffer::from_chars(chars("abcdef"));
    let layout = RowLayout { rows: vec![(0, 3), (3, 6)] };
    let sel = SelectionRange::one(CharCursor { index: 5, prefer_next_row: false });
    let c = b.delete_paragraph_before_cursor(&layout, &sel);
    assert_eq!(text_of(&b), "abcf");
    assert_eq!(c.index, 3);
}

#[test]
fn shift_delete_on_windows_is_left_alone() {
    let mut b = CharBuffer::from_chars(chars("abc"));
    let layout = RowLayout::unwrapped(&b);
    let m = Modifiers { shift: true, ..Modifiers::none() };
    let sel = SelectionRange::one(cursor(1));
    let r = check_for_mutating_key_press(OperatingSystem::Windows, &sel, &mut b, &layout, &m, Key::Delete);
    assert!(r.is_none());
    assert_eq!(text_of(&b), "abc");
    let r = check_for_mutating_key_press(OperatingSystem::Nix, &sel, &mut b, &layout, &m, Key::Delete);
    assert!(r.is_some());
    assert_eq!(text_of(&b), "ac");
}

#[test]
fn tab_enter_and_outdent() {
    let mut d = doc("ab", SelectionRange::one(cursor(1)));
    press(&mut d, key(Key::Tab, Modifiers::none()));
    assert_eq!(text_of(&d.text), "a\tb");
    press(&mut d, key(Key::Enter, Modifiers::none()));
    assert_eq!(text_of(&d.text), "a\t\nb");
    assert_eq!(d.editor.selection.primary.index, 3);
    let mut d = doc("x\n      y", SelectionRange::one(cursor(8)));
    press(&mut d, key(Key::Tab, Modifiers { shift: true, ..Modifiers::none() }));
    assert_eq!(text_of(&d.text), "x\n  y");
    assert_eq!(d.editor.selection.primary.index, 4);
    let mut d = doc("\tz", SelectionRange::one(cursor(2)));
    press(&mut d, key(Key::Tab, Modifiers { shift: true, ..Modifiers::none() }));
    assert_eq!(text_of(&d.text), "z");
}

#[test]
fn text_input_drops_newlines() {
    let mut d = doc("", SelectionRange::one(cursor(0)));
    let r = press(&mut d, InputEvent::Text(chars("\n")));
    assert_eq!(r, Dispatch::Unhandled);
    press(&mut d, InputEvent::Text(chars("a\r\nb")));
    assert_eq!(text_of(&d.text), "ab");
}

#[test]
fn paste_replaces_selection() {
    let mut d = doc("hello", SelectionRange::two(cursor(1), cursor(4)));
    press(&mut d, InputEvent::Paste(chars("EY\nY")));
    assert_eq!(text_of(&d.text), "hEY\nYo");
    assert_eq!(d.editor.selection.primary.index, 5);
}

#[test]
fn copy_and_cut() {
    let mut d = doc("hello", SelectionRange::two(cursor(1), cursor(3)));
    let layout = RowLayout::unwrapped(&d.text);
    let out = d.handle_event(OperatingSystem::Nix, &layout, &InputEvent::Copy, usize::MAX);
    assert_eq!(out.clipboard.unwrap().iter().collect::<String>(), "el");
    assert_eq!(text_of(&d.text), "hello");
    let out = d.handle_event(OperatingSystem::Nix, &layout, &InputEvent::Cut, usize::MAX);
    assert_eq!(out.clipboard.unwrap().iter().collect::<String>(), "el");
    assert_eq!(text_of(&d.text), "hlo");
    let layout = RowLayout::unwrapped(&d.text);
    let out = d.handle_event(OperatingSystem::Nix, &layout, &InputEvent::Cut, usize::MAX);
    assert_eq!(out.clipboard.unwrap().iter().collect::<String>(), "hlo");
    assert_eq!(text_of(&d.text), "");
}

#[test]
fn navigation_moves_selection_only() {
    let mut d = doc("ab cd\nef", SelectionRange::one(cursor(1)));
    assert_eq!(press(&mut d, key(Key::ArrowRight, Modifiers::none())), Dispatch::NavigationHandled);
    assert_eq!(d.editor.selection.primary.index, 2);
    press(&mut d, key(Key::ArrowRight, Modifiers { shift: true, ..Modifiers::none() }));
    assert_eq!(d.editor.selection.primary.index, 3);
    assert_eq!(d.editor.selection.secondary.index, 2);
    press(&mut d, key(Key::ArrowDown, Modifiers::none()));
    assert_eq!(d.editor.selection.primary.index, 8);
    press(&mut d, key(Key::Home, Modifiers::none()));
    assert_eq!(d.editor.selection.primary.index, 6);
    press(&mut d, key(Key::ArrowUp, Modifiers::none()));
    assert_eq!(d.editor.selection.primary.index, 0);
    press(&mut d, key(Key::ArrowRight, Modifiers { ctrl: true, ..Modifiers::none() }));
    assert_eq!(d.editor.selection.primary.index, 2);
    press(&mut d, key(Key::A, ctrl()));
    assert_eq!(d.editor.selection.primary.index, 8);
    assert_eq!(d.editor.selection.secondary.index, 0);
    assert_eq!(text_of(&d.text), "ab cd\nef");
    press(&mut d, InputEvent::Pointer { cursor: cursor(40), extend: false });
    assert_eq!(d.editor.selection.primary.index, 8);
}

#[test]
fn undo_then_redo() {
    let mut d = FileData::new(chars("ab"));
    frame(&mut d, 0, vec![InputEvent::Pointer { cursor: cursor(2), extend: false }]);
    frame(&mut d, 5000, vec![InputEvent::Text(chars("c"))]);
    frame(&mut d, 10000, vec![key(Key::Z, ctrl())]);
    assert_eq!(text_of(&d.text), "ab");
    assert_eq!(d.editor.selection.primary.index, 2);
    frame(&mut d, 11000, vec![key(Key::Y, ctrl())]);
    assert_eq!(text_of(&d.text), "abc");
    assert_eq!(d.editor.selection.primary.index, 3);
}

#[test]
fn edit_after_undo_clears_redo() {
    let mut d = FileData::new(chars("ab"));
    frame(&mut d, 0, vec![InputEvent::Pointer { cursor: cursor(2), extend: false }]);
    frame(&mut d, 5000, vec![InputEvent::Text(chars("c"))]);
    frame(&mut d, 10000, vec![key(Key::Z, ctrl())]);
    frame(&mut d, 11000, vec![InputEvent::Text(chars("d"))]);
    assert_eq!(text_of(&d.text), "abd");
    let redo = Modifiers { shift: true, ..ctrl() };
    let r = press(&mut d, key(Key::Z, redo));
    assert_eq!(r, Dispatch::Unhandled);
    assert_eq!(text_of(&d.text), "abd");
}

#[test]
fn undo_with_empty_history_is_noop() {
    let mut h = UndoHistory::new(Snapshot::new(SelectionRange::one(cursor(0)), Vec::new()), 1000);
    let cur = Snapshot::new(SelectionRange::one(cursor(0)), Vec::new());
    assert!(h.undo(&cur).is_none());
    assert!(h.redo(&cur).is_none());
    assert!(!h.has_undo());
}

#[test]
fn unwrapped_layout_splits_lines() {
    let b = CharBuffer::from_chars(chars("ab\n\ncd"));
    let l = RowLayout::unwrapped(&b);
    assert_eq!(l.rows, vec![(0, 2), (3, 3), (4, 6)]);
    assert_eq!(l.row_of(cursor(3), 6), 1);
    let e = RowLayout::unwrapped(&CharBuffer::new());
    assert_eq!(e.rows, vec![(0, 0)]);
}

#[test]
fn undo_skips_snapshots_equal_to_current() {
    let snap = |s: &str| Snapshot::new(SelectionRange::one(cursor(0)), chars(s));
    let mut h = UndoHistory::new(snap("a"), 1000);
    h.feed_state(0, &snap("b"));
    h.feed_state(5000, &snap("c"));
    let back = h.undo(&snap("b")).unwrap();
    assert_eq!(back.text, chars("a"));
    let fwd = h.redo(&snap("a")).unwrap();
    assert_eq!(fwd.text, chars("b"));
}

#[test]
fn frame_reports_change_and_clipboard() {
    let mut d = FileData::new(chars("abc"));
    let out = d.run_frame(
        OperatingSystem::Nix,
        &vec![key(Key::End, Modifiers::none()), key(Key::A, ctrl()), InputEvent::Copy],
        0,
        usize::MAX,
    );
    assert!(!out.changed);
    assert_eq!(out.clipboard.unwrap(), chars("abc"));
    let out = d.run_frame(
        OperatingSystem::Nix,
        &vec![InputEvent::Paste(chars("xy")), InputEvent::Text(chars("z"))],
        10,
        usize::MAX,
    );
    assert!(out.changed);
    assert!(out.clipboard.is_none());
    assert_eq!(text_of(&d.text), "xyz");
    assert!(frame(&mut d, 20, vec![key(Key::Backspace, Modifiers::none())]));
    assert_eq!(text_of(&d.text), "xy");
}

#[test]
fn delete_removes_whole_grapheme_after_cursor() {
    let mut d = doc("e\u{301}x", SelectionRange::one(cursor(0)));
    press(&mut d, key(Key::Delete, Modifiers::none()));
    assert_eq!(text_of(&d.text), "x");
    assert_eq!(d.editor.selection.primary.index, 0);
}

#[test]
fn ctrl_h_removes_whole_grapheme_before_cursor() {
    let mut d = doc("e\u{301}", SelectionRange::one(cursor(2)));
    press(&mut d, key(Key::H, Modifiers { ctrl: true, ..Modifiers::none() }));
    assert_eq!(text_of(&d.text), "");
    assert_eq!(d.editor.selection.primary.index, 0);
}

#[test]
fn backspace_removes_crlf_as_one() {
    let mut b = CharBuffer::from_chars(chars("a\r\nb"));
    let c = b.delete_previous_char(cursor(3));
    assert_eq!(text_of(&b), "ab");
    assert_eq!(c.index, 1);
}

#[test]
fn cluster_boundaries_from_lengths() {
    let lens = vec![2, 1, 3];
    assert_eq!(cluster_start_before(&lens, 0, 6), 0);
    assert_eq!(cluster_start_before(&lens, 2, 6), 0);
    assert_eq!(cluster_start_before(&lens, 3, 6), 2);
    assert_eq!(cluster_start_before(&lens, 5, 6), 3);
    assert_eq!(cluster_end_after(&lens, 0, 6), 2);
    assert_eq!(cluster_end_after(&lens, 2, 6), 3);
    assert_eq!(cluster_end_after(&lens, 4, 6), 6);
    let mut b = CharBuffer::from_chars(chars("abcdef"));
    let c = b.delete_previous_char_with(&lens, cursor(5));
    assert_eq!(text_of(&b), "abcf");
    assert_eq!(c.index, 3);
    let mut b = CharBuffer::from_chars(chars("abcdef"));
    let c = b.delete_next_char_with(&lens, cursor(0));
    assert_eq!(text_of(&b), "cdef");
    assert_eq!(c.index, 0);
}

#[test]
fn blank_matches_unicode_whitespace() {
    for u in 0..=0x10FFFFu32 {
        if let Some(c) = char::from_u32(u) {
            assert_eq!(char_is_blank(c), c.is_whitespace(), "U+{u:04X}");
        }
    }
}

#[test]
fn unicode_space_is_a_word_boundary() {
    let mut b = CharBuffer::from_chars(chars("foo\u{3000}bar"));
    let c = b.delete_previous_word(cursor(7));
    assert_eq!(text_of(&b), "foo\u{3000}");
    assert_eq!(c.index, 4);
    let mut b = CharBuffer::from_chars(chars("foo\u{a0}bar"));
    b.delete_next_word(cursor(3));
    assert_eq!(text_of(&b), "foo");
}

#[test]
fn undo_clamps_restored_selection() {
    let mut d = doc("a", SelectionRange::one(cursor(0)));
    d.editor.history.undos.push(Snapshot::new(SelectionRange::one(cursor(1)), Vec::new()));
    let r = press(&mut d, key(Key::Z, ctrl()));
    assert_eq!(text_of(&d.text), "");
    assert_eq!(d.editor.selection.primary.index, 0);
    assert_eq!(d.editor.selection.secondary.index, 0);
    assert_eq!(r, Dispatch::Mutated(SelectionRange::one(cursor(0))));
}

#[test]
fn scroll_bound_rounds_half_viewport_up() {
    let mut s = ScrollState::new();
    s.update(-5000, 1000, 201, 1000);
    assert_eq!(s.target, 899);
    assert_eq!(s.current, 899);
}

#[test]
fn fresh_document_first_edit_undoes() {
    let mut d = FileData::new(chars("q"));
    assert!(frame(&mut d, 0, vec![InputEvent::Text(chars("w"))]));
    frame(&mut d, 5000, vec![key(Key::Z, ctrl())]);
    assert_eq!(text_of(&d.text), "q");
}
