//! Input events, and what each one does to the selection or the text.
use vstd::prelude::*;

use crate::buffer::{
    clamp_to, next_char_result, next_word_boundary, next_word_result, previous_char_result,
    previous_word_boundary, previous_word_result, CharBuffer, CharCursor,
};
use crate::selection::{
    paragraph_after_result, paragraph_before_result, selected_result, visual_row, RowLayout,
    SelectionRange,
};

verus! {

/// The host's operating system, which decides some key bindings.
#[derive(Clone, Copy, Debug, PartialEq, Eq, Structural)]
pub enum OperatingSystem {
    Unknown,
    Android,
    IOS,
    Nix,
    Mac,
    Windows,
}

/// The modifier keys held during a key press. `command` is the platform's
/// command key (Cmd on Mac, Ctrl elsewhere); `mac_cmd` is the Mac Cmd key.
#[derive(Clone, Copy, Debug, PartialEq, Eq, Structural)]
pub struct Modifiers {
    pub alt: bool,
    pub ctrl: bool,
    pub shift: bool,
    pub mac_cmd: bool,
    pub command: bool,
}

impl Modifiers {
    pub fn none() -> (r: Modifiers)
        ensures
            !r.alt && !r.ctrl && !r.shift && !r.mac_cmd && !r.command,
    {
        Modifiers { alt: false, ctrl: false, shift: false, mac_cmd: false, command: false }
    }

    /// The modifier that moves or deletes by word (Alt on Mac, Ctrl elsewhere).
    pub open spec fn word_spec(self) -> bool {
        self.alt || self.ctrl
    }
}

/// The keys the editor reacts to; every other key is `Other`.
#[derive(Clone, Copy, Debug, PartialEq, Eq, Structural)]
pub enum Key {
    Backspace,
    Delete,
    Tab,
    Enter,
    ArrowLeft,
    ArrowRight,
    ArrowUp,
    ArrowDown,
    Home,
    End,
    A,
    H,
    K,
    U,
    W,
    Y,
    Z,
    Other,
}

/// One input event, as the host delivers it.
pub enum InputEvent {
    Copy,
    Cut,
    Paste(Vec<char>),
    Text(Vec<char>),
    Key { key: Key, pressed: bool, modifiers: Modifiers },
    /// A click (or, with `extend`, a drag or shift-click) that the layout
    /// resolved to a cursor.
    Pointer { cursor: CharCursor, extend: bool },
}

/// Where the primary end of `range` moves for a navigation key, if `key` is
/// one.
pub open spec fn nav_target(
    s: Seq<char>,
    rows: Seq<(usize, usize)>,
    range: SelectionRange,
    m: Modifiers,
    key: Key,
) -> Option<CharCursor> {
    let len = s.len() as int;
    let p = clamp_to(range.primary.index as int, len);
    let row = visual_row(rows, p, range.primary.prefer_next_row);
    let collapse = !m.shift && !range.empty_spec() && !m.word_spec() && !m.mac_cmd;
    match key {
        Key::ArrowLeft => Some(
            CharCursor {
                index: (if m.word_spec() {
                    previous_word_boundary(s, p)
                } else if m.mac_cmd {
                    rows[row].0 as int
                } else if collapse {
                    clamp_to(range.sorted_min().index as int, len)
                } else if p > 0 {
                    p - 1
                } else {
                    0
                }) as usize,
                prefer_next_row: false,
            },
        ),
        Key::ArrowRight => Some(
            CharCursor {
                index: (if m.word_spec() {
                    next_word_boundary(s, p)
                } else if m.mac_cmd {
                    rows[row].1 as int
                } else if collapse {
                    clamp_to(range.sorted_max().index as int, len)
                } else if p < len {
                    p + 1
                } else {
                    len
                }) as usize,
                prefer_next_row: false,
            },
        ),
        Key::Home => Some(
            CharCursor {
                index: (if m.command {
                    0
                } else {
                    rows[row].0 as int
                }) as usize,
                prefer_next_row: true,
            },
        ),
        Key::End => Some(
            CharCursor {
                index: (if m.command {
                    len
                } else {
                    rows[row].1 as int
                }) as usize,
                prefer_next_row: false,
            },
        ),
        Key::ArrowUp => Some(
            CharCursor {
                index: (if row == 0 {
                    0
                } else {
                    let col = p - rows[row].0;
                    let above = rows[row - 1];
                    if above.0 + col <= above.1 {
                        above.0 + col
                    } else {
                        above.1 as int
                    }
                }) as usize,
                prefer_next_row: false,
            },
        ),
        Key::ArrowDown => Some(
            CharCursor {
                index: (if row + 1 >= rows.len() {
                    len
                } else {
                    let col = p - rows[row].0;
                    let below = rows[row + 1];
                    if below.0 + col <= below.1 {
                        below.0 + col
                    } else {
                        below.1 as int
                    }
                }) as usize,
                prefer_next_row: false,
            },
        ),
        _ => None,
    }
}

/// The selection after `ev`, when `ev` is a navigation event: it moves the
/// primary end, and the secondary end follows unless the range is extended.
pub open spec fn navigate(s: Seq<char>, rows: Seq<(usize, usize)>, range: SelectionRange, ev: InputEvent) -> Option<SelectionRange> {
    match ev {
        InputEvent::Key { key, pressed, modifiers } => {
            if !pressed {
                None
            } else if key == Key::A && modifiers.command {
                Some(
                    SelectionRange {
                        primary: CharCursor { index: s.len() as usize, prefer_next_row: false },
                        secondary: CharCursor { index: 0, prefer_next_row: true },
                    },
                )
            } else {
                match nav_target(s, rows, range, modifiers, key) {
                    Some(c) => Some(
                        SelectionRange {
                            primary: c,
                            secondary: if modifiers.shift {
                                range.secondary
                            } else {
                                c
                            },
                        },
                    ),
                    None => None,
                }
            }
        },
        InputEvent::Pointer { cursor, extend } => {
            let c = CharCursor {
                index: clamp_to(cursor.index as int, s.len() as int) as usize,
                prefer_next_row: cursor.prefer_next_row,
            };
            Some(SelectionRange { primary: c, secondary: if extend { range.secondary } else { c } })
        },
        _ => None,
    }
}

/// An edit's text, with its cursor as a collapsed selection.
pub open spec fn collapsed(r: (Seq<char>, CharCursor)) -> (Seq<char>, SelectionRange) {
    (r.0, SelectionRange { primary: r.1, secondary: r.1 })
}

/// The text and selection after a key press that edits, or `None` when the
/// key is no editing binding.
pub open spec fn key_edit(
    os: OperatingSystem,
    s: Seq<char>,
    rows: Seq<(usize, usize)>,
    range: SelectionRange,
    m: Modifiers,
    key: Key,
) -> Option<(Seq<char>, SelectionRange)> {
    if key == Key::Backspace {
        Some(
            collapsed(
                if m.mac_cmd {
                    paragraph_before_result(s, rows, range)
                } else if range.empty_spec() {
                    if m.word_spec() {
                        previous_word_result(s, range.primary)
                    } else {
                        previous_char_result(s, range.primary)
                    }
                } else {
                    selected_result(s, range)
                },
            ),
        )
    } else if key == Key::Delete && (!m.shift || os != OperatingSystem::Windows) {
        let r = if m.mac_cmd {
            paragraph_after_result(s, rows, range)
        } else if range.empty_spec() {
            if m.word_spec() {
                next_word_result(s, range.primary)
            } else {
                next_char_result(s, range.primary)
            }
        } else {
            selected_result(s, range)
        };
        Some(collapsed((r.0, CharCursor { index: r.1.index, prefer_next_row: true })))
    } else if key == Key::H && m.ctrl {
        Some(collapsed(previous_char_result(s, range.primary)))
    } else if key == Key::K && m.ctrl {
        Some(collapsed(paragraph_after_result(s, rows, range)))
    } else if key == Key::U && m.ctrl {
        Some(collapsed(paragraph_before_result(s, rows, range)))
    } else if key == Key::W && m.ctrl {
        Some(
            collapsed(
                if range.empty_spec() {
                    previous_word_result(s, range.primary)
                } else {
                    selected_result(s, range)
                },
            ),
        )
    } else {
        None
    }
}

fn nav_target_exec(
    text: &CharBuffer,
    layout: &RowLayout,
    range: &SelectionRange,
    m: Modifiers,
    key: Key,
) -> (r: Option<CharCursor>)
    requires
        layout.wf_for(text@.len() as int),
    ensures
        r == nav_target(text@, layout.rows@, *range, m, key),
{
    let len = text.char_len();
    let p = if range.primary.index < len { range.primary.index } else { len };
    let row = layout.row_of(CharCursor { index: p, prefer_next_row: range.primary.prefer_next_row }, len);
    let word = m.alt || m.ctrl;
    let collapse = !m.shift && !range.is_empty() && !word && !m.mac_cmd;
    let (lo, hi) = range.as_sorted_char_range();
    match key {
        Key::ArrowLeft => {
            let index = if word {
                text.previous_word_boundary(p)
            } else if m.mac_cmd {
                layout.rows[row].0
            } else if collapse {
                if lo < len { lo } else { len }
            } else if p > 0 {
                p - 1
            } else {
                0
            };
            Some(CharCursor { index, prefer_next_row: false })
        },
        Key::ArrowRight => {
            let index = if word {
                text.next_word_boundary(p)
            } else if m.mac_cmd {
                layout.rows[row].1
            } else if collapse {
                if hi < len { hi } else { len }
            } else if p < len {
                p + 1
            } else {
                len
            };
            Some(CharCursor { index, prefer_next_row: false })
        },
        Key::Home => {
            let index = if m.command { 0 } else { layout.rows[row].0 };
            Some(CharCursor { index, prefer_next_row: true })
        },
        Key::End => {
            let index = if m.command { len } else { layout.rows[row].1 };
            Some(CharCursor { index, prefer_next_row: false })
        },
        Key::ArrowUp => {
            let index = if row == 0 {
                0
            } else {
                let col = p - layout.rows[row].0;
                let above = layout.rows[row - 1];
                if col <= above.1 - above.0 { above.0 + col } else { above.1 }
            };
            Some(CharCursor { index, prefer_next_row: false })
        },
        Key::ArrowDown => {
            let index = if row == layout.rows.len() - 1 {
                len
            } else {
                let col = p - layout.rows[row].0;
                let below = layout.rows[row + 1];
                if col <= below.1 - below.0 { below.0 + col } else { below.1 }
            };
            Some(CharCursor { index, prefer_next_row: false })
        },
        _ => None,
    }
}

impl SelectionRange {
    /// Tries `event` as a navigation event: when it is one, moves the range
    /// and returns true; otherwise leaves the range alone and returns false.
    pub fn on_event(&mut self, text: &CharBuffer, layout: &RowLayout, event: &InputEvent) -> (r: bool)
        requires
            layout.wf_for(text@.len() as int),
        ensures
            match navigate(text@, layout.rows@, *old(self), *event) {
                Some(nr) => r && *final(self) == nr,
                None => !r && *final(self) == *old(self),
            },
    {
        match event {
            InputEvent::Key { key, pressed, modifiers } => {
                if !*pressed {
                    false
                } else if *key == Key::A && modifiers.command {
                    self.primary = CharCursor { index: text.char_len(), prefer_next_row: false };
                    self.secondary = CharCursor { index: 0, prefer_next_row: true };
                    true
                } else {
                    match nav_target_exec(text, layout, self, *modifiers, *key) {
                        Some(c) => {
                            self.primary = c;
                            if !modifiers.shift {
                                self.secondary = c;
                            }
                            true
                        },
                        None => false,
                    }
                }
            },
            InputEvent::Pointer { cursor, extend } => {
                let len = text.char_len();
                let c = CharCursor {
                    index: if cursor.index < len { cursor.index } else { len },
                    prefer_next_row: cursor.prefer_next_row,
                };
                self.primary = c;
                if !*extend {
                    self.secondary = c;
                }
                true
            },
            _ => false,
        }
    }
}

/// Applies a key press that edits the text; returns the new selection, or
/// `None` (with nothing changed) when the key is no editing binding.
pub fn check_for_mutating_key_press(
    os: OperatingSystem,
    range: &SelectionRange,
    text: &mut CharBuffer,
    layout: &RowLayout,
    modifiers: &Modifiers,
    key: Key,
) -> (r: Option<SelectionRange>)
    requires
        layout.wf_for(old(text)@.len() as int),
    ensures
        match key_edit(os, old(text)@, layout.rows@, *range, *modifiers, key) {
            Some((t, nr)) => r == Some(nr) && final(text)@ == t,
            None => r is None && final(text)@ == old(text)@,
        },
{
    let m = *modifiers;
    let word = m.alt || m.ctrl;
    if key == Key::Backspace {
        let c = if m.mac_cmd {
            text.delete_paragraph_before_cursor(layout, range)
        } else if let Some(cursor) = range.single() {
            if word {
                text.delete_previous_word(cursor)
            } else {
                text.delete_previous_char(cursor)
            }
        } else {
            text.delete_selected(range)
        };
        Some(SelectionRange::one(c))
    } else if key == Key::Delete && (!m.shift || os != OperatingSystem::Windows) {
        let c = if m.mac_cmd {
            text.delete_paragraph_after_cursor(layout, range)
        } else if let Some(cursor) = range.single() {
            if word {
                text.delete_next_word(cursor)
            } else {
                text.delete_next_char(cursor)
            }
        } else {
            text.delete_selected(range)
        };
        Some(SelectionRange::one(CharCursor { index: c.index, prefer_next_row: true }))
    } else if key == Key::H && m.ctrl {
        let c = text.delete_previous_char(range.primary);
        Some(SelectionRange::one(c))
    } else if key == Key::K && m.ctrl {
        let c = text.delete_paragraph_after_cursor(layout, range);
        Some(SelectionRange::one(c))
    } else if key == Key::U && m.ctrl {
        let c = text.delete_paragraph_before_cursor(layout, range);
        Some(SelectionRange::one(c))
    } else if key == Key::W && m.ctrl {
        let c = if let Some(cursor) = range.single() {
            text.delete_previous_word(cursor)
        } else {
            text.delete_selected(range)
        };
        Some(SelectionRange::one(c))
    } else {
        None
    }
}

} // verus!
