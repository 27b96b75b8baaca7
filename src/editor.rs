//! One open document and its editor state, and the handling of one input
//! event against them.
use vstd::prelude::*;

use crate::buffer::{clamp_span, insert_result, outdent_result, CharBuffer, CharCursor};
use crate::dispatch::{
    check_for_mutating_key_press, key_edit, navigate, InputEvent, Key, Modifiers,
    OperatingSystem,
};
use crate::history::{
    feed_spec, redo_spec, undo_spec, HistoryView, Snapshot, UndoHistory, DEFAULT_DEBOUNCE_MS,
};
use crate::scroll::ScrollState;
use crate::selection::{line_rows, selected_result, RowLayout, SelectionRange};

verus! {

/// How an event was resolved.
#[derive(Clone, Copy, Debug, PartialEq, Eq, Structural)]
pub enum Dispatch {
    /// The event moved the selection only.
    NavigationHandled,
    /// The event changed the text; the new selection.
    Mutated(SelectionRange),
    /// The event changed neither.
    Unhandled,
}

/// The result of one event: how it was resolved, and the text it put on the
/// clipboard, if any.
pub struct EventOutcome {
    pub dispatch: Dispatch,
    pub clipboard: Option<Vec<char>>,
}

/// The editor state kept for one document between frames.
pub struct ExtendedCodeEditor {
    pub scroll: ScrollState,
    pub selection: SelectionRange,
    pub history: UndoHistory,
}

/// An open document: its text and its editor state.
pub struct FileData {
    pub text: CharBuffer,
    pub editor: ExtendedCodeEditor,
}

/// Everything an event changes, as the contracts see it.
pub struct EventEffect {
    pub text: Seq<char>,
    pub selection: SelectionRange,
    pub history: HistoryView,
    pub dispatch: Dispatch,
    pub clipboard: Option<Seq<char>>,
}

/// The selected characters of `s`.
pub open spec fn selected_text(s: Seq<char>, range: SelectionRange) -> Seq<char> {
    let (a, b) = clamp_span(range.sorted_min().index as int, range.sorted_max().index as int, s.len() as int);
    s.subrange(a, b)
}

/// `x` without its newline and carriage-return characters.
pub open spec fn strip_newlines(x: Seq<char>) -> Seq<char>
    decreases x.len(),
{
    if x.len() == 0 {
        x
    } else {
        let c = x.last();
        strip_newlines(x.drop_last()) + (if c == '\n' || c == '\r' {
            Seq::<char>::empty()
        } else {
            seq![c]
        })
    }
}

/// The text and selection after the selection is replaced by `t`.
pub open spec fn replace_selection(s: Seq<char>, range: SelectionRange, t: Seq<char>, limit: int) -> (Seq<char>, SelectionRange) {
    let (t1, c1) = selected_result(s, range);
    let (t2, c2) = insert_result(t1, c1, t, limit);
    (t2, SelectionRange { primary: c2, secondary: c2 })
}

/// The selection that a cut of the whole text leaves.
pub open spec fn origin_range() -> SelectionRange {
    SelectionRange {
        primary: CharCursor { index: 0, prefer_next_row: false },
        secondary: CharCursor { index: 0, prefer_next_row: false },
    }
}

pub open spec fn is_undo_chord(key: Key, m: Modifiers) -> bool {
    key == Key::Z && m.command && !m.shift
}

pub open spec fn is_redo_chord(key: Key, m: Modifiers) -> bool {
    m.command && (key == Key::Y || (key == Key::Z && m.shift))
}

/// The effect of an edit that leaves text `t` and selection `r`.
pub open spec fn mutation(same: EventEffect, r: (Seq<char>, SelectionRange)) -> EventEffect {
    EventEffect { text: r.0, selection: r.1, dispatch: Dispatch::Mutated(r.1), ..same }
}

/// The effect of restoring a snapshot from the history, if there was one.
pub open spec fn restore(same: EventEffect, step: (HistoryView, Option<(SelectionRange, Seq<char>)>)) -> EventEffect {
    match step.1 {
        Some(p) => EventEffect { text: p.1, selection: p.0, history: step.0, dispatch: Dispatch::Mutated(p.0), ..same },
        None => EventEffect { history: step.0, ..same },
    }
}

/// What one event does: as `event_effect` says, with the selection (also the
/// one reported for an edit) clamped to the resulting text.
pub open spec fn handle_spec(
    os: OperatingSystem,
    s: Seq<char>,
    rows: Seq<(usize, usize)>,
    range: SelectionRange,
    h: HistoryView,
    ev: InputEvent,
    limit: int,
) -> EventEffect {
    let e = event_effect(os, s, rows, range, h, ev, limit);
    let sel = e.selection.clamped(e.text.len() as int);
    EventEffect {
        selection: sel,
        dispatch: if e.dispatch is Mutated {
            Dispatch::Mutated(sel)
        } else {
            e.dispatch
        },
        ..e
    }
}

/// What one event does: navigation is tried first; then clipboard events,
/// text input, Tab, Enter, undo, redo and the editing key bindings.
pub open spec fn event_effect(
    os: OperatingSystem,
    s: Seq<char>,
    rows: Seq<(usize, usize)>,
    range: SelectionRange,
    h: HistoryView,
    ev: InputEvent,
    limit: int,
) -> EventEffect {
    let same = EventEffect { text: s, selection: range, history: h, dispatch: Dispatch::Unhandled, clipboard: None };
    match navigate(s, rows, range, ev) {
        Some(nr) => EventEffect { selection: nr, dispatch: Dispatch::NavigationHandled, ..same },
        None => match ev {
            InputEvent::Copy => EventEffect {
                clipboard: Some(if range.empty_spec() { s } else { selected_text(s, range) }),
                ..same
            },
            InputEvent::Cut => if range.empty_spec() {
                EventEffect {
                    text: Seq::empty(),
                    selection: origin_range(),
                    dispatch: Dispatch::Mutated(origin_range()),
                    clipboard: Some(s),
                    ..same
                }
            } else {
                let (t, c) = selected_result(s, range);
                let nr = SelectionRange { primary: c, secondary: c };
                EventEffect {
                    text: t,
                    selection: nr,
                    dispatch: Dispatch::Mutated(nr),
                    clipboard: Some(selected_text(s, range)),
                    ..same
                }
            },
            InputEvent::Paste(p) => if p@.len() > 0 {
                mutation(same, replace_selection(s, range, p@, limit))
            } else {
                same
            },
            InputEvent::Text(x) => if strip_newlines(x@).len() > 0 {
                mutation(same, replace_selection(s, range, strip_newlines(x@), limit))
            } else {
                same
            },
            InputEvent::Key { key, pressed, modifiers } => if !pressed {
                same
            } else if key == Key::Tab {
                let (t1, c1) = selected_result(s, range);
                let (t2, c2) = if modifiers.shift {
                    outdent_result(t1, c1)
                } else {
                    insert_result(t1, c1, seq!['\t'], limit)
                };
                mutation(same, (t2, SelectionRange { primary: c2, secondary: c2 }))
            } else if key == Key::Enter {
                mutation(same, replace_selection(s, range, seq!['\n'], limit))
            } else if is_undo_chord(key, modifiers) {
                restore(same, undo_spec(h, (range, s)))
            } else if is_redo_chord(key, modifiers) {
                restore(same, redo_spec(h, (range, s)))
            } else {
                match key_edit(os, s, rows, range, modifiers, key) {
                    Some(r) => mutation(same, r),
                    None => same,
                }
            },
            _ => same,
        },
    }
}

/// The result of one frame: whether the text changed, and the text last put
/// on the clipboard, if any.
pub struct FrameOutcome {
    pub changed: bool,
    pub clipboard: Option<Vec<char>>,
}

/// The state that a frame's events act on, as the contracts see it.
pub struct FrameState {
    pub text: Seq<char>,
    pub selection: SelectionRange,
    pub history: HistoryView,
    pub changed: bool,
    pub clipboard: Option<Seq<char>>,
}

/// The state after one more event, handled against the unwrapped layout of
/// the text as it stands.
pub open spec fn event_step(os: OperatingSystem, st: FrameState, ev: InputEvent, limit: int) -> FrameState {
    let e = handle_spec(os, st.text, line_rows(st.text), st.selection, st.history, ev, limit);
    FrameState {
        text: e.text,
        selection: e.selection,
        history: e.history,
        changed: st.changed || e.dispatch is Mutated,
        clipboard: if e.clipboard is Some {
            e.clipboard
        } else {
            st.clipboard
        },
    }
}

/// The state after the first `n` events of `evs`, in order.
pub open spec fn after_events(os: OperatingSystem, st: FrameState, evs: Seq<InputEvent>, n: int, limit: int) -> FrameState
    decreases n,
{
    if n <= 0 {
        st
    } else {
        event_step(os, after_events(os, st, evs, n - 1, limit), evs[n - 1], limit)
    }
}

/// One frame: the state is fed to the history at time `t`, the events are
/// handled in order, and the resulting state is fed again.
pub open spec fn frame_spec(
    os: OperatingSystem,
    s: Seq<char>,
    range: SelectionRange,
    h: HistoryView,
    evs: Seq<InputEvent>,
    t: u64,
    limit: int,
) -> FrameState {
    let start = FrameState {
        text: s,
        selection: range,
        history: feed_spec(h, t, (range, s)),
        changed: false,
        clipboard: None,
    };
    let st = after_events(os, start, evs, evs.len() as int, limit);
    FrameState { history: feed_spec(st.history, t, (st.selection, st.text)), ..st }
}

pub open spec fn opt_view(o: Option<Vec<char>>) -> Option<Seq<char>> {
    match o {
        Some(v) => Some(v@),
        None => None,
    }
}

/// `x` without its newline and carriage-return characters.
pub fn strip_newline_chars(x: &Vec<char>) -> (r: Vec<char>)
    ensures
        r@ == strip_newlines(x@),
{
    let mut r: Vec<char> = Vec::new();
    let mut i: usize = 0;
    while i < x.len()
        invariant
            i <= x@.len(),
            r@ == strip_newlines(x@.subrange(0, i as int)),
        decreases x@.len() - i,
    {
        let c = x[i];
        proof {
            let y = x@.subrange(0, i + 1);
            assert(y.drop_last() =~= x@.subrange(0, i as int));
            assert(y.last() == c);
        }
        if c != '\n' && c != '\r' {
            r.push(c);
            proof {
                assert(r@ =~= strip_newlines(x@.subrange(0, i as int)) + seq![c]);
            }
        } else {
            proof {
                assert(r@ =~= strip_newlines(x@.subrange(0, i as int)) + Seq::<char>::empty());
            }
        }
        i = i + 1;
    }
    assert(x@.subrange(0, x@.len() as int) =~= x@);
    r
}

impl ExtendedCodeEditor {
    /// The state of a freshly opened document with text `text`.
    pub fn new(text: &CharBuffer) -> (r: ExtendedCodeEditor)
        ensures
            r.scroll.wf(),
            r.scroll.current == 0 && r.scroll.target == 0,
            r.selection == origin_range(),
            r.history@.undos.len() == 0,
            r.history@.redos.len() == 0,
            r.history@.current == (origin_range(), text@),
            r.history@.debounce == DEFAULT_DEBOUNCE_MS,
            r.history@.last_change == 0,
            !r.history@.open,
    {
        let origin = CharCursor { index: 0, prefer_next_row: false };
        let selection = SelectionRange::one(origin);
        let copy = text.char_range(0, text.char_len());
        assert(text@.subrange(0, text@.len() as int) =~= text@);
        ExtendedCodeEditor {
            scroll: ScrollState::new(),
            selection,
            history: UndoHistory::new(Snapshot::new(selection, copy), DEFAULT_DEBOUNCE_MS),
        }
    }
}

impl FileData {
    /// A document holding `text`, as it is when first opened.
    pub fn new(text: Vec<char>) -> (r: FileData)
        ensures
            r.text@ == text@,
            r.editor.selection == origin_range(),
            r.editor.history@.undos.len() == 0,
            r.editor.history@.redos.len() == 0,
            r.editor.history@.current == (origin_range(), text@),
            r.editor.history@.debounce == DEFAULT_DEBOUNCE_MS,
            r.editor.history@.last_change == 0,
            !r.editor.history@.open,
            r.editor.scroll.wf(),
            r.wf(),
    {
        let text = CharBuffer::from_chars(text);
        let editor = ExtendedCodeEditor::new(&text);
        FileData { text, editor }
    }

    /// The current selection and text, as a snapshot.
    pub fn snapshot(&self) -> (r: Snapshot)
        ensures
            r@ == (self.editor.selection, self.text@),
    {
        let copy = self.text.char_range(0, self.text.char_len());
        assert(self.text@.subrange(0, self.text@.len() as int) =~= self.text@);
        Snapshot::new(self.editor.selection, copy)
    }

    /// Feeds the current selection and text to the history at time `t`.
    pub fn feed_history(&mut self, t: u64)
        ensures
            final(self).editor.history@ == feed_spec(
                old(self).editor.history@,
                t,
                (old(self).editor.selection, old(self).text@),
            ),
            final(self).text@ == old(self).text@,
            final(self).editor.selection == old(self).editor.selection,
            final(self).editor.scroll == old(self).editor.scroll,
    {
        let snap = self.snapshot();
        self.editor.history.feed_state(t, &snap);
    }

    /// Both ends of the selection lie within the text.
    pub open spec fn wf(&self) -> bool {
        self.editor.selection.within(self.text@.len() as int)
    }

    /// Handles one input event against a layout of the current text.
    pub fn handle_event(
        &mut self,
        os: OperatingSystem,
        layout: &RowLayout,
        event: &InputEvent,
        char_limit: usize,
    ) -> (r: EventOutcome)
        requires
            layout.wf_for(old(self).text@.len() as int),
        ensures
            ({
                let e = handle_spec(
                    os,
                    old(self).text@,
                    layout.rows@,
                    old(self).editor.selection,
                    old(self).editor.history@,
                    *event,
                    char_limit as int,
                );
                &&& final(self).text@ == e.text
                &&& final(self).editor.selection == e.selection
                &&& final(self).editor.history@ == e.history
                &&& r.dispatch == e.dispatch
                &&& opt_view(r.clipboard) == e.clipboard
                &&& final(self).editor.scroll == old(self).editor.scroll
                &&& final(self).wf()
            }),
    {
        let out = self.apply_event(os, layout, event, char_limit);
        let sel = self.editor.selection.clamp_to_len(self.text.char_len());
        self.editor.selection = sel;
        let dispatch = match out.dispatch {
            Dispatch::Mutated(_) => Dispatch::Mutated(sel),
            d => d,
        };
        EventOutcome { dispatch, clipboard: out.clipboard }
    }

    fn apply_event(
        &mut self,
        os: OperatingSystem,
        layout: &RowLayout,
        event: &InputEvent,
        char_limit: usize,
    ) -> (r: EventOutcome)
        requires
            layout.wf_for(old(self).text@.len() as int),
        ensures
            ({
                let e = event_effect(
                    os,
                    old(self).text@,
                    layout.rows@,
                    old(self).editor.selection,
                    old(self).editor.history@,
                    *event,
                    char_limit as int,
                );
                &&& final(self).text@ == e.text
                &&& final(self).editor.selection == e.selection
                &&& final(self).editor.history@ == e.history
                &&& r.dispatch == e.dispatch
                &&& opt_view(r.clipboard) == e.clipboard
                &&& final(self).editor.scroll == old(self).editor.scroll
            }),
    {
        let range = self.editor.selection;
        let mut sel = range;
        if sel.on_event(&self.text, layout, event) {
            self.editor.selection = sel;
            return EventOutcome { dispatch: Dispatch::NavigationHandled, clipboard: None };
        }
        match event {
            InputEvent::Copy => {
                let clip = if range.is_empty() {
                    let c = self.text.char_range(0, self.text.char_len());
                    assert(self.text@.subrange(0, self.text@.len() as int) =~= self.text@);
                    c
                } else {
                    range.slice_str(&self.text)
                };
                EventOutcome { dispatch: Dispatch::Unhandled, clipboard: Some(clip) }
            },
            InputEvent::Cut => {
                if range.is_empty() {
                    let clip = self.text.take();
                    let nr = SelectionRange::one(CharCursor { index: 0, prefer_next_row: false });
                    self.editor.selection = nr;
                    EventOutcome { dispatch: Dispatch::Mutated(nr), clipboard: Some(clip) }
                } else {
                    let clip = range.slice_str(&self.text);
                    let c = self.text.delete_selected(&range);
                    let nr = SelectionRange::one(c);
                    self.editor.selection = nr;
                    EventOutcome { dispatch: Dispatch::Mutated(nr), clipboard: Some(clip) }
                }
            },
            InputEvent::Paste(p) => {
                if p.len() > 0 {
                    let mut c = self.text.delete_selected(&range);
                    self.text.insert_text_at(&mut c, p, char_limit);
                    let nr = SelectionRange::one(c);
                    self.editor.selection = nr;
                    EventOutcome { dispatch: Dispatch::Mutated(nr), clipboard: None }
                } else {
                    EventOutcome { dispatch: Dispatch::Unhandled, clipboard: None }
                }
            },
            InputEvent::Text(x) => {
                let y = strip_newline_chars(x);
                if y.len() > 0 {
                    let mut c = self.text.delete_selected(&range);
                    self.text.insert_text_at(&mut c, &y, char_limit);
                    let nr = SelectionRange::one(c);
                    self.editor.selection = nr;
                    EventOutcome { dispatch: Dispatch::Mutated(nr), clipboard: None }
                } else {
                    EventOutcome { dispatch: Dispatch::Unhandled, clipboard: None }
                }
            },
            InputEvent::Key { key, pressed, modifiers } => {
                let key = *key;
                let m = *modifiers;
                if !*pressed {
                    EventOutcome { dispatch: Dispatch::Unhandled, clipboard: None }
                } else if key == Key::Tab {
                    let mut c = self.text.delete_selected(&range);
                    if m.shift {
                        self.text.decrease_indentation(&mut c);
                    } else {
                        let tab = vec!['\t'];
                        assert(tab@ =~= seq!['\t']);
                        self.text.insert_text_at(&mut c, &tab, char_limit);
                    }
                    let nr = SelectionRange::one(c);
                    self.editor.selection = nr;
                    EventOutcome { dispatch: Dispatch::Mutated(nr), clipboard: None }
                } else if key == Key::Enter {
                    let mut c = self.text.delete_selected(&range);
                    let nl = vec!['\n'];
                    assert(nl@ =~= seq!['\n']);
                    self.text.insert_text_at(&mut c, &nl, char_limit);
                    let nr = SelectionRange::one(c);
                    self.editor.selection = nr;
                    EventOutcome { dispatch: Dispatch::Mutated(nr), clipboard: None }
                } else if key == Key::Z && m.command && !m.shift {
                    let cur = self.snapshot();
                    match self.editor.history.undo(&cur) {
                        Some(p) => {
                            self.text.replace_with(p.text);
                            self.editor.selection = p.selection;
                            EventOutcome { dispatch: Dispatch::Mutated(p.selection), clipboard: None }
                        },
                        None => EventOutcome { dispatch: Dispatch::Unhandled, clipboard: None },
                    }
                } else if m.command && (key == Key::Y || (key == Key::Z && m.shift)) {
                    let cur = self.snapshot();
                    match self.editor.history.redo(&cur) {
                        Some(p) => {
                            self.text.replace_with(p.text);
                            self.editor.selection = p.selection;
                            EventOutcome { dispatch: Dispatch::Mutated(p.selection), clipboard: None }
                        },
                        None => EventOutcome { dispatch: Dispatch::Unhandled, clipboard: None },
                    }
                } else {
                    match check_for_mutating_key_press(os, &range, &mut self.text, layout, &m, key) {
                        Some(nr) => {
                            self.editor.selection = nr;
                            EventOutcome { dispatch: Dispatch::Mutated(nr), clipboard: None }
                        },
                        None => EventOutcome { dispatch: Dispatch::Unhandled, clipboard: None },
                    }
                }
            },
            _ => EventOutcome { dispatch: Dispatch::Unhandled, clipboard: None },
        }
    }

    /// Runs the input of one frame, taken at time `t`.
    pub fn run_frame(
        &mut self,
        os: OperatingSystem,
        events: &Vec<InputEvent>,
        t: u64,
        char_limit: usize,
    ) -> (r: FrameOutcome)
        ensures
            ({
                let f = frame_spec(
                    os,
                    old(self).text@,
                    old(self).editor.selection,
                    old(self).editor.history@,
                    events@,
                    t,
                    char_limit as int,
                );
                &&& final(self).text@ == f.text
                &&& final(self).editor.selection == f.selection
                &&& final(self).editor.history@ == f.history
                &&& r.changed == f.changed
                &&& opt_view(r.clipboard) == f.clipboard
                &&& final(self).editor.scroll == old(self).editor.scroll
                &&& old(self).wf() ==> final(self).wf()
            }),
    {
        self.feed_history(t);
        let ghost start = FrameState {
            text: self.text@,
            selection: self.editor.selection,
            history: self.editor.history@,
            changed: false,
            clipboard: None,
        };
        let mut changed = false;
        let mut clipboard: Option<Vec<char>> = None;
        let mut i: usize = 0;
        while i < events.len()
            invariant
                i <= events@.len(),
                (FrameState {
                    text: self.text@,
                    selection: self.editor.selection,
                    history: self.editor.history@,
                    changed,
                    clipboard: opt_view(clipboard),
                }) == after_events(os, start, events@, i as int, char_limit as int),
                self.editor.scroll == old(self).editor.scroll,
                old(self).wf() ==> self.wf(),
            decreases events@.len() - i,
        {
            let layout = RowLayout::unwrapped(&self.text);
            let out = self.handle_event(os, &layout, &events[i], char_limit);
            match out.dispatch {
                Dispatch::Mutated(_) => {
                    changed = true;
                },
                _ => {},
            }
            match out.clipboard {
                Some(c) => {
                    clipboard = Some(c);
                },
                None => {},
            }
            i = i + 1;
        }
        self.feed_history(t);
        FrameOutcome { changed, clipboard }
    }
}

} // verus!
