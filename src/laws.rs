//! Laws that relate several operations of the engine.
use vstd::prelude::*;

use crate::buffer::{
    clamp_span, clamp_to, end_of_cluster_after, insert_result, lemma_end_after, lemma_start_before,
    next_char_with, partitions, previous_char_with, remove_span, start_of_cluster_before,
    CharCursor,
};
use crate::dispatch::{InputEvent, Key, Modifiers, OperatingSystem};
use crate::editor::{
    handle_spec, is_redo_chord, is_undo_chord, selected_text, Dispatch,
};
use crate::history::{coalesces, feed_spec, HistoryView};
use crate::selection::{selected_result, SelectionRange};

verus! {

/// Inserting a text and then deleting the span it was inserted into gives
/// back the text as it was.
pub proof fn insert_then_delete_restores(s: Seq<char>, c: CharCursor, t: Seq<char>, max_chars: usize)
    requires
        s.len() <= usize::MAX,
    ensures
        ({
            let i = clamp_to(c.index as int, s.len() as int);
            let (s2, c2) = insert_result(s, c, t, max_chars as int);
            let (a, b) = clamp_span(i, c2.index as int, s2.len() as int);
            remove_span(s2, a, b) == s
        }),
{
    let i = clamp_to(c.index as int, s.len() as int);
    let (s2, c2) = insert_result(s, c, t, max_chars as int);
    let k = if max_chars as int <= s.len() {
        0
    } else if t.len() <= max_chars - s.len() {
        t.len() as int
    } else {
        max_chars - s.len()
    };
    assert(c2.index as int == i + k);
    assert(s2.len() == s.len() + k);
    assert(remove_span(s2, i, i + k) =~= s);
}

/// Deleting a non-empty selection and pasting its text back at the cursor
/// that the deletion returned gives back the text as it was, with the cursor
/// after the pasted text. The limit on the length is one that the starting
/// text meets.
pub proof fn cut_then_paste_restores(s: Seq<char>, r: SelectionRange, max_chars: usize)
    requires
        !r.empty_spec(),
        s.len() <= max_chars,
    ensures
        ({
            let (s1, c1) = selected_result(s, r);
            let (s2, c2) = insert_result(s1, c1, selected_text(s, r), max_chars as int);
            let (a, b) = clamp_span(r.sorted_min().index as int, r.sorted_max().index as int, s.len() as int);
            &&& s2 == s
            &&& c2.index == b
        }),
{
    let (a, b) = clamp_span(r.sorted_min().index as int, r.sorted_max().index as int, s.len() as int);
    let (s1, c1) = selected_result(s, r);
    let cut = selected_text(s, r);
    assert(s1.len() == s.len() - (b - a));
    assert(c1.index == a);
    let (s2, c2) = insert_result(s1, c1, cut, max_chars as int);
    assert(cut.subrange(0, cut.len() as int) =~= cut);
    assert(s2 =~= s);
}

/// Backspace and then Delete from the cursor it leaves each remove exactly
/// one user-perceived character, with no character deleted twice: the
/// cluster before a cursor in the middle of the text, then the cluster that
/// follows in the shortened text, so the text loses at least two characters
/// and the cursor stays where the first cluster began. `lens` and `lens1`
/// are the cluster lengths of the text before and after the first deletion.
pub proof fn backspace_then_delete_removes_one_cluster_each(
    s: Seq<char>,
    lens: Seq<usize>,
    c: CharCursor,
    lens1: Seq<usize>,
)
    requires
        partitions(lens, s.len() as int),
        partitions(lens1, previous_char_with(s, lens, c).0.len() as int),
        0 < clamp_to(c.index as int, s.len() as int) < s.len(),
    ensures
        ({
            let i = clamp_to(c.index as int, s.len() as int);
            let (s1, c1) = previous_char_with(s, lens, c);
            let (s2, c2) = next_char_with(s1, lens1, c1);
            let b = start_of_cluster_before(lens, i);
            let e = end_of_cluster_after(lens1, b);
            &&& 0 <= b < i
            &&& s1 == remove_span(s, b, i)
            &&& b < e <= s1.len()
            &&& s2 == remove_span(s1, b, e)
            &&& c2.index == b
            &&& s2.len() <= s.len() - 2
        }),
{
    let i = clamp_to(c.index as int, s.len() as int);
    lemma_start_before(lens, s.len() as int, i, 0, 0);
    let b = start_of_cluster_before(lens, i);
    let (s1, c1) = previous_char_with(s, lens, c);
    assert(s1.len() == s.len() - (i - b));
    lemma_end_after(lens1, s1.len() as int, b, 0, 0);
}

/// The undo chord: the command key with no shift.
pub open spec fn undo_event(m: Modifiers) -> InputEvent {
    InputEvent::Key { key: Key::Z, pressed: true, modifiers: m }
}

/// An edit that starts a new undo step, from a selection within the text, is
/// undone by the undo chord, which restores the text and the selection from
/// before the edit; a redo then
/// restores the text and selection after it.
pub proof fn undo_reverts_edit_and_redo_repeats_it(
    os: OperatingSystem,
    s: Seq<char>,
    rows: Seq<(usize, usize)>,
    range: SelectionRange,
    h: HistoryView,
    ev: InputEvent,
    limit: int,
    t: u64,
    rows2: Seq<(usize, usize)>,
    m: Modifiers,
    rows3: Seq<(usize, usize)>,
    redo_key: Key,
    m2: Modifiers,
)
    requires
        range.within(s.len() as int),
        h.current == (range, s),
        !coalesces(h, t),
        handle_spec(os, s, rows, range, h, ev, limit).history == h,
        (handle_spec(os, s, rows, range, h, ev, limit).selection, handle_spec(os, s, rows, range, h, ev, limit).text) != (range, s),
        is_undo_chord(Key::Z, m),
        is_redo_chord(redo_key, m2),
    ensures
        ({
            let e1 = handle_spec(os, s, rows, range, h, ev, limit);
            let h1 = feed_spec(e1.history, t, (e1.selection, e1.text));
            let e2 = handle_spec(os, e1.text, rows2, e1.selection, h1, undo_event(m), limit);
            let e3 = handle_spec(
                os,
                e2.text,
                rows3,
                e2.selection,
                e2.history,
                InputEvent::Key { key: redo_key, pressed: true, modifiers: m2 },
                limit,
            );
            &&& e2.text == s
            &&& e2.selection == range
            &&& e2.dispatch == Dispatch::Mutated(range)
            &&& e3.text == e1.text
            &&& e3.selection == e1.selection
        }),
{
}

/// An edit made after an undo leaves nothing to redo: the redo chord then
/// changes neither the text nor the selection.
pub proof fn edit_after_undo_clears_redo(
    os: OperatingSystem,
    s: Seq<char>,
    rows: Seq<(usize, usize)>,
    range: SelectionRange,
    h: HistoryView,
    m: Modifiers,
    t2: u64,
    ev: InputEvent,
    rows3: Seq<(usize, usize)>,
    limit: int,
    t3: u64,
    rows4: Seq<(usize, usize)>,
    redo_key: Key,
    m2: Modifiers,
)
    requires
        h.current == (range, s),
        is_undo_chord(Key::Z, m),
        is_redo_chord(redo_key, m2),
    ensures
        ({
            let e1 = handle_spec(os, s, rows, range, h, undo_event(m), limit);
            let h2 = feed_spec(e1.history, t2, (e1.selection, e1.text));
            let e2 = handle_spec(os, e1.text, rows3, e1.selection, h2, ev, limit);
            let h3 = feed_spec(e2.history, t3, (e2.selection, e2.text));
            let e3 = handle_spec(
                os,
                e2.text,
                rows4,
                e2.selection,
                h3,
                InputEvent::Key { key: redo_key, pressed: true, modifiers: m2 },
                limit,
            );
            e2.history == h2 && (e2.selection, e2.text) != (e1.selection, e1.text) ==> {
                &&& e3.text == e2.text
                &&& e3.selection == e2.selection
                &&& e3.dispatch == Dispatch::Unhandled
            }
        }),
{
}

} // verus!
