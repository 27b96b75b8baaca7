//! Selections over the buffer, the row layout they are drawn against, and the
//! deletions that depend on either.
use vstd::prelude::*;

use crate::buffer::{
    line_start, clamp_span, clamp_to, next_char_result, previous_char_result, remove_span, CharBuffer, CharCursor,
};

verus! {

/// A pair of cursors: an insertion point when both stand at one offset, else
/// a selection whose direction is kept (the secondary end stays put while the
/// primary end moves).
#[derive(Clone, Copy, Debug, PartialEq, Eq, Structural)]
pub struct SelectionRange {
    pub primary: CharCursor,
    pub secondary: CharCursor,
}

impl SelectionRange {
    /// The lower of the two ends (the primary one when they are level).
    pub open spec fn sorted_min(self) -> CharCursor {
        if self.primary.index <= self.secondary.index {
            self.primary
        } else {
            self.secondary
        }
    }

    /// The upper of the two ends (the secondary one when they are level).
    pub open spec fn sorted_max(self) -> CharCursor {
        if self.primary.index <= self.secondary.index {
            self.secondary
        } else {
            self.primary
        }
    }

    pub open spec fn empty_spec(self) -> bool {
        self.primary.index == self.secondary.index
    }

    /// Both ends lie within a text of `len` characters.
    pub open spec fn within(self, len: int) -> bool {
        self.primary.index <= len && self.secondary.index <= len
    }

    /// Both ends clamped to a text of `len` characters.
    pub open spec fn clamped(self, len: int) -> SelectionRange {
        SelectionRange {
            primary: CharCursor {
                index: clamp_to(self.primary.index as int, len) as usize,
                prefer_next_row: self.primary.prefer_next_row,
            },
            secondary: CharCursor {
                index: clamp_to(self.secondary.index as int, len) as usize,
                prefer_next_row: self.secondary.prefer_next_row,
            },
        }
    }

    pub fn clamp_to_len(&self, len: usize) -> (r: SelectionRange)
        ensures
            r == self.clamped(len as int),
            r.within(len as int),
    {
        SelectionRange {
            primary: CharCursor {
                index: if self.primary.index < len { self.primary.index } else { len },
                prefer_next_row: self.primary.prefer_next_row,
            },
            secondary: CharCursor {
                index: if self.secondary.index < len { self.secondary.index } else { len },
                prefer_next_row: self.secondary.prefer_next_row,
            },
        }
    }

    pub fn one(c: CharCursor) -> (r: SelectionRange)
        ensures
            r.primary == c,
            r.secondary == c,
    {
        SelectionRange { primary: c, secondary: c }
    }

    pub fn two(secondary: CharCursor, primary: CharCursor) -> (r: SelectionRange)
        ensures
            r.primary == primary,
            r.secondary == secondary,
    {
        SelectionRange { primary, secondary }
    }

    pub fn is_empty(&self) -> (r: bool)
        ensures
            r == self.empty_spec(),
    {
        self.primary.index == self.secondary.index
    }

    /// The cursor, when the range is a plain insertion point.
    pub fn single(&self) -> (r: Option<CharCursor>)
        ensures
            r == (if self.empty_spec() {
                Some(self.primary)
            } else {
                None::<CharCursor>
            }),
    {
        if self.primary.index == self.secondary.index {
            Some(self.primary)
        } else {
            None
        }
    }

    pub fn sorted_cursors(&self) -> (r: (CharCursor, CharCursor))
        ensures
            r.0 == self.sorted_min(),
            r.1 == self.sorted_max(),
    {
        if self.primary.index <= self.secondary.index {
            (self.primary, self.secondary)
        } else {
            (self.secondary, self.primary)
        }
    }

    pub fn as_sorted_char_range(&self) -> (r: (usize, usize))
        ensures
            r.0 == self.sorted_min().index,
            r.1 == self.sorted_max().index,
            r.0 <= r.1,
    {
        if self.primary.index <= self.secondary.index {
            (self.primary.index, self.secondary.index)
        } else {
            (self.secondary.index, self.primary.index)
        }
    }

    /// The selected characters (the sorted span, clamped to the buffer).
    pub fn slice_str(&self, text: &CharBuffer) -> (r: Vec<char>)
        ensures
            ({
                let (a, b) = clamp_span(
                    self.sorted_min().index as int,
                    self.sorted_max().index as int,
                    text@.len() as int,
                );
                r@ == text@.subrange(a, b)
            }),
    {
        let (a, b) = self.as_sorted_char_range();
        text.char_range(a, b)
    }
}

/// The first row, from `from` on, whose end is not before offset `i`.
pub open spec fn first_row_reaching(rows: Seq<(usize, usize)>, i: int, from: int) -> int
    decreases rows.len() - from,
{
    if from >= rows.len() {
        rows.len() as int
    } else if i <= rows[from].1 {
        from
    } else {
        first_row_reaching(rows, i, from + 1)
    }
}

/// The visual row that a cursor at offset `i` is drawn on: the first row that
/// reaches `i`, or the next one when `i` is where that next row starts and
/// the cursor prefers the next row.
pub open spec fn visual_row(rows: Seq<(usize, usize)>, i: int, prefer_next_row: bool) -> int {
    let f = first_row_reaching(rows, i, 0);
    if prefer_next_row && f + 1 < rows.len() && rows[f + 1].0 == i {
        f + 1
    } else {
        f
    }
}

/// The rows of the lines that end (with a newline) within the first `i`
/// characters of `s`.
pub open spec fn closed_rows(s: Seq<char>, i: int) -> Seq<(usize, usize)>
    decreases i,
{
    if i <= 0 {
        Seq::empty()
    } else if s[i - 1] == '\n' {
        closed_rows(s, i - 1).push((line_start(s, i - 1) as usize, (i - 1) as usize))
    } else {
        closed_rows(s, i - 1)
    }
}

/// One row per line of `s`, with no wrapping.
pub open spec fn line_rows(s: Seq<char>) -> Seq<(usize, usize)> {
    closed_rows(s, s.len() as int).push((line_start(s, s.len() as int) as usize, s.len() as usize))
}

/// The rows of laid-out text, each a span `[start, end)` of characters,
/// without the newline that may end it.
pub struct RowLayout {
    pub rows: Vec<(usize, usize)>,
}

impl RowLayout {
    /// The rows cover a text of `len` characters in order: each row starts
    /// where the one before it ended (a soft wrap) or one past it (a newline).
    pub open spec fn wf_for(&self, len: int) -> bool {
        let rows = self.rows@;
        &&& rows.len() >= 1
        &&& rows[0].0 == 0
        &&& rows[rows.len() - 1].1 == len
        &&& forall|r: int| 0 <= r < rows.len() ==> #[trigger] rows[r].0 <= rows[r].1 && rows[r].1 <= len
        &&& forall|r: int|
            0 <= r < rows.len() - 1 ==> (#[trigger] rows[r + 1]).0 == rows[r].1 || rows[r + 1].0
                == rows[r].1 + 1
    }

    /// One row per line of `text`, with no wrapping.
    pub fn unwrapped(text: &CharBuffer) -> (r: RowLayout)
        ensures
            r.rows@ == line_rows(text@),
            r.wf_for(text@.len() as int),
            forall|q: int|
                0 <= q < r.rows@.len() - 1 ==> (#[trigger] r.rows@[q]).1 < text@.len() && text@[r.rows@[q].1 as int] == '\n'
                    && r.rows@[q + 1].0 == r.rows@[q].1 + 1,
            forall|q: int, j: int|
                0 <= q < r.rows@.len() && (#[trigger] r.rows@[q]).0 <= j < r.rows@[q].1 ==> #[trigger] text@[j] != '\n',
    {
        let s = text.as_chars();
        let len = s.len();
        let mut rows: Vec<(usize, usize)> = Vec::new();
        let mut start: usize = 0;
        let mut i: usize = 0;
        while i < len
            invariant
                len == s@.len() == text@.len(),
                start <= i <= len,
                rows@.len() == 0 ==> start == 0,
                rows@.len() > 0 ==> rows@[0].0 == 0 && start == rows@[rows@.len() - 1].1 + 1,
                forall|r: int| 0 <= r < rows@.len() ==> #[trigger] rows@[r].0 <= rows@[r].1,
                forall|r: int| 0 <= r < rows@.len() ==> (#[trigger] rows@[r]).1 < len && s@[rows@[r].1 as int] == '\n',
                forall|r: int| 0 <= r < rows@.len() - 1 ==> (#[trigger] rows@[r + 1]).0 == rows@[r].1 + 1,
                forall|q: int, j: int|
                    0 <= q < rows@.len() && (#[trigger] rows@[q]).0 <= j < rows@[q].1 ==> #[trigger] s@[j] != '\n',
                forall|j: int| start <= j < i ==> #[trigger] s@[j] != '\n',
                rows@ == closed_rows(s@, i as int),
                start == line_start(s@, i as int),
            decreases len - i,
        {
            if s[i] == '\n' {
                rows.push((start, i));
                start = i + 1;
            }
            i = i + 1;
        }
        rows.push((start, len));
        RowLayout { rows }
    }

    /// The visual row of cursor `c`.
    pub fn row_of(&self, c: CharCursor, len: usize) -> (r: usize)
        requires
            self.wf_for(len as int),
            c.index <= len,
        ensures
            r == visual_row(self.rows@, c.index as int, c.prefer_next_row),
            r < self.rows@.len(),
            self.rows@[r as int].0 <= c.index <= self.rows@[r as int].1,
    {
        let n = self.rows.len();
        let i = c.index;
        let mut f: usize = 0;
        while f < n && self.rows[f].1 < i
            invariant
                self.wf_for(len as int),
                n == self.rows@.len(),
                i <= len,
                f <= n,
                first_row_reaching(self.rows@, i as int, f as int) == first_row_reaching(self.rows@, i as int, 0),
                f > 0 ==> self.rows@[f - 1].1 < i,
            decreases n - f,
        {
            f = f + 1;
        }
        if f == n {
            assert(self.rows@[n - 1].1 < i);
        }
        assert(self.rows@[f as int].0 <= i) by {
            if f > 0 {
                assert(self.rows@[f - 1 + 1].0 == self.rows@[f - 1].1 || self.rows@[f - 1 + 1].0 == self.rows@[f - 1].1 + 1);
            }
        }
        if c.prefer_next_row && f + 1 < n && self.rows[f + 1].0 == i {
            f + 1
        } else {
            f
        }
    }
}

/// The start of the visual row of the lower end of `range`.
pub open spec fn paragraph_start(rows: Seq<(usize, usize)>, range: SelectionRange, len: int) -> int {
    let lo = range.sorted_min();
    rows[visual_row(rows, clamp_to(lo.index as int, len), lo.prefer_next_row)].0 as int
}

/// The end of the visual row of the upper end of `range`.
pub open spec fn paragraph_end(rows: Seq<(usize, usize)>, range: SelectionRange, len: int) -> int {
    let hi = range.sorted_max();
    rows[visual_row(rows, clamp_to(hi.index as int, len), hi.prefer_next_row)].1 as int
}

/// The text and cursor after deleting the selection `range`.
pub open spec fn selected_result(s: Seq<char>, range: SelectionRange) -> (Seq<char>, CharCursor) {
    if range.empty_spec() {
        (s, range.primary)
    } else {
        let (a, b) = clamp_span(range.sorted_min().index as int, range.sorted_max().index as int, s.len() as int);
        (remove_span(s, a, b), CharCursor { index: a as usize, prefer_next_row: true })
    }
}

/// The text and cursor after deleting back to the start of the visual row.
pub open spec fn paragraph_before_result(s: Seq<char>, rows: Seq<(usize, usize)>, range: SelectionRange) -> (Seq<char>, CharCursor) {
    let st = paragraph_start(rows, range, s.len() as int);
    let hi = clamp_to(range.sorted_max().index as int, s.len() as int);
    if st == hi {
        previous_char_result(s, CharCursor { index: st as usize, prefer_next_row: true })
    } else {
        (remove_span(s, st, hi), CharCursor { index: st as usize, prefer_next_row: true })
    }
}

/// The text and cursor after deleting up to the end of the visual row.
pub open spec fn paragraph_after_result(s: Seq<char>, rows: Seq<(usize, usize)>, range: SelectionRange) -> (Seq<char>, CharCursor) {
    let en = paragraph_end(rows, range, s.len() as int);
    let lo = clamp_to(range.sorted_min().index as int, s.len() as int);
    if en == lo {
        next_char_result(s, CharCursor { index: lo as usize, prefer_next_row: true })
    } else {
        (remove_span(s, lo, en), CharCursor { index: lo as usize, prefer_next_row: true })
    }
}

impl CharBuffer {
    /// Deletes the selected span and returns a cursor at its start; an empty
    /// selection deletes nothing and gives back its primary cursor.
    pub fn delete_selected(&mut self, range: &SelectionRange) -> (r: CharCursor)
        ensures
            (final(self)@, r) == selected_result(old(self)@, *range),
    {
        let (lo, hi) = range.as_sorted_char_range();
        if lo == hi {
            range.primary
        } else {
            let len = self.char_len();
            let e = if hi < len { hi } else { len };
            let a = if lo < e { lo } else { e };
            self.delete_char_range(lo, hi);
            CharCursor { index: a, prefer_next_row: true }
        }
    }

    /// Deletes from the start of the visual row of the selection's lower end
    /// to its upper end; where that span is empty, deletes the character
    /// before it instead.
    pub fn delete_paragraph_before_cursor(&mut self, layout: &RowLayout, range: &SelectionRange) -> (r: CharCursor)
        requires
            layout.wf_for(old(self)@.len() as int),
        ensures
            (final(self)@, r) == paragraph_before_result(old(self)@, layout.rows@, *range),
            paragraph_start(layout.rows@, *range, old(self)@.len() as int) <= clamp_to(range.sorted_max().index as int, old(self)@.len() as int),
    {
        let len = self.char_len();
        let (lo, hi) = range.sorted_cursors();
        let lo_i = if lo.index < len { lo.index } else { len };
        let hi_i = if hi.index < len { hi.index } else { len };
        let row = layout.row_of(CharCursor { index: lo_i, prefer_next_row: lo.prefer_next_row }, len);
        let st = layout.rows[row].0;
        if st == hi_i {
            self.delete_previous_char(CharCursor { index: st, prefer_next_row: true })
        } else {
            self.delete_char_range(st, hi_i);
            CharCursor { index: st, prefer_next_row: true }
        }
    }

    /// Deletes from the selection's lower end to the end of the visual row of
    /// its upper end; where that span is empty, deletes the character after
    /// it instead.
    pub fn delete_paragraph_after_cursor(&mut self, layout: &RowLayout, range: &SelectionRange) -> (r: CharCursor)
        requires
            layout.wf_for(old(self)@.len() as int),
        ensures
            (final(self)@, r) == paragraph_after_result(old(self)@, layout.rows@, *range),
            clamp_to(range.sorted_min().index as int, old(self)@.len() as int) <= paragraph_end(layout.rows@, *range, old(self)@.len() as int),
    {
        let len = self.char_len();
        let (lo, hi) = range.sorted_cursors();
        let lo_i = if lo.index < len { lo.index } else { len };
        let hi_i = if hi.index < len { hi.index } else { len };
        let row = layout.row_of(CharCursor { index: hi_i, prefer_next_row: hi.prefer_next_row }, len);
        let en = layout.rows[row].1;
        if en == lo_i {
            self.delete_next_char(CharCursor { index: lo_i, prefer_next_row: true })
        } else {
            self.delete_char_range(lo_i, en);
            CharCursor { index: lo_i, prefer_next_row: true }
        }
    }
}

} // verus!
