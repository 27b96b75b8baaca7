//! The character buffer and the mutations that the editor performs on it.
use unicode_segmentation::UnicodeSegmentation;
use vstd::prelude::*;

verus! {

/// A position in a buffer, counted in characters, with the row affinity that
/// decides where a cursor at a soft-wrap boundary is drawn.
#[derive(Clone, Copy, Debug, PartialEq, Eq, Structural)]
pub struct CharCursor {
    pub index: usize,
    pub prefer_next_row: bool,
}

impl CharCursor {
    pub fn new(index: usize) -> (r: CharCursor)
        ensures
            r.index == index,
            !r.prefer_next_row,
    {
        CharCursor { index, prefer_next_row: false }
    }
}

/// `i` clamped to the buffer length `len`.
pub open spec fn clamp_to(i: int, len: int) -> int {
    if i < len {
        i
    } else {
        len
    }
}

/// `s` with the span `[a, b)` replaced by `t`.
pub open spec fn splice(s: Seq<char>, a: int, b: int, t: Seq<char>) -> Seq<char> {
    s.subrange(0, a) + t + s.subrange(b, s.len() as int)
}

/// `s` with the span `[a, b)` removed.
pub open spec fn remove_span(s: Seq<char>, a: int, b: int) -> Seq<char> {
    splice(s, a, b, Seq::empty())
}

/// How many characters of a text of `text_len` characters fit into a buffer
/// of `len` characters whose length may not exceed `max_chars`.
pub open spec fn insert_count(len: int, text_len: int, max_chars: int) -> int {
    if max_chars <= len {
        0
    } else if text_len <= max_chars - len {
        text_len
    } else {
        max_chars - len
    }
}

/// The span `[a, b)` clamped into a buffer of length `len` and put in order:
/// the end is clamped first, then the start is clamped to the end.
pub open spec fn clamp_span(a: int, b: int, len: int) -> (int, int) {
    let e = clamp_to(b, len);
    (clamp_to(a, e), e)
}

/// Builds `s[..a] + t[..k] + s[b..]`.
fn splice_chars(s: &Vec<char>, a: usize, b: usize, t: &Vec<char>, k: usize) -> (r: Vec<char>)
    requires
        a <= b <= s@.len(),
        k <= t@.len(),
        s@.len() - (b - a) + k <= usize::MAX,
    ensures
        r@ == splice(s@, a as int, b as int, t@.subrange(0, k as int)),
{
    let mut r: Vec<char> = Vec::new();
    let mut i: usize = 0;
    while i < a
        invariant
            i <= a <= s@.len(),
            r@ == s@.subrange(0, i as int),
        decreases a - i,
    {
        r.push(s[i]);
        i = i + 1;
        assert(r@ =~= s@.subrange(0, i as int));
    }
    let mut j: usize = 0;
    while j < k
        invariant
            j <= k <= t@.len(),
            r@ == s@.subrange(0, a as int) + t@.subrange(0, j as int),
        decreases k - j,
    {
        r.push(t[j]);
        j = j + 1;
        assert(r@ =~= s@.subrange(0, a as int) + t@.subrange(0, j as int));
    }
    let mut m: usize = b;
    while m < s.len()
        invariant
            b <= m <= s@.len(),
            r@ == s@.subrange(0, a as int) + t@.subrange(0, k as int) + s@.subrange(b as int, m as int),
        decreases s@.len() - m,
    {
        r.push(s[m]);
        m = m + 1;
        assert(r@ =~= s@.subrange(0, a as int) + t@.subrange(0, k as int) + s@.subrange(b as int, m as int));
    }
    r
}

/// The whitespace class that separates words: the characters with the
/// Unicode White_Space property.
pub open spec fn is_blank(c: char) -> bool {
    let u = c as u32;
    (0x09 <= u && u <= 0x0D) || u == 0x20 || u == 0x85 || u == 0xA0 || u == 0x1680 || (0x2000 <= u
        && u <= 0x200A) || u == 0x2028 || u == 0x2029 || u == 0x202F || u == 0x205F || u == 0x3000
}

/// Whether `c` is whitespace (has the Unicode White_Space property).
pub fn char_is_blank(c: char) -> (r: bool)
    ensures
        r == is_blank(c),
{
    let u = c as u32;
    (0x09 <= u && u <= 0x0D) || u == 0x20 || u == 0x85 || u == 0xA0 || u == 0x1680 || (0x2000 <= u
        && u <= 0x200A) || u == 0x2028 || u == 0x2029 || u == 0x202F || u == 0x205F || u == 0x3000
}

/// Moving left from `i`, the first offset whose left neighbour is not
/// whitespace (or 0).
pub open spec fn skip_blank_left(s: Seq<char>, i: int) -> int
    decreases i,
{
    if i <= 0 {
        0
    } else if is_blank(s[i - 1]) {
        skip_blank_left(s, i - 1)
    } else {
        i
    }
}

/// Moving left from `i`, the first offset whose left neighbour is whitespace
/// (or 0).
pub open spec fn skip_word_left(s: Seq<char>, i: int) -> int
    decreases i,
{
    if i <= 0 {
        0
    } else if !is_blank(s[i - 1]) {
        skip_word_left(s, i - 1)
    } else {
        i
    }
}

/// Moving right from `i`, the first offset whose character is not whitespace
/// (or the end).
pub open spec fn skip_blank_right(s: Seq<char>, i: int) -> int
    decreases s.len() - i,
{
    if i >= s.len() {
        s.len() as int
    } else if is_blank(s[i]) {
        skip_blank_right(s, i + 1)
    } else {
        i
    }
}

/// Moving right from `i`, the first offset whose character is whitespace
/// (or the end).
pub open spec fn skip_word_right(s: Seq<char>, i: int) -> int
    decreases s.len() - i,
{
    if i >= s.len() {
        s.len() as int
    } else if !is_blank(s[i]) {
        skip_word_right(s, i + 1)
    } else {
        i
    }
}

/// The word boundary before `i`: whitespace left of `i` is crossed, then the
/// word before it.
pub open spec fn previous_word_boundary(s: Seq<char>, i: int) -> int {
    skip_word_left(s, skip_blank_left(s, i))
}

/// The word boundary after `i`: whitespace right of `i` is crossed, then the
/// word after it.
pub open spec fn next_word_boundary(s: Seq<char>, i: int) -> int {
    skip_word_right(s, skip_blank_right(s, i))
}

/// The offset of the first character of the line that holds offset `i`.
pub open spec fn line_start(s: Seq<char>, i: int) -> int
    decreases i,
{
    if i <= 0 {
        0
    } else if s[i - 1] == '\n' {
        i
    } else {
        line_start(s, i - 1)
    }
}

/// How many leading spaces, at most `n`, stand at offset `i`.
pub open spec fn leading_spaces(s: Seq<char>, i: int, n: int) -> int
    decreases n,
{
    if n <= 0 || i >= s.len() || s[i] != ' ' {
        0
    } else {
        1 + leading_spaces(s, i + 1, n - 1)
    }
}

/// The number of indentation characters that one outdent removes from the
/// line starting at `i`: one tab, or the leading spaces up to a tab's width.
pub open spec fn outdent_len(s: Seq<char>, i: int) -> int {
    if i < s.len() && s[i] == '\t' {
        1
    } else {
        leading_spaces(s, i, TAB_WIDTH as int)
    }
}

proof fn lemma_leading_spaces_bounds(s: Seq<char>, i: int, n: int)
    requires
        0 <= i <= s.len(),
        0 <= n,
    ensures
        0 <= leading_spaces(s, i, n) <= n,
        i + leading_spaces(s, i, n) <= s.len(),
    decreases n,
{
    if n > 0 && i < s.len() && s[i] == ' ' {
        lemma_leading_spaces_bounds(s, i + 1, n - 1);
    }
}

/// The text and cursor after inserting `text` at `c` within a limit of
/// `max_chars` characters.
pub open spec fn insert_result(s: Seq<char>, c: CharCursor, text: Seq<char>, max_chars: int) -> (Seq<char>, CharCursor) {
    let i = clamp_to(c.index as int, s.len() as int);
    let k = insert_count(s.len() as int, text.len() as int, max_chars);
    (splice(s, i, i, text.subrange(0, k)), CharCursor { index: (i + k) as usize, prefer_next_row: c.prefer_next_row })
}

/// The lengths, in characters, of the extended grapheme clusters of `s`, in
/// order.
pub uninterp spec fn grapheme_lens(s: Seq<char>) -> Seq<usize>;

/// The total length of the first `k` clusters.
pub open spec fn lens_sum(lens: Seq<usize>, k: int) -> int
    decreases k,
{
    if k <= 0 {
        0
    } else {
        lens_sum(lens, k - 1) + lens[k - 1]
    }
}

/// `lens` cuts a text of `len` characters into non-empty clusters.
pub open spec fn partitions(lens: Seq<usize>, len: int) -> bool {
    &&& forall|k: int| 0 <= k < lens.len() ==> #[trigger] lens[k] >= 1
    &&& lens_sum(lens, lens.len() as int) == len
}

/// From cluster `k` on, which starts at offset `pos`: the start of the
/// cluster that holds the character before offset `i`.
pub open spec fn start_before_from(lens: Seq<usize>, i: int, k: int, pos: int) -> int
    decreases lens.len() - k,
{
    if k >= lens.len() || pos + lens[k] >= i {
        pos
    } else {
        start_before_from(lens, i, k + 1, pos + lens[k])
    }
}

/// From cluster `k` on, which starts at offset `pos`: the end of the cluster
/// that holds the character at offset `i`.
pub open spec fn end_after_from(lens: Seq<usize>, i: int, k: int, pos: int) -> int
    decreases lens.len() - k,
{
    if k >= lens.len() {
        pos
    } else if pos + lens[k] > i {
        pos + lens[k]
    } else {
        end_after_from(lens, i, k + 1, pos + lens[k])
    }
}

/// The cluster boundary before offset `i`.
pub open spec fn start_of_cluster_before(lens: Seq<usize>, i: int) -> int {
    start_before_from(lens, i, 0, 0)
}

/// The cluster boundary after offset `i`.
pub open spec fn end_of_cluster_after(lens: Seq<usize>, i: int) -> int {
    end_after_from(lens, i, 0, 0)
}

/// The text and cursor after deleting the cluster before `c`, where `lens`
/// are the text's cluster lengths.
pub open spec fn previous_char_with(s: Seq<char>, lens: Seq<usize>, c: CharCursor) -> (Seq<char>, CharCursor) {
    let i = clamp_to(c.index as int, s.len() as int);
    if i > 0 {
        let b = start_of_cluster_before(lens, i);
        (remove_span(s, b, i), CharCursor { index: b as usize, prefer_next_row: true })
    } else {
        (s, CharCursor { index: 0, prefer_next_row: c.prefer_next_row })
    }
}

/// The text and cursor after deleting the cluster after `c`, where `lens`
/// are the text's cluster lengths.
pub open spec fn next_char_with(s: Seq<char>, lens: Seq<usize>, c: CharCursor) -> (Seq<char>, CharCursor) {
    let i = clamp_to(c.index as int, s.len() as int);
    (
        if i < s.len() { remove_span(s, i, end_of_cluster_after(lens, i)) } else { s },
        CharCursor { index: i as usize, prefer_next_row: true },
    )
}

/// The text and cursor after deleting the user-perceived character (the
/// grapheme cluster) before `c`.
pub open spec fn previous_char_result(s: Seq<char>, c: CharCursor) -> (Seq<char>, CharCursor) {
    previous_char_with(s, grapheme_lens(s), c)
}

/// The text and cursor after deleting the user-perceived character (the
/// grapheme cluster) after `c`.
pub open spec fn next_char_result(s: Seq<char>, c: CharCursor) -> (Seq<char>, CharCursor) {
    next_char_with(s, grapheme_lens(s), c)
}

proof fn lemma_lens_sum_monotone(lens: Seq<usize>, j: int, k: int)
    requires
        0 <= j <= k <= lens.len(),
    ensures
        lens_sum(lens, j) <= lens_sum(lens, k),
    decreases k - j,
{
    if j < k {
        lemma_lens_sum_monotone(lens, j, k - 1);
    }
}

/// The cluster boundary before a positive offset within the text lies
/// before it.
pub proof fn lemma_start_before(lens: Seq<usize>, len: int, i: int, k: int, pos: int)
    requires
        partitions(lens, len),
        0 <= k <= lens.len(),
        pos == lens_sum(lens, k),
        0 < i <= len,
        0 <= pos < i,
    ensures
        pos <= start_before_from(lens, i, k, pos) < i,
    decreases lens.len() - k,
{
    if k >= lens.len() {
    } else if pos + lens[k] >= i {
    } else {
        lemma_start_before(lens, len, i, k + 1, pos + lens[k]);
    }
}

/// The cluster boundary after an offset before the end of the text lies
/// after it, within the text.
pub proof fn lemma_end_after(lens: Seq<usize>, len: int, i: int, k: int, pos: int)
    requires
        partitions(lens, len),
        0 <= k <= lens.len(),
        pos == lens_sum(lens, k),
        0 <= pos <= i < len,
    ensures
        i < end_after_from(lens, i, k, pos) <= len,
    decreases lens.len() - k,
{
    if k >= lens.len() {
    } else if pos + lens[k] > i {
        lemma_lens_sum_monotone(lens, k + 1, lens.len() as int);
    } else {
        lemma_end_after(lens, len, i, k + 1, pos + lens[k]);
    }
}

/// Relies on unicode_segmentation's `graphemes(true)`: the extended grapheme
/// clusters of a text, which are non-empty and make up the text in order.
#[verifier::external_body]
fn grapheme_lengths(text: &Vec<char>) -> (r: Vec<usize>)
    ensures
        r@ == grapheme_lens(text@),
        partitions(r@, text@.len() as int),
{
    let s: String = text.iter().collect();
    s.graphemes(true).map(|g| g.chars().count()).collect()
}

/// The cluster boundary before offset `i`, for a text of `len` characters
/// cut into clusters of lengths `lens`: the start of the cluster that holds
/// the character before `i`.
pub fn cluster_start_before(lens: &Vec<usize>, i: usize, len: usize) -> (r: usize)
    requires
        partitions(lens@, len as int),
        i <= len,
    ensures
        r == start_of_cluster_before(lens@, i as int),
        i > 0 ==> r < i,
        i == 0 ==> r == 0,
{
    let mut k: usize = 0;
    let mut pos: usize = 0;
    proof {
        if 0 < lens@.len() {
            lemma_lens_sum_monotone(lens@, 1, lens@.len() as int);
            assert(lens_sum(lens@, 1) == lens_sum(lens@, 0) + lens@[0]);
        }
    }
    while k < lens.len() && pos + lens[k] < i
        invariant
            partitions(lens@, len as int),
            k <= lens@.len(),
            pos == lens_sum(lens@, k as int),
            i <= len,
            i > 0 ==> pos < i,
            i == 0 ==> pos == 0,
            k < lens@.len() ==> pos + lens@[k as int] <= len,
            start_before_from(lens@, i as int, k as int, pos as int) == start_of_cluster_before(lens@, i as int),
        decreases lens@.len() - k,
    {
        pos = pos + lens[k];
        k = k + 1;
        proof {
            if k < lens@.len() {
                lemma_lens_sum_monotone(lens@, k + 1, lens@.len() as int);
                assert(lens_sum(lens@, k + 1) == lens_sum(lens@, k as int) + lens@[k as int]);
            }
        }
    }
    proof {
        if k < lens@.len() {
            lemma_lens_sum_monotone(lens@, k + 1, lens@.len() as int);
        }
    }
    pos
}

/// The cluster boundary after offset `i`, for a text of `len` characters cut
/// into clusters of lengths `lens`: the end of the cluster that holds the
/// character at `i`.
pub fn cluster_end_after(lens: &Vec<usize>, i: usize, len: usize) -> (r: usize)
    requires
        partitions(lens@, len as int),
        i < len,
    ensures
        r == end_of_cluster_after(lens@, i as int),
        i < r <= len,
{
    let mut k: usize = 0;
    let mut pos: usize = 0;
    proof {
        if 0 < lens@.len() {
            lemma_lens_sum_monotone(lens@, 1, lens@.len() as int);
            assert(lens_sum(lens@, 1) == lens_sum(lens@, 0) + lens@[0]);
        }
    }
    while k < lens.len() && pos + lens[k] <= i
        invariant
            partitions(lens@, len as int),
            k <= lens@.len(),
            pos == lens_sum(lens@, k as int),
            pos <= i < len,
            k < lens@.len() ==> pos + lens@[k as int] <= len,
            end_after_from(lens@, i as int, k as int, pos as int) == end_of_cluster_after(lens@, i as int),
        decreases lens@.len() - k,
    {
        pos = pos + lens[k];
        k = k + 1;
        proof {
            if k < lens@.len() {
                lemma_lens_sum_monotone(lens@, k + 1, lens@.len() as int);
                assert(lens_sum(lens@, k + 1) == lens_sum(lens@, k as int) + lens@[k as int]);
            }
        }
    }
    pos + lens[k]
}

/// The text and cursor after deleting back to the previous word boundary.
pub open spec fn previous_word_result(s: Seq<char>, c: CharCursor) -> (Seq<char>, CharCursor) {
    let i = clamp_to(c.index as int, s.len() as int);
    let w = previous_word_boundary(s, i);
    (remove_span(s, w, i), CharCursor { index: w as usize, prefer_next_row: true })
}

/// The text and cursor after deleting up to the next word boundary.
pub open spec fn next_word_result(s: Seq<char>, c: CharCursor) -> (Seq<char>, CharCursor) {
    let i = clamp_to(c.index as int, s.len() as int);
    let w = next_word_boundary(s, i);
    (remove_span(s, i, w), CharCursor { index: i as usize, prefer_next_row: true })
}

/// The text and cursor after one outdent of the line that holds `c`.
pub open spec fn outdent_result(s: Seq<char>, c: CharCursor) -> (Seq<char>, CharCursor) {
    let i = clamp_to(c.index as int, s.len() as int);
    let st = line_start(s, i);
    let n = outdent_len(s, st);
    (
        remove_span(s, st, st + n),
        CharCursor { index: (if i - n < st { st } else { i - n }) as usize, prefer_next_row: c.prefer_next_row },
    )
}

/// The number of spaces that stand for one level of indentation.
pub const TAB_WIDTH: usize = 4;

/// An owned, mutable sequence of characters: the text of one document.
pub struct CharBuffer {
    pub chars: Vec<char>,
}

impl View for CharBuffer {
    type V = Seq<char>;

    open spec fn view(&self) -> Seq<char> {
        self.chars@
    }
}

impl CharBuffer {
    pub fn new() -> (r: CharBuffer)
        ensures
            r@ == Seq::<char>::empty(),
    {
        CharBuffer { chars: Vec::new() }
    }

    pub fn from_chars(chars: Vec<char>) -> (r: CharBuffer)
        ensures
            r@ == chars@,
    {
        CharBuffer { chars }
    }

    pub fn char_len(&self) -> (r: usize)
        ensures
            r == self@.len(),
    {
        self.chars.len()
    }

    pub fn as_chars(&self) -> (r: &Vec<char>)
        ensures
            r@ == self@,
    {
        &self.chars
    }

    /// Inserts as much of `text` at `cursor` as keeps the buffer within
    /// `max_chars` characters, and moves the cursor past what was inserted.
    pub fn insert_text_at(&mut self, cursor: &mut CharCursor, text: &Vec<char>, max_chars: usize)
        ensures
            (final(self)@, *final(cursor)) == insert_result(old(self)@, *old(cursor), text@, max_chars as int),
    {
        let len = self.chars.len();
        let c = if cursor.index < len { cursor.index } else { len };
        let k: usize = if max_chars <= len {
            0
        } else if text.len() <= max_chars - len {
            text.len()
        } else {
            max_chars - len
        };
        self.chars = splice_chars(&self.chars, c, c, text, k);
        cursor.index = c + k;
    }

    /// Removes the characters of the clamped span `[start, end)`.
    pub fn delete_char_range(&mut self, start: usize, end: usize)
        ensures
            ({
                let (a, b) = clamp_span(start as int, end as int, old(self)@.len() as int);
                final(self)@ == remove_span(old(self)@, a, b)
            }),
    {
        let len = self.chars.len();
        let e = if end < len { end } else { len };
        let a = if start < e { start } else { e };
        let empty: Vec<char> = Vec::new();
        self.chars = splice_chars(&self.chars, a, e, &empty, 0);
        proof {
            assert(empty@.subrange(0, 0) =~= Seq::<char>::empty());
        }
    }

    /// The characters of the clamped span `[start, end)`.
    pub fn char_range(&self, start: usize, end: usize) -> (r: Vec<char>)
        ensures
            ({
                let (a, b) = clamp_span(start as int, end as int, self@.len() as int);
                r@ == self@.subrange(a, b)
            }),
    {
        let len = self.chars.len();
        let e = if end < len { end } else { len };
        let a = if start < e { start } else { e };
        let mut r: Vec<char> = Vec::new();
        let mut i: usize = a;
        while i < e
            invariant
                a <= i <= e <= self@.len(),
                r@ == self@.subrange(a as int, i as int),
            decreases e - i,
        {
            r.push(self.chars[i]);
            i = i + 1;
            assert(r@ =~= self@.subrange(a as int, i as int));
        }
        r
    }

    /// Deletes the cluster before the cursor, where `lens` are the text's
    /// cluster lengths; at the start of the buffer nothing is deleted.
    pub fn delete_previous_char_with(&mut self, lens: &Vec<usize>, cursor: CharCursor) -> (r: CharCursor)
        requires
            partitions(lens@, old(self)@.len() as int),
        ensures
            (final(self)@, r) == previous_char_with(old(self)@, lens@, cursor),
    {
        let len = self.chars.len();
        let c = if cursor.index < len { cursor.index } else { len };
        if c > 0 {
            let b = cluster_start_before(lens, c, len);
            self.delete_char_range(b, c);
            CharCursor { index: b, prefer_next_row: true }
        } else {
            CharCursor { index: 0, prefer_next_row: cursor.prefer_next_row }
        }
    }

    /// Deletes the cluster after the cursor, where `lens` are the text's
    /// cluster lengths; at the end of the buffer nothing is deleted.
    pub fn delete_next_char_with(&mut self, lens: &Vec<usize>, cursor: CharCursor) -> (r: CharCursor)
        requires
            partitions(lens@, old(self)@.len() as int),
        ensures
            (final(self)@, r) == next_char_with(old(self)@, lens@, cursor),
    {
        let len = self.chars.len();
        let c = if cursor.index < len { cursor.index } else { len };
        if c < len {
            let e = cluster_end_after(lens, c, len);
            self.delete_char_range(c, e);
        }
        CharCursor { index: c, prefer_next_row: true }
    }

    /// Deletes the user-perceived character before the cursor; at the start
    /// of the buffer nothing is deleted.
    pub fn delete_previous_char(&mut self, cursor: CharCursor) -> (r: CharCursor)
        ensures
            (final(self)@, r) == previous_char_result(old(self)@, cursor),
    {
        let lens = grapheme_lengths(&self.chars);
        self.delete_previous_char_with(&lens, cursor)
    }

    /// Deletes the user-perceived character after the cursor; at the end of
    /// the buffer nothing is deleted.
    pub fn delete_next_char(&mut self, cursor: CharCursor) -> (r: CharCursor)
        ensures
            (final(self)@, r) == next_char_result(old(self)@, cursor),
    {
        let lens = grapheme_lengths(&self.chars);
        self.delete_next_char_with(&lens, cursor)
    }

    /// The word boundary before offset `i` (clamped).
    pub fn previous_word_boundary(&self, i: usize) -> (r: usize)
        ensures
            r == previous_word_boundary(self@, clamp_to(i as int, self@.len() as int)),
            r <= clamp_to(i as int, self@.len() as int),
    {
        let len = self.chars.len();
        let c = if i < len { i } else { len };
        let mut j: usize = c;
        while j > 0 && char_is_blank(self.chars[j - 1])
            invariant
                j <= c <= self@.len(),
                skip_blank_left(self@, j as int) == skip_blank_left(self@, c as int),
            decreases j,
        {
            j = j - 1;
        }
        let ghost b = j;
        while j > 0 && !char_is_blank(self.chars[j - 1])
            invariant
                j <= b <= c <= self@.len(),
                skip_blank_left(self@, c as int) == b,
                skip_word_left(self@, j as int) == skip_word_left(self@, b as int),
            decreases j,
        {
            j = j - 1;
        }
        j
    }

    /// The word boundary after offset `i` (clamped).
    pub fn next_word_boundary(&self, i: usize) -> (r: usize)
        ensures
            r == next_word_boundary(self@, clamp_to(i as int, self@.len() as int)),
            clamp_to(i as int, self@.len() as int) <= r <= self@.len(),
    {
        let len = self.chars.len();
        let c = if i < len { i } else { len };
        let mut j: usize = c;
        while j < len && char_is_blank(self.chars[j])
            invariant
                c <= j <= len == self@.len(),
                skip_blank_right(self@, j as int) == skip_blank_right(self@, c as int),
            decreases len - j,
        {
            j = j + 1;
        }
        let ghost b = j;
        while j < len && !char_is_blank(self.chars[j])
            invariant
                c <= b <= j <= len == self@.len(),
                skip_blank_right(self@, c as int) == b,
                skip_word_right(self@, j as int) == skip_word_right(self@, b as int),
            decreases len - j,
        {
            j = j + 1;
        }
        j
    }

    /// Deletes from the previous word boundary up to the cursor.
    pub fn delete_previous_word(&mut self, cursor: CharCursor) -> (r: CharCursor)
        ensures
            (final(self)@, r) == previous_word_result(old(self)@, cursor),
    {
        let len = self.chars.len();
        let c = if cursor.index < len { cursor.index } else { len };
        let w = self.previous_word_boundary(c);
        self.delete_char_range(w, c);
        CharCursor { index: w, prefer_next_row: true }
    }

    /// Deletes from the cursor up to the next word boundary.
    pub fn delete_next_word(&mut self, cursor: CharCursor) -> (r: CharCursor)
        ensures
            (final(self)@, r) == next_word_result(old(self)@, cursor),
    {
        let len = self.chars.len();
        let c = if cursor.index < len { cursor.index } else { len };
        let w = self.next_word_boundary(c);
        self.delete_char_range(c, w);
        CharCursor { index: c, prefer_next_row: true }
    }

    /// The start of the line that holds offset `i` (clamped).
    pub fn line_start(&self, i: usize) -> (r: usize)
        ensures
            r == line_start(self@, clamp_to(i as int, self@.len() as int)),
            r <= clamp_to(i as int, self@.len() as int),
    {
        let len = self.chars.len();
        let c = if i < len { i } else { len };
        let mut j: usize = c;
        while j > 0 && self.chars[j - 1] != '\n'
            invariant
                j <= c <= self@.len(),
                line_start(self@, j as int) == line_start(self@, c as int),
            decreases j,
        {
            j = j - 1;
        }
        j
    }

    /// Removes one level of indentation from the line that holds the cursor:
    /// a leading tab, or up to a tab's width of leading spaces. The cursor
    /// keeps its place in the text, or moves to the line start if the removed
    /// characters held it.
    pub fn decrease_indentation(&mut self, cursor: &mut CharCursor)
        ensures
            (final(self)@, *final(cursor)) == outdent_result(old(self)@, *old(cursor)),
    {
        let len = self.chars.len();
        let c = if cursor.index < len { cursor.index } else { len };
        let st = self.line_start(c);
        let n: usize = if st < len && self.chars[st] == '\t' {
            1
        } else {
            let mut k: usize = 0;
            while k < TAB_WIDTH && st + k < len && self.chars[st + k] == ' '
                invariant
                    k <= TAB_WIDTH,
                    st <= len == self@.len(),
                    st + k <= len,
                    leading_spaces(self@, st as int, TAB_WIDTH as int) == k + leading_spaces(
                        self@,
                        st + k,
                        TAB_WIDTH - k,
                    ),
                decreases TAB_WIDTH - k,
            {
                k = k + 1;
            }
            k
        };
        proof {
            lemma_leading_spaces_bounds(self@, st as int, TAB_WIDTH as int);
        }
        self.delete_char_range(st, st + n);
        cursor.index = if c - st < n { st } else { c - n };
    }

    /// Empties the buffer and hands back what it held.
    pub fn take(&mut self) -> (r: Vec<char>)
        ensures
            r@ == old(self)@,
            final(self)@ == Seq::<char>::empty(),
    {
        let mut r: Vec<char> = Vec::new();
        std::mem::swap(&mut r, &mut self.chars);
        r
    }

    /// Replaces the whole text.
    pub fn replace_with(&mut self, text: Vec<char>)
        ensures
            final(self)@ == text@,
    {
        self.chars = text;
    }
}

} // verus!
