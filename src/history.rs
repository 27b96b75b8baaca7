//! The undo/redo history: snapshots of (selection, text), coalesced in time.
use vstd::prelude::*;

use crate::selection::SelectionRange;

verus! {

/// A snapshot as the contracts see it.
pub type Snap = (SelectionRange, Seq<char>);

/// A selection together with the full text it was taken on.
pub struct Snapshot {
    pub selection: SelectionRange,
    pub text: Vec<char>,
}

impl View for Snapshot {
    type V = Snap;

    open spec fn view(&self) -> Snap {
        (self.selection, self.text@)
    }
}

impl Snapshot {
    pub fn new(selection: SelectionRange, text: Vec<char>) -> (r: Snapshot)
        ensures
            r@ == (selection, text@),
    {
        Snapshot { selection, text }
    }

    /// A copy of this snapshot.
    pub fn duplicate(&self) -> (r: Snapshot)
        ensures
            r@ == self@,
    {
        let mut text: Vec<char> = Vec::new();
        let mut i: usize = 0;
        while i < self.text.len()
            invariant
                i <= self.text@.len(),
                text@ == self.text@.subrange(0, i as int),
            decreases self.text@.len() - i,
        {
            text.push(self.text[i]);
            i = i + 1;
            assert(text@ =~= self.text@.subrange(0, i as int));
        }
        assert(text@ =~= self.text@);
        Snapshot { selection: self.selection, text }
    }

    /// Whether two snapshots hold the same selection and text.
    pub fn same_as(&self, other: &Snapshot) -> (r: bool)
        ensures
            r == (self@ == other@),
    {
        if self.selection != other.selection || self.text.len() != other.text.len() {
            return false;
        }
        let mut i: usize = 0;
        while i < self.text.len()
            invariant
                i <= self.text@.len() == other.text@.len(),
                forall|j: int| 0 <= j < i ==> self.text@[j] == other.text@[j],
            decreases self.text@.len() - i,
        {
            if self.text[i] != other.text[i] {
                return false;
            }
            i = i + 1;
        }
        assert(self.text@ =~= other.text@);
        true
    }
}

/// The history as the contracts see it.
pub struct HistoryView {
    /// States to go back to, oldest first.
    pub undos: Seq<Snap>,
    /// States to go forward to, the next one last.
    pub redos: Seq<Snap>,
    /// The state that was last fed.
    pub current: Snap,
    /// When `current` was fed.
    pub last_change: u64,
    /// Whether a step is still open to coalesce further changes into.
    pub open: bool,
    /// The longest gap between two changes of one step.
    pub debounce: u64,
}

/// Whether a change at time `t` joins the open step of `h`.
pub open spec fn coalesces(h: HistoryView, t: u64) -> bool {
    h.open && h.last_change <= t && t - h.last_change <= h.debounce
}

/// The history after the state `s` is fed at time `t`: an unchanged state is
/// ignored; a change clears the redo stack and either joins the open step or
/// starts a new one, which records the state before it.
pub open spec fn feed_spec(h: HistoryView, t: u64, s: Snap) -> HistoryView {
    if s == h.current {
        h
    } else if coalesces(h, t) {
        HistoryView { redos: Seq::empty(), current: s, last_change: t, ..h }
    } else {
        HistoryView {
            undos: h.undos.push(h.current),
            redos: Seq::empty(),
            current: s,
            last_change: t,
            open: true,
            ..h
        }
    }
}

/// `stack` without the entries at its top that equal `cur`.
pub open spec fn drop_equal_top(stack: Seq<Snap>, cur: Snap) -> Seq<Snap>
    decreases stack.len(),
{
    if stack.len() > 0 && stack.last() == cur {
        drop_equal_top(stack.drop_last(), cur)
    } else {
        stack
    }
}

/// Undo from the state `cur`: the most recent recorded state that differs
/// from `cur` is restored (entries equal to `cur` above it are dropped), and
/// `cur` becomes the next state to redo.
pub open spec fn undo_spec(h: HistoryView, cur: Snap) -> (HistoryView, Option<Snap>) {
    let u = drop_equal_top(h.undos, cur);
    if u.len() == 0 {
        (h, None)
    } else {
        let p = u.last();
        (
            HistoryView {
                undos: u.drop_last(),
                redos: h.redos.push(cur),
                current: p,
                open: false,
                ..h
            },
            Some(p),
        )
    }
}

/// Redo from the state `cur`: the next state to redo that differs from `cur`
/// is restored, and `cur` is recorded to undo to.
pub open spec fn redo_spec(h: HistoryView, cur: Snap) -> (HistoryView, Option<Snap>) {
    let r = drop_equal_top(h.redos, cur);
    if r.len() == 0 {
        (h, None)
    } else {
        let n = r.last();
        (
            HistoryView {
                undos: h.undos.push(cur),
                redos: r.drop_last(),
                current: n,
                open: false,
                ..h
            },
            Some(n),
        )
    }
}

/// Undo and redo stacks of snapshots, with time-based coalescing of changes
/// that follow each other within the debounce window.
pub struct UndoHistory {
    pub undos: Vec<Snapshot>,
    pub redos: Vec<Snapshot>,
    pub current: Snapshot,
    pub last_change: u64,
    pub open: bool,
    pub debounce: u64,
}

pub open spec fn snaps(v: Seq<Snapshot>) -> Seq<Snap> {
    v.map_values(|s: Snapshot| s@)
}

impl View for UndoHistory {
    type V = HistoryView;

    open spec fn view(&self) -> HistoryView {
        HistoryView {
            undos: snaps(self.undos@),
            redos: snaps(self.redos@),
            current: self.current@,
            last_change: self.last_change,
            open: self.open,
            debounce: self.debounce,
        }
    }
}

/// The debounce window, in milliseconds, that editors start with.
pub const DEFAULT_DEBOUNCE_MS: u64 = 1000;

impl UndoHistory {
    /// A history that starts at `initial`, with both stacks empty.
    pub fn new(initial: Snapshot, debounce: u64) -> (r: UndoHistory)
        ensures
            r@ == (HistoryView {
                undos: Seq::empty(),
                redos: Seq::empty(),
                current: initial@,
                last_change: 0,
                open: false,
                debounce,
            }),
    {
        let r = UndoHistory {
            undos: Vec::new(),
            redos: Vec::new(),
            current: initial,
            last_change: 0,
            open: false,
            debounce,
        };
        assert(snaps(r.undos@) =~= Seq::empty());
        assert(snaps(r.redos@) =~= Seq::empty());
        r
    }

    pub fn has_undo(&self) -> (r: bool)
        ensures
            r == (self@.undos.len() > 0),
    {
        self.undos.len() > 0
    }

    pub fn has_redo(&self) -> (r: bool)
        ensures
            r == (self@.redos.len() > 0),
    {
        self.redos.len() > 0
    }

    /// Feeds the state after an event, taken at time `t`.
    pub fn feed_state(&mut self, t: u64, state: &Snapshot)
        ensures
            final(self)@ == feed_spec(old(self)@, t, state@),
    {
        if state.same_as(&self.current) {
            return;
        }
        let joins = self.open && self.last_change <= t && t - self.last_change <= self.debounce;
        let ghost u0 = self.undos@;
        if !joins {
            let mut prev = state.duplicate();
            std::mem::swap(&mut prev, &mut self.current);
            self.undos.push(prev);
            self.open = true;
            assert(snaps(self.undos@) =~= snaps(u0).push(old(self)@.current));
        } else {
            self.current = state.duplicate();
        }
        self.redos = Vec::new();
        self.last_change = t;
        assert(snaps(self.redos@) =~= Seq::empty());
    }

    /// Steps back from the state `cur`; gives the state to restore, or
    /// nothing when there is nothing to undo.
    pub fn undo(&mut self, cur: &Snapshot) -> (r: Option<Snapshot>)
        ensures
            ({
                let (h, o) = undo_spec(old(self)@, cur@);
                &&& final(self)@ == h
                &&& o is Some <==> r is Some
                &&& r is Some ==> o == Some(r->0@)
            }),
    {
        let n = differing_top(&self.undos, cur);
        if n == 0 {
            return None;
        }
        let ghost r0 = self.redos@;
        self.undos.truncate(n);
        assert(snaps(self.undos@) =~= drop_equal_top(snaps(old(self).undos@), cur@));
        let p = self.undos.pop().unwrap();
        self.redos.push(cur.duplicate());
        self.current = p.duplicate();
        self.open = false;
        assert(snaps(self.redos@) =~= snaps(r0).push(cur@));
        assert(snaps(self.undos@) =~= drop_equal_top(snaps(old(self).undos@), cur@).drop_last());
        Some(p)
    }

    /// Steps forward from the state `cur`; gives the state to restore, or
    /// nothing when there is nothing to redo.
    pub fn redo(&mut self, cur: &Snapshot) -> (r: Option<Snapshot>)
        ensures
            ({
                let (h, o) = redo_spec(old(self)@, cur@);
                &&& final(self)@ == h
                &&& o is Some <==> r is Some
                &&& r is Some ==> o == Some(r->0@)
            }),
    {
        let n = differing_top(&self.redos, cur);
        if n == 0 {
            return None;
        }
        let ghost u0 = self.undos@;
        self.redos.truncate(n);
        assert(snaps(self.redos@) =~= drop_equal_top(snaps(old(self).redos@), cur@));
        let p = self.redos.pop().unwrap();
        self.undos.push(cur.duplicate());
        self.current = p.duplicate();
        self.open = false;
        assert(snaps(self.undos@) =~= snaps(u0).push(cur@));
        assert(snaps(self.redos@) =~= drop_equal_top(snaps(old(self).redos@), cur@).drop_last());
        Some(p)
    }
}

/// The length of `stack` once the entries at its top that equal `cur` are
/// left out.
fn differing_top(stack: &Vec<Snapshot>, cur: &Snapshot) -> (n: usize)
    ensures
        n <= stack@.len(),
        snaps(stack@.subrange(0, n as int)) == drop_equal_top(snaps(stack@), cur@),
{
    let mut n = stack.len();
    assert(stack@.subrange(0, n as int) =~= stack@);
    while n > 0 && stack[n - 1].same_as(cur)
        invariant
            n <= stack@.len(),
            drop_equal_top(snaps(stack@.subrange(0, n as int)), cur@) == drop_equal_top(snaps(stack@), cur@),
        decreases n,
    {
        proof {
            let w = snaps(stack@.subrange(0, n as int));
            assert(w.drop_last() =~= snaps(stack@.subrange(0, n - 1)));
            assert(w.last() == stack@[n - 1]@);
        }
        n = n - 1;
    }
    proof {
        let w = snaps(stack@.subrange(0, n as int));
        if n > 0 {
            assert(w.last() == stack@[n - 1]@);
        }
    }
    n
}

} // verus!
