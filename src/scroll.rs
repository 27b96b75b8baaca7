//! The viewport's scroll controller, in whole length units.
use vstd::prelude::*;

verus! {

/// The largest extent (content height, viewport height, scroll step) that the
/// controller handles.
pub const MAX_EXTENT: i64 = 1099511627776;

/// Smoothing rate: thousandths of the remaining distance covered per
/// millisecond of frame time.
pub const SMOOTHING_RATE: u64 = 30;

/// The distance within which the offset snaps onto its target.
pub const SNAP_DISTANCE: i64 = 1;

/// The largest scroll offset: content taller than the viewport may scroll
/// until its end stands halfway up the viewport (half the viewport rounded
/// up, so the bound never exceeds `content - viewport / 2`); shorter content
/// does not scroll.
pub open spec fn scroll_bound(content_height: int, viewport_height: int) -> int {
    if content_height > viewport_height {
        content_height - (viewport_height + 1) / 2
    } else {
        0
    }
}

pub open spec fn clamp_int(v: int, lo: int, hi: int) -> int {
    if v < lo {
        lo
    } else if v > hi {
        hi
    } else {
        v
    }
}

/// The share of the remaining distance, in thousandths, that one frame of
/// `dt_ms` milliseconds covers.
pub open spec fn smoothing_factor(dt_ms: u64) -> int {
    if dt_ms * SMOOTHING_RATE >= 1000 {
        1000
    } else {
        dt_ms * SMOOTHING_RATE
    }
}

/// The offset after one frame of moving from `current` towards `target`:
/// a share of the distance, at least one unit, and exactly the target once
/// within the snap distance.
pub open spec fn smooth_step(current: int, target: int, dt_ms: u64) -> int {
    let gap = target - current;
    if -SNAP_DISTANCE <= gap <= SNAP_DISTANCE {
        target
    } else if gap > 0 {
        let step = gap * smoothing_factor(dt_ms) / 1000;
        current + (if step == 0 { 1 } else { step })
    } else {
        let step = (-gap) * smoothing_factor(dt_ms) / 1000;
        current - (if step == 0 { 1 } else { step })
    }
}

/// Each smoothing step ends between the current offset and the target, and,
/// unless the offset is already there, strictly closer to the target: the
/// offset converges onto a target that stays put.
pub proof fn smoothing_approaches_target(current: int, target: int, dt_ms: u64)
    ensures
        current <= target ==> current <= smooth_step(current, target, dt_ms) <= target,
        target <= current ==> target <= smooth_step(current, target, dt_ms) <= current,
        current != target ==> ({
            let n = smooth_step(current, target, dt_ms);
            if current < target {
                target - n < target - current
            } else {
                n - target < current - target
            }
        }),
{
    let f = smoothing_factor(dt_ms);
    assert(0 <= f <= 1000);
    let gap = target - current;
    if gap > SNAP_DISTANCE {
        assert(gap * f / 1000 <= gap) by (nonlinear_arith)
            requires
                gap > 0,
                0 <= f <= 1000,
        ;
        assert(gap * f / 1000 >= 0) by (nonlinear_arith)
            requires
                gap > 0,
                0 <= f,
        ;
    } else if gap < -SNAP_DISTANCE {
        let g = -gap;
        assert(g * f / 1000 <= g) by (nonlinear_arith)
            requires
                g > 0,
                0 <= f <= 1000,
        ;
        assert(g * f / 1000 >= 0) by (nonlinear_arith)
            requires
                g > 0,
                0 <= f,
        ;
    }
}

/// The current (drawn) offset and the offset it moves towards.
#[derive(Clone, Copy, Debug, PartialEq, Eq, Structural)]
pub struct ScrollState {
    pub current: i64,
    pub target: i64,
}

/// The scroll state after one frame (see `ScrollState::update`).
pub open spec fn update_spec(
    st: ScrollState,
    delta: int,
    content_height: int,
    viewport_height: int,
    dt_ms: u64,
) -> ScrollState {
    let bound = scroll_bound(content_height, viewport_height);
    let t = clamp_int(st.target - delta, 0, bound);
    ScrollState { current: clamp_int(smooth_step(st.current as int, t, dt_ms), 0, bound) as i64, target: t as i64 }
}

/// The scroll state after `n` frames without scrolling.
pub open spec fn idle_frames(st: ScrollState, content_height: int, viewport_height: int, dt_ms: u64, n: nat) -> ScrollState
    decreases n,
{
    if n == 0 {
        st
    } else {
        idle_frames(update_spec(st, 0, content_height, viewport_height, dt_ms), content_height, viewport_height, dt_ms, (n - 1) as nat)
    }
}

/// Once scrolling stops, the offset settles on its target: after as many
/// idle frames as the offset is units away from the target (or more), both
/// offsets equal the target, and stay there.
pub proof fn idle_scrolling_settles(st: ScrollState, content_height: int, viewport_height: int, dt_ms: u64, n: nat)
    requires
        0 <= st.current <= scroll_bound(content_height, viewport_height),
        0 <= st.target <= scroll_bound(content_height, viewport_height),
        n >= st.target - st.current,
        n >= st.current - st.target,
    ensures
        idle_frames(st, content_height, viewport_height, dt_ms, n) == (ScrollState { current: st.target, target: st.target }),
    decreases n,
{
    if n > 0 {
        smoothing_approaches_target(st.current as int, st.target as int, dt_ms);
        let next = update_spec(st, 0, content_height, viewport_height, dt_ms);
        assert(next.target == st.target);
        idle_scrolling_settles(next, content_height, viewport_height, dt_ms, (n - 1) as nat);
    }
}

fn clamp_i64(v: i64, lo: i64, hi: i64) -> (r: i64)
    requires
        lo <= hi,
    ensures
        r == clamp_int(v as int, lo as int, hi as int),
{
    if v < lo {
        lo
    } else if v > hi {
        hi
    } else {
        v
    }
}

impl ScrollState {
    pub open spec fn wf(self) -> bool {
        &&& 0 <= self.current <= MAX_EXTENT
        &&& 0 <= self.target <= MAX_EXTENT
    }

    pub fn new() -> (r: ScrollState)
        ensures
            r.wf(),
            r.current == 0,
            r.target == 0,
    {
        ScrollState { current: 0, target: 0 }
    }

    /// Advances one frame: the target moves against the scroll `delta` and
    /// is clamped into `[0, scroll_bound]`; the current offset takes one
    /// smoothing step of `dt_ms` towards it and is clamped the same way.
    pub fn update(&mut self, delta: i64, content_height: i64, viewport_height: i64, dt_ms: u64)
        requires
            old(self).wf(),
            -MAX_EXTENT <= delta <= MAX_EXTENT,
            0 <= content_height <= MAX_EXTENT,
            0 <= viewport_height <= MAX_EXTENT,
        ensures
            ({
                let bound = scroll_bound(content_height as int, viewport_height as int);
                let t = clamp_int(old(self).target - delta, 0, bound);
                &&& *final(self) == update_spec(*old(self), delta as int, content_height as int, viewport_height as int, dt_ms)
                &&& final(self).target == t
                &&& final(self).current == clamp_int(
                    smooth_step(old(self).current as int, t, dt_ms),
                    0,
                    bound,
                )
                &&& 0 <= final(self).target <= bound
                &&& 0 <= final(self).current <= bound
                &&& content_height <= viewport_height ==> final(self).target == 0
                    && final(self).current == 0
                &&& final(self).wf()
            }),
    {
        let bound: i64 = if content_height > viewport_height {
            content_height - (viewport_height + 1) / 2
        } else {
            0
        };
        let t = clamp_i64(self.target - delta, 0, bound);
        let c = self.current;
        let f: i64 = if dt_ms >= 34 {
            1000
        } else {
            (dt_ms * SMOOTHING_RATE) as i64
        };
        assert(f == smoothing_factor(dt_ms));
        let gap = t - c;
        let moved: i64 = if -SNAP_DISTANCE <= gap && gap <= SNAP_DISTANCE {
            t
        } else if gap > 0 {
            assert(gap * f <= MAX_EXTENT * 1000) by (nonlinear_arith)
                requires
                    0 < gap <= MAX_EXTENT,
                    0 <= f <= 1000,
            ;
            assert(0 <= gap * f) by (nonlinear_arith)
                requires
                    0 < gap,
                    0 <= f,
            ;
            let step = gap * f / 1000;
            c + (if step == 0 { 1 } else { step })
        } else {
            let g = -gap;
            assert(g * f <= MAX_EXTENT * 1000) by (nonlinear_arith)
                requires
                    0 < g <= MAX_EXTENT,
                    0 <= f <= 1000,
            ;
            assert(0 <= g * f) by (nonlinear_arith)
                requires
                    0 < g,
                    0 <= f,
            ;
            let step = g * f / 1000;
            c - (if step == 0 { 1 } else { step })
        };
        self.target = t;
        self.current = clamp_i64(moved, 0, bound);
    }

    /// The first visible line and the number of lines that fit the viewport
    /// (no more than the text has).
    pub fn visible_lines(&self, line_height: i64, viewport_height: i64, total_lines: i64) -> (r: (i64, i64))
        requires
            self.wf(),
            line_height > 0,
            viewport_height >= 0,
            total_lines >= 0,
        ensures
            r.0 == self.current / line_height,
            r.1 == (if viewport_height / line_height <= total_lines {
                viewport_height / line_height
            } else {
                total_lines as int
            }),
    {
        let first = self.current / line_height;
        let fit = viewport_height / line_height;
        (first, if fit <= total_lines { fit } else { total_lines })
    }
}

} // verus!
