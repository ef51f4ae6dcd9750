//! Viewport scrolling and cursor clamping rules.

use vstd::prelude::*;
use crate::geometry::{ROW_WIDTH, VIEWPORT_BYTES};

verus! {

/// The furthest a viewport may start into a buffer of `len` bytes: the last
/// full viewport ends at the end of the buffer, and a buffer that fits on
/// one screen never scrolls.
pub open spec fn max_view_offset(len: int) -> int {
    if len > VIEWPORT_BYTES {
        len - VIEWPORT_BYTES
    } else {
        0
    }
}

/// Start of the viewport after one step forward.
pub open spec fn scrolled_forward(view: int, len: int) -> int {
    if view + ROW_WIDTH < max_view_offset(len) {
        view + ROW_WIDTH
    } else {
        max_view_offset(len)
    }
}

/// Start of the viewport after one step backward.
pub open spec fn scrolled_backward(view: int) -> int {
    if view > ROW_WIDTH {
        view - ROW_WIDTH
    } else {
        0
    }
}

/// Start of the viewport after `n` steps forward.
pub open spec fn scrolled_forward_times(view: int, len: int, n: nat) -> int
    decreases n,
{
    if n == 0 {
        view
    } else {
        scrolled_forward_times(scrolled_forward(view, len), len, (n - 1) as nat)
    }
}

/// Start of the viewport after `n` steps backward.
pub open spec fn scrolled_backward_times(view: int, n: nat) -> int
    decreases n,
{
    if n == 0 {
        view
    } else {
        scrolled_backward_times(scrolled_backward(view), (n - 1) as nat)
    }
}

/// `v` moved by `delta` and held within `[0, max]`.
pub open spec fn clamp_moved(v: int, delta: int, max: int) -> int {
    if v + delta < 0 {
        0
    } else if v + delta > max {
        max
    } else {
        v + delta
    }
}

/// Enough forward steps bring any valid viewport to the furthest start, and
/// a step forward from there stays there.
pub proof fn lemma_scroll_forward_converges(view: int, len: int, n: nat)
    requires
        0 <= view <= max_view_offset(len),
        n * ROW_WIDTH >= max_view_offset(len) - view,
    ensures
        scrolled_forward_times(view, len, n) == max_view_offset(len),
        scrolled_forward(max_view_offset(len), len) == max_view_offset(len),
    decreases n,
{
    if n > 0 {
        let next = scrolled_forward(view, len);
        let m = (n - 1) as nat;
        assert(n * ROW_WIDTH == m * ROW_WIDTH + ROW_WIDTH) by (nonlinear_arith)
            requires
                m == n - 1,
        ;
        if next == max_view_offset(len) {
            lemma_forward_stays_at_max(len, m);
        } else {
            lemma_scroll_forward_converges(next, len, m);
        }
    } else {
        assert(n * ROW_WIDTH == 0);
    }
}

proof fn lemma_forward_stays_at_max(len: int, n: nat)
    ensures
        scrolled_forward_times(max_view_offset(len), len, n) == max_view_offset(len),
    decreases n,
{
    if n > 0 {
        lemma_forward_stays_at_max(len, (n - 1) as nat);
    }
}

/// Enough backward steps bring any viewport to the start of the buffer, and a
/// step backward from there stays there.
pub proof fn lemma_scroll_backward_converges(view: int, n: nat)
    requires
        0 <= view,
        n * ROW_WIDTH >= view,
    ensures
        scrolled_backward_times(view, n) == 0,
        scrolled_backward(0) == 0,
    decreases n,
{
    if n > 0 {
        let m = (n - 1) as nat;
        assert(n * ROW_WIDTH == m * ROW_WIDTH + ROW_WIDTH) by (nonlinear_arith)
            requires
                m == n - 1,
        ;
        lemma_scroll_backward_converges(scrolled_backward(view), m);
    } else {
        assert(n * ROW_WIDTH == 0);
    }
}

/// Over an empty buffer the viewport can only start at zero, and scrolling
/// either way leaves it there.
pub proof fn lemma_empty_buffer_never_scrolls(view: int)
    requires
        0 <= view <= max_view_offset(0),
    ensures
        view == 0,
        scrolled_forward(view, 0) == view,
        scrolled_backward(view) == view,
{
}

/// The furthest start of a viewport over `len` bytes.
pub fn max_view_start(len: usize) -> (r: usize)
    ensures
        r == max_view_offset(len as int),
{
    len.saturating_sub(VIEWPORT_BYTES)
}

/// `pos` moved by `delta` and held within `[0, max]`; no delta, however large,
/// moves it out of that range.
pub fn clamp_axis(pos: usize, delta: isize, max: usize) -> (r: usize)
    requires
        pos <= max,
    ensures
        r == clamp_moved(pos as int, delta as int, max as int),
        r <= max,
{
    if delta >= 0 {
        let d: usize = delta as usize;
        if d >= max - pos {
            max
        } else {
            pos + d
        }
    } else {
        let d: usize = (-(delta + 1)) as usize + 1;
        if d >= pos {
            0
        } else {
            pos - d
        }
    }
}

} // verus!
