use vstd::prelude::*;
use crate::geometry::{MonitorInfo, Rect};

verus! {

/// Half of d, truncating toward zero, as Rust's integer division rounds.
pub open spec fn half_toward_zero(d: int) -> int {
    if d >= 0 {
        d / 2
    } else {
        -((-d) / 2)
    }
}

/// The left edge that centers a window of the given width in the work area.
pub open spec fn centered_left(work: Rect, width: int) -> int {
    work.left + half_toward_zero(work.spec_width() - width)
}

/// The top edge that centers a window of the given height in the work area.
pub open spec fn centered_top(work: Rect, height: int) -> int {
    work.top + half_toward_zero(work.spec_height() - height)
}

/// A reposition command for the window system: a new top-left corner for the
/// window, together with the two flags that must both be set so that the move
/// leaves the window's size and its stacking order untouched.
#[derive(Clone, Copy, PartialEq, Eq, Structural, Debug)]
pub struct MoveRequest {
    pub x: i64,
    pub y: i64,
    pub keep_size: bool,
    pub keep_order: bool,
}

fn half_i64(d: i64) -> (h: i64)
    requires
        i64::MIN < d,
    ensures
        h == half_toward_zero(d as int),
{
    if d >= 0 {
        d / 2
    } else {
        -(-d / 2)
    }
}

/// Computes the move that centers a window of window_rect's size in the
/// monitor's usable work area: the new corner is the work area's corner plus
/// half the difference of the sizes, truncated toward zero, and the request
/// always keeps the window's size and stacking order.
pub fn center_request(monitor: &MonitorInfo, window_rect: &Rect) -> (m: MoveRequest)
    ensures
        m.x == centered_left(monitor.work, window_rect.spec_width()),
        m.y == centered_top(monitor.work, window_rect.spec_height()),
        m.keep_size,
        m.keep_order,
{
    let work = &monitor.work;
    let dx: i64 = work.width() - window_rect.width();
    let dy: i64 = work.height() - window_rect.height();
    MoveRequest {
        x: work.left as i64 + half_i64(dx),
        y: work.top as i64 + half_i64(dy),
        keep_size: true,
        keep_order: true,
    }
}

/// A window that fits in the work area stays inside the work area's bounds
/// once centered: the new left edge is no further left than the work area's,
/// and the new left edge plus the window's width is no further right than the
/// work area's right edge; the same holds vertically.
pub proof fn lemma_centered_within_work_area(work: Rect, width: int, height: int)
    requires
        work.wf(),
        0 <= width <= work.spec_width(),
        0 <= height <= work.spec_height(),
    ensures
        work.left <= centered_left(work, width),
        centered_left(work, width) + width <= work.right,
        work.top <= centered_top(work, height),
        centered_top(work, height) + height <= work.bottom,
{
    let dx = work.spec_width() - width;
    let dy = work.spec_height() - height;
    assert(0 <= dx / 2 <= dx);
    assert(0 <= dy / 2 <= dy);
}

/// Centering is idempotent: once a window stands at the centered position,
/// recomputing the centered position for its new rectangle (same size, same
/// monitor) gives the position it already has, so a second move is a no-op.
pub proof fn lemma_centering_idempotent(work: Rect, window: Rect, moved: Rect)
    requires
        moved.left == centered_left(work, window.spec_width()),
        moved.top == centered_top(work, window.spec_height()),
        moved.spec_width() == window.spec_width(),
        moved.spec_height() == window.spec_height(),
    ensures
        centered_left(work, moved.spec_width()) == moved.left,
        centered_top(work, moved.spec_height()) == moved.top,
{
}

} // verus!
