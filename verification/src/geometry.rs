use vstd::prelude::*;

verus! {

/// A rectangle in screen coordinates, as the window system reports window and
/// monitor geometry: four edges, with width = right - left and
/// height = bottom - top.
#[derive(Clone, Copy, PartialEq, Eq, Structural, Debug)]
pub struct Rect {
    pub left: i32,
    pub top: i32,
    pub right: i32,
    pub bottom: i32,
}

impl Rect {
    pub open spec fn spec_width(self) -> int {
        self.right - self.left
    }

    pub open spec fn spec_height(self) -> int {
        self.bottom - self.top
    }

    pub open spec fn area(self) -> int {
        self.spec_width() * self.spec_height()
    }

    /// A rectangle with its edges in order, as the window system hands them
    /// out for real windows and monitors.
    pub open spec fn wf(self) -> bool {
        self.left <= self.right && self.top <= self.bottom
    }

    pub fn new(left: i32, top: i32, right: i32, bottom: i32) -> (r: Rect)
        ensures
            r == (Rect { left, top, right, bottom }),
    {
        Rect { left, top, right, bottom }
    }

    pub fn width(&self) -> (w: i64)
        ensures
            w == self.spec_width(),
    {
        self.right as i64 - self.left as i64
    }

    pub fn height(&self) -> (h: i64)
        ensures
            h == self.spec_height(),
    {
        self.bottom as i64 - self.top as i64
    }
}

/// A monitor's full rectangle and its usable work area; the work area
/// excludes space the system reserves for its own chrome, such as a taskbar.
#[derive(Clone, Copy, PartialEq, Eq, Structural, Debug)]
pub struct MonitorInfo {
    pub monitor: Rect,
    pub work: Rect,
}

} // verus!
