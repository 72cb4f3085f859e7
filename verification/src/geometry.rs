use vstd::prelude::*;

verus! {

/// A window-system rectangle given by its four edges (the Win32 `RECT`).
#[derive(Clone, Copy, Debug, PartialEq, Eq, Structural)]
pub struct Rect {
    pub left: i32,
    pub top: i32,
    pub right: i32,
    pub bottom: i32,
}

/// A monitor rectangle as the window manager reports it: an origin and,
/// in `right` and `bottom`, the width and the height.
#[derive(Clone, Copy, Debug, PartialEq, Eq, Structural)]
pub struct MonitorRect {
    pub left: i32,
    pub top: i32,
    pub right: i32,
    pub bottom: i32,
}

/// A width and a height (the Win32 `SIZE`).
#[derive(Clone, Copy, Debug, PartialEq, Eq, Structural)]
pub struct Size {
    pub cx: i32,
    pub cy: i32,
}

/// `outer` contains `inner` when every edge of `inner` lies on or inside `outer`.
pub open spec fn rect_contains(outer: Rect, inner: Rect) -> bool {
    &&& outer.left <= inner.left
    &&& outer.top <= inner.top
    &&& outer.right >= inner.right
    &&& outer.bottom >= inner.bottom
}

/// The edge rectangle that covers the same area as a monitor rectangle.
pub open spec fn spec_from_rect(rect: MonitorRect) -> Rect {
    Rect {
        left: rect.left,
        top: rect.top,
        right: (rect.left + rect.right) as i32,
        bottom: (rect.top + rect.bottom) as i32,
    }
}

/// The edges of a monitor rectangle fit in `i32`.
pub open spec fn monitor_rect_fits(rect: MonitorRect) -> bool {
    &&& i32::MIN <= rect.left + rect.right <= i32::MAX
    &&& i32::MIN <= rect.top + rect.bottom <= i32::MAX
}

pub trait RectContains {
    fn contains(&self, other: &Rect) -> bool;
}

impl RectContains for Rect {
    fn contains(&self, other: &Rect) -> (r: bool)
        ensures
            r == rect_contains(*self, *other),
    {
        self.left <= other.left && self.top <= other.top && self.right >= other.right
            && self.bottom >= other.bottom
    }
}

pub trait FromRect: Sized {
    fn from_rect(rect: MonitorRect) -> Self
        requires
            monitor_rect_fits(rect),
    ;
}

impl FromRect for Rect {
    fn from_rect(rect: MonitorRect) -> (r: Rect)
        ensures
            r == spec_from_rect(rect),
    {
        Rect { left: rect.left, top: rect.top, right: rect.left + rect.right, bottom: rect.top + rect.bottom }
    }
}

/// A monitor rectangle converted to edges has the monitor's width and height.
pub proof fn lemma_from_rect_extent(rect: MonitorRect)
    requires
        monitor_rect_fits(rect),
    ensures
        spec_from_rect(rect).right - spec_from_rect(rect).left == rect.right,
        spec_from_rect(rect).bottom - spec_from_rect(rect).top == rect.bottom,
{
}

} // verus!
