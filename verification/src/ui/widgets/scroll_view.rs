//! Scroll containers: the axes they scroll along and their scroll bar markers.
use vstd::prelude::*;

verus! {

/// Defines which axes a scroll view is allowed to scroll on.
#[derive(Clone, Copy, Debug, PartialEq, Eq, Structural)]
pub enum ScrollAxis {
    /// Only allow horizontal scrolling.
    Horizontal,
    /// Only allow vertical scrolling.
    Vertical,
    /// Allow scrolling on both the horizontal and vertical axes.
    Both,
}

impl ScrollAxis {
    /// Whether a scroll view on this axis takes the height of its content rather than the
    /// full height of its parent: only a horizontal one does.
    pub fn fits_content_height(self) -> (r: bool)
        ensures
            r == (self == ScrollAxis::Horizontal),
    {
        match self {
            ScrollAxis::Horizontal => true,
            _ => false,
        }
    }
}

/// Marker for a scroll view that draws the default scroll bar.
pub struct DefaultScrollBar;

/// Marker for a scroll view that draws no scroll bar.
pub struct NoScrollBar;

} // verus!
