//! Axis-aligned rectangles, stored as the four margins the drawing calls
//! take (left, top, right, bottom).

use vstd::prelude::*;

verus! {

/// A rectangle given by its margins. The width is `right - left` and the
/// height is `bottom - top`; both may be computed only while they fit in
/// the margin type.
#[derive(Clone, Copy, Debug, PartialEq, Eq, Structural)]
pub struct Rect {
    pub left: i32,
    pub top: i32,
    pub right: i32,
    pub bottom: i32,
}

impl Rect {
    /// Creates a rect of the given dimensions with its top-left corner at
    /// the origin.
    pub fn new(width: i32, height: i32) -> (r: Rect)
        ensures
            r.left == 0,
            r.top == 0,
            r.right == width,
            r.bottom == height,
    {
        Rect { left: 0, top: 0, right: width, bottom: height }
    }

    /// A rect of the same size with its top-left corner moved to `(x, y)`.
    pub fn at(&self, x: i32, y: i32) -> (r: Rect)
        requires
            i32::MIN <= self.right - self.left <= i32::MAX,
            i32::MIN <= self.bottom - self.top <= i32::MAX,
            i32::MIN <= x + self.right - self.left <= i32::MAX,
            i32::MIN <= y + self.bottom - self.top <= i32::MAX,
        ensures
            r.left == x,
            r.top == y,
            r.right == x + self.right - self.left,
            r.bottom == y + self.bottom - self.top,
    {
        Rect { left: x, top: y, right: x + self.width(), bottom: y + self.height() }
    }

    /// A rect at the same position with the given size. Negative values
    /// make the sides switch positions, extending left or up instead.
    pub fn sized(&self, width: i32, height: i32) -> (r: Rect)
        requires
            i32::MIN <= self.left + width <= i32::MAX,
            i32::MIN <= self.top + height <= i32::MAX,
        ensures
            r.left == self.left + if width < 0 { width as int } else { 0int },
            r.top == self.top + if height < 0 { height as int } else { 0int },
            r.right == self.left + if width > 0 { width as int } else { 0int },
            r.bottom == self.top + if height > 0 { height as int } else { 0int },
    {
        let w_min: i32 = if width < 0 { width } else { 0 };
        let h_min: i32 = if height < 0 { height } else { 0 };
        let w_max: i32 = if width > 0 { width } else { 0 };
        let h_max: i32 = if height > 0 { height } else { 0 };
        Rect {
            left: self.left + w_min,
            top: self.top + h_min,
            right: self.left + w_max,
            bottom: self.top + h_max,
        }
    }

    /// A rect at the same position, its size stretched by the given deltas.
    /// Deltas more negative than the current dimensions make the sides
    /// switch positions.
    pub fn resized_by(&self, delta_width: i32, delta_height: i32) -> (r: Rect)
        requires
            i32::MIN <= self.right - self.left <= i32::MAX,
            i32::MIN <= self.bottom - self.top <= i32::MAX,
            i32::MIN <= self.right - self.left + delta_width <= i32::MAX,
            i32::MIN <= self.bottom - self.top + delta_height <= i32::MAX,
            i32::MIN <= self.left + self.right - self.left + delta_width <= i32::MAX,
            i32::MIN <= self.top + self.bottom - self.top + delta_height <= i32::MAX,
        ensures
            ({
                let w = self.right - self.left + delta_width;
                let h = self.bottom - self.top + delta_height;
                &&& r.left == self.left + if w < 0 { w } else { 0int }
                &&& r.top == self.top + if h < 0 { h } else { 0int }
                &&& r.right == self.left + if w > 0 { w } else { 0int }
                &&& r.bottom == self.top + if h > 0 { h } else { 0int }
            }),
    {
        self.sized(self.width() + delta_width, self.height() + delta_height)
    }

    pub fn left(&self) -> (r: i32)
        ensures
            r == self.left,
    {
        self.left
    }

    pub fn top(&self) -> (r: i32)
        ensures
            r == self.top,
    {
        self.top
    }

    pub fn right(&self) -> (r: i32)
        ensures
            r == self.right,
    {
        self.right
    }

    pub fn bottom(&self) -> (r: i32)
        ensures
            r == self.bottom,
    {
        self.bottom
    }

    /// Alias for [`Self::left`].
    pub fn x(&self) -> (r: i32)
        ensures
            r == self.left,
    {
        self.left
    }

    /// Alias for [`Self::top`].
    pub fn y(&self) -> (r: i32)
        ensures
            r == self.top,
    {
        self.top
    }

    /// The difference between the right and the left margins.
    pub fn width(&self) -> (r: i32)
        requires
            i32::MIN <= self.right - self.left <= i32::MAX,
        ensures
            r == self.right - self.left,
    {
        self.right - self.left
    }

    /// The difference between the bottom and the top margins.
    pub fn height(&self) -> (r: i32)
        requires
            i32::MIN <= self.bottom - self.top <= i32::MAX,
        ensures
            r == self.bottom - self.top,
    {
        self.bottom - self.top
    }
}

} // verus!
