//! Integer rectangles of the virtual arena.

use vstd::prelude::*;

verus! {

/// An axis-aligned rectangle on the arena's integer grid.
///
/// `x` and `y` are the top-left corner; the rectangle covers the cells
/// `[x, x + width) x [y, y + height)`. Every corner and every size is taken
/// as it is; a rectangle with a zero side covers nothing.
#[derive(Clone, Copy, Debug, PartialEq, Eq, Structural)]
pub struct Rect {
    pub x: i32,
    pub y: i32,
    pub width: u32,
    pub height: u32,
}

impl Rect {
    /// The first column to the right of the rectangle.
    pub open spec fn right(self) -> int {
        self.x + self.width
    }

    /// The first row below the rectangle.
    pub open spec fn bottom(self) -> int {
        self.y + self.height
    }

    /// Whether the cell `(px, py)` lies inside the rectangle.
    pub open spec fn covers(self, px: int, py: int) -> bool {
        self.x <= px < self.right() && self.y <= py < self.bottom()
    }

    /// Whether the two rectangles have a cell in common.
    pub open spec fn intersects(self, other: Rect) -> bool {
        exists|px: int, py: int| #[trigger] self.covers(px, py) && other.covers(px, py)
    }

    /// How many columns the two rectangles share; zero or less when their
    /// horizontal spans are disjoint.
    pub open spec fn overlap_width(self, other: Rect) -> int {
        vstd::math::min(self.right(), other.right()) - vstd::math::max(
            self.x as int,
            other.x as int,
        )
    }

    /// How many rows the two rectangles share; zero or less when their
    /// vertical spans are disjoint.
    pub open spec fn overlap_height(self, other: Rect) -> int {
        vstd::math::min(self.bottom(), other.bottom()) - vstd::math::max(
            self.y as int,
            other.y as int,
        )
    }

    /// The rectangle of the cells that `self` and `other` share, if there is
    /// such a cell.
    pub open spec fn common(self, other: Rect) -> Option<Rect> {
        if self.overlap_width(other) > 0 && self.overlap_height(other) > 0 {
            Some(
                Rect {
                    x: vstd::math::max(self.x as int, other.x as int) as i32,
                    y: vstd::math::max(self.y as int, other.y as int) as i32,
                    width: self.overlap_width(other) as u32,
                    height: self.overlap_height(other) as u32,
                },
            )
        } else {
            None
        }
    }

    /// Two rectangles share a cell exactly when both their horizontal and
    /// their vertical spans overlap.
    pub proof fn lemma_intersects_by_spans(self, other: Rect)
        ensures
            self.intersects(other) <==> (self.overlap_width(other) > 0 && self.overlap_height(
                other,
            ) > 0),
    {
        if self.overlap_width(other) > 0 && self.overlap_height(other) > 0 {
            let px = vstd::math::max(self.x as int, other.x as int);
            let py = vstd::math::max(self.y as int, other.y as int);
            assert(self.covers(px, py) && other.covers(px, py));
        }
    }

    /// The common rectangle covers exactly the cells that both rectangles
    /// cover, and there is none exactly when the rectangles do not intersect.
    pub proof fn lemma_common_covers(self, other: Rect)
        ensures
            self.common(other).is_some() <==> self.intersects(other),
            self.common(other) matches Some(c) ==> forall|px: int, py: int|
                c.covers(px, py) <==> (self.covers(px, py) && other.covers(px, py)),
    {
        self.lemma_intersects_by_spans(other);
    }

    /// Intersecting is symmetric, and so is the common rectangle.
    pub proof fn lemma_common_symmetric(self, other: Rect)
        ensures
            self.intersects(other) == other.intersects(self),
            self.common(other) == other.common(self),
    {
        self.lemma_intersects_by_spans(other);
        other.lemma_intersects_by_spans(self);
    }

    /// Makes the rectangle with the given corner and size.
    pub fn new(x: i32, y: i32, width: u32, height: u32) -> (rect: Rect)
        ensures
            rect == (Rect { x, y, width, height }),
    {
        Rect { x, y, width, height }
    }

    /// The number of columns, at most `u32::MAX`, that both rectangles span.
    fn shared_columns(&self, other: &Rect) -> (columns: u32)
        ensures
            columns == vstd::math::max(0, self.overlap_width(*other)),
    {
        let left: i64 = if self.x >= other.x {
            self.x as i64
        } else {
            other.x as i64
        };
        let end_a: i64 = self.x as i64 + self.width as i64;
        let end_b: i64 = other.x as i64 + other.width as i64;
        let right: i64 = if end_a <= end_b {
            end_a
        } else {
            end_b
        };
        if right > left {
            (right - left) as u32
        } else {
            0
        }
    }

    /// The number of rows, at most `u32::MAX`, that both rectangles span.
    fn shared_rows(&self, other: &Rect) -> (rows: u32)
        ensures
            rows == vstd::math::max(0, self.overlap_height(*other)),
    {
        let top: i64 = if self.y >= other.y {
            self.y as i64
        } else {
            other.y as i64
        };
        let end_a: i64 = self.y as i64 + self.height as i64;
        let end_b: i64 = other.y as i64 + other.height as i64;
        let bottom: i64 = if end_a <= end_b {
            end_a
        } else {
            end_b
        };
        if bottom > top {
            (bottom - top) as u32
        } else {
            0
        }
    }

    /// Tells whether the two rectangles share a cell. Rectangles that only
    /// touch along an edge do not.
    pub fn has_intersection(&self, other: &Rect) -> (hit: bool)
        ensures
            hit == self.intersects(*other),
    {
        proof {
            self.lemma_intersects_by_spans(*other);
        }
        self.shared_columns(other) > 0 && self.shared_rows(other) > 0
    }

    /// The rectangle of the cells that both rectangles cover, or `None` when
    /// they share no cell.
    pub fn intersection(&self, other: &Rect) -> (shared: Option<Rect>)
        ensures
            shared == self.common(*other),
            shared.is_some() == self.intersects(*other),
    {
        proof {
            self.lemma_intersects_by_spans(*other);
        }
        let width: u32 = self.shared_columns(other);
        let height: u32 = self.shared_rows(other);
        if width > 0 && height > 0 {
            let x: i32 = if self.x >= other.x {
                self.x
            } else {
                other.x
            };
            let y: i32 = if self.y >= other.y {
                self.y
            } else {
                other.y
            };
            Some(Rect { x, y, width, height })
        } else {
            None
        }
    }
}

} // verus!
