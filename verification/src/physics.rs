//! The integer side of the physics step: a body's mass and the
//! classification of a contact between two bodies. Velocities and positions
//! are the host's; what is decided here is whether two bodies are in contact,
//! along which axis they are pushed apart, and by how much in all.

use vstd::prelude::*;
use crate::rect::Rect;

verus! {

/// The axis along which a contact is resolved.
#[derive(Clone, Copy, Debug, PartialEq, Eq, Structural)]
pub enum Axis {
    /// The bodies are pushed apart along x.
    Horizontal,
    /// The bodies are pushed apart along y.
    Vertical,
}

/// How two overlapping bodies are to be separated.
#[derive(Clone, Copy, Debug, PartialEq, Eq, Structural)]
pub struct Contact {
    /// The axis of the response.
    pub axis: Axis,
    /// The extent of the shared region along that axis, in cells.
    pub overlap: u32,
}

/// The contact between two rectangles: none when they share no cell;
/// horizontal when the shared region is narrower than it is high; vertical
/// otherwise, a square shared region included.
pub open spec fn contact_of(a: Rect, b: Rect) -> Option<Contact> {
    if !a.intersects(b) {
        None
    } else if a.overlap_width(b) < a.overlap_height(b) {
        Some(Contact { axis: Axis::Horizontal, overlap: a.overlap_width(b) as u32 })
    } else {
        Some(Contact { axis: Axis::Vertical, overlap: a.overlap_height(b) as u32 })
    }
}

/// A contact does not depend on the order in which the two rectangles are
/// given.
pub proof fn lemma_contact_symmetric(a: Rect, b: Rect)
    ensures
        contact_of(a, b) == contact_of(b, a),
{
    a.lemma_common_symmetric(b);
}

/// A contact's overlap is positive and no larger than either rectangle's
/// side along the contact's axis.
pub proof fn lemma_contact_overlap_bounds(a: Rect, b: Rect)
    ensures
        contact_of(a, b) matches Some(c) ==> c.overlap > 0 && match c.axis {
            Axis::Horizontal => c.overlap <= a.width && c.overlap <= b.width,
            Axis::Vertical => c.overlap <= a.height && c.overlap <= b.height,
        },
{
    a.lemma_intersects_by_spans(b);
}

/// Whether `moved` is `rect` carried `by` cells along x, to the right where
/// `by` is positive.
pub open spec fn shifted_along_x(rect: Rect, moved: Rect, by: int) -> bool {
    moved.x == rect.x + by && moved.y == rect.y && moved.width == rect.width && moved.height
        == rect.height
}

/// Whether `moved` is `rect` carried `by` cells along y, downwards where `by`
/// is positive.
pub open spec fn shifted_along_y(rect: Rect, moved: Rect, by: int) -> bool {
    moved.x == rect.x && moved.y == rect.y + by && moved.width == rect.width && moved.height
        == rect.height
}

/// Pushing two bodies in horizontal contact apart by the contact's overlap
/// in all, the left one to the left and the right one to the right, leaves
/// them touching without a shared cell. This holds where the left body does
/// not reach beyond the right edge of the right one.
pub proof fn lemma_overlap_separates_horizontally(
    left: Rect,
    right: Rect,
    moved_left: Rect,
    moved_right: Rect,
    by_left: int,
    by_right: int,
)
    requires
        contact_of(left, right) matches Some(c) && c.axis == Axis::Horizontal && by_left
            + by_right == c.overlap,
        left.x <= right.x,
        left.right() <= right.right(),
        0 <= by_left,
        0 <= by_right,
        shifted_along_x(left, moved_left, -by_left),
        shifted_along_x(right, moved_right, by_right),
    ensures
        moved_left.overlap_width(moved_right) == 0,
        !moved_left.intersects(moved_right),
{
    left.lemma_intersects_by_spans(right);
    moved_left.lemma_intersects_by_spans(moved_right);
}

/// Pushing two bodies in vertical contact apart by the contact's overlap in
/// all, the upper one up and the lower one down, leaves them touching
/// without a shared cell. This holds where the upper body does not reach
/// beyond the bottom edge of the lower one.
pub proof fn lemma_overlap_separates_vertically(
    upper: Rect,
    lower: Rect,
    moved_upper: Rect,
    moved_lower: Rect,
    by_upper: int,
    by_lower: int,
)
    requires
        contact_of(upper, lower) matches Some(c) && c.axis == Axis::Vertical && by_upper
            + by_lower == c.overlap,
        upper.y <= lower.y,
        upper.bottom() <= lower.bottom(),
        0 <= by_upper,
        0 <= by_lower,
        shifted_along_y(upper, moved_upper, -by_upper),
        shifted_along_y(lower, moved_lower, by_lower),
    ensures
        moved_upper.overlap_height(moved_lower) == 0,
        !moved_upper.intersects(moved_lower),
{
    upper.lemma_intersects_by_spans(lower);
    moved_upper.lemma_intersects_by_spans(moved_lower);
}

/// Classifies the contact between two bodies from their rectangles.
pub fn contact(a: &Rect, b: &Rect) -> (found: Option<Contact>)
    ensures
        found == contact_of(*a, *b),
{
    match a.intersection(b) {
        None => None,
        Some(shared) => {
            if shared.width < shared.height {
                Some(Contact { axis: Axis::Horizontal, overlap: shared.width })
            } else {
                Some(Contact { axis: Axis::Vertical, overlap: shared.height })
            }
        },
    }
}

/// The mass of a body: the area of its rectangle.
pub fn mass_of(width: u32, height: u32) -> (mass: u64)
    ensures
        mass == width * height,
        mass > 0 <==> (width > 0 && height > 0),
{
    proof {
        assert(width * height <= u32::MAX * u32::MAX) by (nonlinear_arith)
            requires
                width <= u32::MAX,
                height <= u32::MAX,
        ;
        assert((width * height > 0) <==> (width > 0 && height > 0)) by (nonlinear_arith);
    }
    let w: u64 = width as u64;
    let h: u64 = height as u64;
    w * h
}

} // verus!
