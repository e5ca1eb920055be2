//! Positions and axis-aligned boxes on the arena's fixed-point grid.
//!
//! Every coordinate, speed and size in this crate is a whole number of
//! *steps*. One arena unit is [`UNIT`] steps, so half units, the finest
//! amount anything moves by, are exact.

use vstd::prelude::*;

verus! {

/// Steps in half an arena unit: the grid's resolution.
pub const HALF_UNIT: i32 = 1;

/// Steps in one arena unit.
pub const UNIT: i32 = 2 * HALF_UNIT;

/// Width of the arena.
pub const WIDTH: i32 = 800 * UNIT;

/// Height of the arena.
pub const HEIGHT: i32 = 600 * UNIT;

/// A position on the grid, `x` growing rightwards and `y` downwards.
#[derive(Clone, Copy, Debug, PartialEq, Eq, Structural)]
pub struct Point {
    pub x: i32,
    pub y: i32,
}

/// An axis-aligned box given by its four edges.
///
/// The box covers `left <= x < right` and `top <= y < bottom`; one whose
/// `right` is not above its `left`, or whose `bottom` is not above its `top`,
/// covers nothing.
#[derive(Clone, Copy, Debug, PartialEq, Eq, Structural)]
pub struct Rect {
    pub left: i32,
    pub top: i32,
    pub right: i32,
    pub bottom: i32,
}

impl Rect {
    /// Whether the point lies in the box.
    pub open spec fn holds(self, p: Point) -> bool {
        self.left <= p.x < self.right && self.top <= p.y < self.bottom
    }

    /// Whether this box, moved so that its origin sits at `at`, shares any
    /// area with `other` moved to `other_at`.
    pub open spec fn meets(self, at: Point, other: Rect, other_at: Point) -> bool {
        &&& self.left < self.right
        &&& self.top < self.bottom
        &&& other.left < other.right
        &&& other.top < other.bottom
        &&& at.x + self.left < other_at.x + other.right
        &&& other_at.x + other.left < at.x + self.right
        &&& at.y + self.top < other_at.y + other.bottom
        &&& other_at.y + other.top < at.y + self.bottom
    }

    /// Point-in-box test, used for pointer clicks and hover.
    pub fn contains(&self, p: Point) -> (inside: bool)
        ensures
            inside == self.holds(p),
    {
        self.left <= p.x && p.x < self.right && self.top <= p.y && p.y < self.bottom
    }

    /// Overlap test between two boxes that are each anchored at a position.
    ///
    /// Touching edges do not count: the shared area must be more than a line.
    pub fn intersects(&self, at: Point, other: &Rect, other_at: Point) -> (hit: bool)
        ensures
            hit == self.meets(at, *other, other_at),
    {
        let a_left: i64 = at.x as i64 + self.left as i64;
        let a_right: i64 = at.x as i64 + self.right as i64;
        let a_top: i64 = at.y as i64 + self.top as i64;
        let a_bottom: i64 = at.y as i64 + self.bottom as i64;
        let b_left: i64 = other_at.x as i64 + other.left as i64;
        let b_right: i64 = other_at.x as i64 + other.right as i64;
        let b_top: i64 = other_at.y as i64 + other.top as i64;
        let b_bottom: i64 = other_at.y as i64 + other.bottom as i64;
        self.left < self.right && self.top < self.bottom && other.left < other.right && other.top
            < other.bottom && a_left < b_right && b_left < a_right && a_top < b_bottom && b_top
            < a_bottom
    }
}

} // verus!
