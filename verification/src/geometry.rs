//! Coordinate spaces and the mapping between them.
//!
//! Absolute coordinates are raw pointer positions: origin at the window's
//! top-left corner, y growing downward. Relative coordinates are the tiles'
//! world space: origin at the window's centre, y growing upward. All
//! positions are whole units.

use vstd::prelude::*;

verus! {

/// A position in either coordinate space, in whole units.
#[derive(Clone, Copy, Debug, PartialEq, Eq, Structural)]
pub struct Point {
    pub x: i64,
    pub y: i64,
}

/// The x coordinate of the relative position of an absolute point,
/// for a window `window_width` units wide.
pub open spec fn rel_x(window_width: int, abs_x: int) -> int {
    abs_x - window_width / 2
}

/// The y coordinate of the relative position of an absolute point,
/// for a window `window_height` units tall. The y axis flips.
pub open spec fn rel_y(window_height: int, abs_y: int) -> int {
    window_height / 2 - abs_y
}

/// The x coordinate of the absolute position of a relative point.
pub open spec fn abs_x(window_width: int, rel_x: int) -> int {
    rel_x + window_width / 2
}

/// The y coordinate of the absolute position of a relative point.
/// The y axis flips, so the formula is its own inverse.
pub open spec fn abs_y(window_height: int, rel_y: int) -> int {
    window_height / 2 - rel_y
}

/// Both components of the relative position of `p` fit in `i64`.
/// (`rel_x` cannot exceed `i64::MAX` and `rel_y` cannot fall below
/// `i64::MIN`, so only the two remaining bounds are stated.)
pub open spec fn rel_in_range(window_width: int, window_height: int, p: Point) -> bool {
    &&& i64::MIN <= rel_x(window_width, p.x as int)
    &&& rel_y(window_height, p.y as int) <= i64::MAX
}

/// Both components of the absolute position of `p` fit in `i64`.
pub open spec fn abs_in_range(window_width: int, window_height: int, p: Point) -> bool {
    &&& abs_x(window_width, p.x as int) <= i64::MAX
    &&& abs_y(window_height, p.y as int) <= i64::MAX
}

/// Maps an absolute pointer position to the tiles' relative space.
pub fn window_absolute_to_relative(
    window_width: u32,
    window_height: u32,
    absolute_position: Point,
) -> (r: Point)
    requires
        rel_in_range(window_width as int, window_height as int, absolute_position),
    ensures
        r.x == rel_x(window_width as int, absolute_position.x as int),
        r.y == rel_y(window_height as int, absolute_position.y as int),
{
    let half_width: i64 = (window_width / 2) as i64;
    let half_height: i64 = (window_height / 2) as i64;
    Point { x: absolute_position.x - half_width, y: half_height - absolute_position.y }
}

/// Maps a relative position back to absolute window coordinates.
pub fn window_relative_to_absolute(
    window_width: u32,
    window_height: u32,
    relative_position: Point,
) -> (r: Point)
    requires
        abs_in_range(window_width as int, window_height as int, relative_position),
    ensures
        r.x == abs_x(window_width as int, relative_position.x as int),
        r.y == abs_y(window_height as int, relative_position.y as int),
{
    let half_width: i64 = (window_width / 2) as i64;
    let half_height: i64 = (window_height / 2) as i64;
    Point { x: relative_position.x + half_width, y: half_height - relative_position.y }
}

/// Law: mapping to relative coordinates and back (or the other way round)
/// is an exact round trip, for any window dimensions and any coordinate.
pub proof fn lemma_round_trip(window_width: int, window_height: int, x: int, y: int)
    ensures
        abs_x(window_width, rel_x(window_width, x)) == x,
        abs_y(window_height, rel_y(window_height, y)) == y,
        rel_x(window_width, abs_x(window_width, x)) == x,
        rel_y(window_height, abs_y(window_height, y)) == y,
{
}

} // verus!
