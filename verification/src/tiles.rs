//! The grid tiles: layout, hit testing, and the two visual states.

use vstd::prelude::*;
use crate::geometry::Point;
use crate::geometry::rel_x;
use crate::geometry::rel_y;
use crate::geometry::rel_in_range;

verus! {

/// A visual colour, as a plain 4-component record with 8-bit channels.
/// Only two values are ever used: fully transparent and the highlight.
#[derive(Clone, Copy, Debug, PartialEq, Eq, Structural)]
pub struct Rgba {
    pub red: u8,
    pub green: u8,
    pub blue: u8,
    pub alpha: u8,
}

/// The fully transparent colour that an idle tile shows.
pub open spec fn no_color_spec() -> Rgba {
    Rgba { red: 0, green: 0, blue: 0, alpha: 0 }
}

/// The opaque blue that a hovered tile shows.
pub open spec fn highlight_color_spec() -> Rgba {
    Rgba { red: 0, green: 0, blue: 255, alpha: 255 }
}

/// The fully transparent colour that an idle tile shows.
pub fn no_color() -> (c: Rgba)
    ensures
        c == no_color_spec(),
{
    Rgba { red: 0, green: 0, blue: 0, alpha: 0 }
}

/// The opaque blue that a hovered tile shows.
pub fn highlight_color() -> (c: Rgba)
    ensures
        c == highlight_color_spec(),
{
    Rgba { red: 0, green: 0, blue: 255, alpha: 255 }
}

/// One cell of the grid. Fixed at creation: only the colour of its
/// associated visual changes afterwards, and that lives in the host's
/// store, reached through the `visual` handle.
#[derive(Clone, Copy, Debug, PartialEq, Eq, Structural)]
pub struct GameTile {
    /// Centre of the tile, in relative (world) coordinates.
    pub center: Point,
    /// Half of the tile's width and height.
    pub half_extents: Point,
    /// 1-based ordinal of the tile, assigned row-major at creation.
    pub number: i8,
    /// Handle of the tile's visual element in the host's store.
    pub visual: usize,
}

impl GameTile {
    /// Well-formed: nonnegative half-extents, and the tile's edges
    /// representable in `i64`, so that hit tests cannot overflow.
    pub open spec fn wf(self) -> bool {
        &&& 0 <= self.half_extents.x
        &&& 0 <= self.half_extents.y
        &&& i64::MIN <= self.center.x - self.half_extents.x
        &&& self.center.x + self.half_extents.x <= i64::MAX
        &&& i64::MIN <= self.center.y - self.half_extents.y
        &&& self.center.y + self.half_extents.y <= i64::MAX
    }

    /// The point `(x, y)` lies inside the tile: within the half-open
    /// interval `[centre - half, centre + half)` on both axes.
    pub open spec fn contains_at(self, x: int, y: int) -> bool {
        &&& self.center.x - self.half_extents.x <= x < self.center.x + self.half_extents.x
        &&& self.center.y - self.half_extents.y <= y < self.center.y + self.half_extents.y
    }

    /// `contains_at`, on a point held as a `Point`.
    pub open spec fn contains_spec(self, point: Point) -> bool {
        self.contains_at(point.x as int, point.y as int)
    }

    /// The cursor hovers over the tile: it has a position, and that
    /// position, mapped to relative coordinates, lies inside the tile.
    /// An absent cursor (pointer outside the window) hovers nothing.
    pub open spec fn hovered_spec(
        self,
        window_width: int,
        window_height: int,
        cursor: Option<Point>,
    ) -> bool {
        match cursor {
            Some(p) => self.contains_at(
                rel_x(window_width, p.x as int),
                rel_y(window_height, p.y as int),
            ),
            None => false,
        }
    }

    /// Half-open containment test on both axes.
    pub fn contains(&self, point: Point) -> (r: bool)
        requires
            self.wf(),
        ensures
            r == self.contains_spec(point),
    {
        let left: i64 = self.center.x - self.half_extents.x;
        let right: i64 = self.center.x + self.half_extents.x;
        let bottom: i64 = self.center.y - self.half_extents.y;
        let top: i64 = self.center.y + self.half_extents.y;
        left <= point.x && point.x < right && bottom <= point.y && point.y < top
    }

    /// Whether the cursor, given as an absolute position when present,
    /// hovers over this tile.
    pub fn contains_cursor(
        &self,
        window_width: u32,
        window_height: u32,
        cursor: Option<Point>,
    ) -> (r: bool)
        requires
            self.wf(),
            cursor is Some ==> rel_in_range(
                window_width as int,
                window_height as int,
                cursor->Some_0,
            ),
        ensures
            r == self.hovered_spec(window_width as int, window_height as int, cursor),
    {
        match cursor {
            Some(position) => {
                let relative_position = crate::geometry::window_absolute_to_relative(
                    window_width,
                    window_height,
                    position,
                );
                self.contains(relative_position)
            },
            None => false,
        }
    }
}

/// Law: every tile with positive extents contains its own centre.
pub proof fn lemma_contains_center(t: GameTile)
    requires
        0 < t.half_extents.x,
        0 < t.half_extents.y,
    ensures
        t.contains_spec(t.center),
{
}

/// Law: on the x axis, containment is closed on the low edge and open
/// on the high edge: the point at `centre.x - half_extents.x` is inside,
/// the point at `centre.x + half_extents.x` is not.
pub proof fn lemma_boundary_x(t: GameTile, y: int)
    requires
        0 < t.half_extents.x,
        t.center.y - t.half_extents.y <= y < t.center.y + t.half_extents.y,
    ensures
        t.contains_at(t.center.x - t.half_extents.x, y),
        !t.contains_at(t.center.x + t.half_extents.x, y),
{
}

/// Law: on the y axis, containment is closed on the low edge and open
/// on the high edge.
pub proof fn lemma_boundary_y(t: GameTile, x: int)
    requires
        0 < t.half_extents.y,
        t.center.x - t.half_extents.x <= x < t.center.x + t.half_extents.x,
    ensures
        t.contains_at(x, t.center.y - t.half_extents.y),
        !t.contains_at(x, t.center.y + t.half_extents.y),
{
}

} // verus!
