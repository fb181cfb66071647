//! The per-frame behaviours: hover highlighting, click reporting, and
//! the fixed guide geometry drawn every frame.
//!
//! Each function is a pure decision from the current frame's inputs
//! (tile list, window size, pointer state) to plain values; the host
//! engine applies the results to its own stores.

use vstd::prelude::*;
use crate::geometry::Point;
use crate::geometry::rel_in_range;
use crate::tiles::GameTile;
use crate::tiles::Rgba;
use crate::tiles::no_color;
use crate::tiles::no_color_spec;
use crate::tiles::highlight_color;
use crate::tiles::highlight_color_spec;

verus! {

/// The colour a tile shows this frame: the highlight when the cursor
/// hovers over it, fully transparent otherwise.
pub open spec fn tile_color_spec(
    tile: GameTile,
    window_width: int,
    window_height: int,
    cursor: Option<Point>,
) -> Rgba {
    if tile.hovered_spec(window_width, window_height, cursor) {
        highlight_color_spec()
    } else {
        no_color_spec()
    }
}

/// Decides each tile's colour for the current frame from the cursor
/// position alone: the result holds one colour per tile, in tile order,
/// to be written to the visual that the tile's handle names. With no
/// cursor (pointer outside the window) every tile is transparent.
pub fn update_tile_colors(
    tiles: &Vec<GameTile>,
    window_width: u32,
    window_height: u32,
    cursor: Option<Point>,
) -> (colors: Vec<Rgba>)
    requires
        forall|k: int| 0 <= k < tiles@.len() ==> (#[trigger] tiles@[k]).wf(),
        cursor is Some ==> rel_in_range(
            window_width as int,
            window_height as int,
            cursor->Some_0,
        ),
    ensures
        colors@.len() == tiles@.len(),
        forall|k: int| 0 <= k < tiles@.len() ==> colors@[k] == tile_color_spec(
            tiles@[k],
            window_width as int,
            window_height as int,
            cursor,
        ),
{
    let mut colors: Vec<Rgba> = Vec::new();
    let mut idx: usize = 0;
    while idx < tiles.len()
        invariant
            0 <= idx <= tiles@.len(),
            colors@.len() == idx,
            forall|k: int| 0 <= k < tiles@.len() ==> (#[trigger] tiles@[k]).wf(),
            cursor is Some ==> rel_in_range(
                window_width as int,
                window_height as int,
                cursor->Some_0,
            ),
            forall|k: int| 0 <= k < idx ==> colors@[k] == tile_color_spec(
                tiles@[k],
                window_width as int,
                window_height as int,
                cursor,
            ),
        decreases tiles@.len() - idx,
    {
        let tile = tiles[idx];
        let color = if tile.contains_cursor(window_width, window_height, cursor) {
            highlight_color()
        } else {
            no_color()
        };
        colors.push(color);
        idx = idx + 1;
    }
    colors
}

/// One diagnostic record of a click: the ordinal and centre of a tile
/// that contained the click position.
#[derive(Clone, Copy, Debug, PartialEq, Eq, Structural)]
pub struct ClickRecord {
    /// Ordinal of the tile that was hit.
    pub number: i8,
    /// Centre of the tile that was hit, in relative coordinates.
    pub center: Point,
}

/// The record emitted for a hit on `tile`.
pub open spec fn record_of(tile: GameTile) -> ClickRecord {
    ClickRecord { number: tile.number, center: tile.center }
}

/// The records of one click: for each tile that contains the cursor's
/// relative position, in tile order, one record. Tiles never overlap in
/// the generated layout, so at most one record arises there; were tiles
/// to overlap, every hit would be reported.
pub open spec fn click_records_spec(
    tiles: Seq<GameTile>,
    window_width: int,
    window_height: int,
    cursor: Option<Point>,
) -> Seq<ClickRecord>
    decreases tiles.len(),
{
    if tiles.len() == 0 {
        Seq::empty()
    } else {
        let rest = click_records_spec(tiles.drop_last(), window_width, window_height, cursor);
        if tiles.last().hovered_spec(window_width, window_height, cursor) {
            rest.push(record_of(tiles.last()))
        } else {
            rest
        }
    }
}

/// On the rising edge of the primary button, re-runs the hit test over
/// all tiles and reports each tile that contains the click position.
/// On any other frame, or with no cursor, nothing is reported.
pub fn check_mouse_clicks(
    tiles: &Vec<GameTile>,
    window_width: u32,
    window_height: u32,
    cursor: Option<Point>,
    left_just_pressed: bool,
) -> (records: Vec<ClickRecord>)
    requires
        forall|k: int| 0 <= k < tiles@.len() ==> (#[trigger] tiles@[k]).wf(),
        cursor is Some ==> rel_in_range(
            window_width as int,
            window_height as int,
            cursor->Some_0,
        ),
    ensures
        left_just_pressed ==> records@ == click_records_spec(
            tiles@,
            window_width as int,
            window_height as int,
            cursor,
        ),
        !left_just_pressed ==> records@ == Seq::<ClickRecord>::empty(),
{
    let mut records: Vec<ClickRecord> = Vec::new();
    if !left_just_pressed {
        return records;
    }
    let mut idx: usize = 0;
    while idx < tiles.len()
        invariant
            0 <= idx <= tiles@.len(),
            forall|k: int| 0 <= k < tiles@.len() ==> (#[trigger] tiles@[k]).wf(),
            cursor is Some ==> rel_in_range(
                window_width as int,
                window_height as int,
                cursor->Some_0,
            ),
            records@ == click_records_spec(
                tiles@.take(idx as int),
                window_width as int,
                window_height as int,
                cursor,
            ),
        decreases tiles@.len() - idx,
    {
        let tile = tiles[idx];
        proof {
            assert(tiles@.take(idx + 1).drop_last() =~= tiles@.take(idx as int));
            assert(tiles@.take(idx + 1).last() == tiles@[idx as int]);
        }
        if tile.contains_cursor(window_width, window_height, cursor) {
            records.push(ClickRecord { number: tile.number, center: tile.center });
        }
        idx = idx + 1;
    }
    proof {
        assert(tiles@.take(tiles@.len() as int) =~= tiles@);
    }
    records
}

/// If a click produced any record, some tile was hovered.
proof fn lemma_click_records_hovered(
    tiles: Seq<GameTile>,
    window_width: int,
    window_height: int,
    cursor: Option<Point>,
)
    ensures
        click_records_spec(tiles, window_width, window_height, cursor).len() > 0 ==> exists|k: int|
            0 <= k < tiles.len() && (#[trigger] tiles[k]).hovered_spec(
                window_width,
                window_height,
                cursor,
            ),
    decreases tiles.len(),
{
    if tiles.len() > 0 {
        lemma_click_records_hovered(tiles.drop_last(), window_width, window_height, cursor);
        if tiles.last().hovered_spec(window_width, window_height, cursor) {
            assert(tiles[tiles.len() - 1].hovered_spec(window_width, window_height, cursor));
        }
    }
}

/// Law: over the generated grid, whose tiles never overlap, one click
/// yields at most one record, whatever the cursor position. The
/// argument covers any prefix of the generation order, so it applies
/// to the grid as a whole.
pub proof fn lemma_at_most_one_record(
    tiles: Seq<GameTile>,
    window_width: int,
    window_height: int,
    cursor: Option<Point>,
)
    requires
        tiles.len() <= 9,
        forall|k: int| 0 <= k < tiles.len() ==> tiles[k] == crate::grid::tile_at(k),
    ensures
        click_records_spec(tiles, window_width, window_height, cursor).len() <= 1,
    decreases tiles.len(),
{
    if tiles.len() > 0 {
        let rest = tiles.drop_last();
        lemma_at_most_one_record(rest, window_width, window_height, cursor);
        if tiles.last().hovered_spec(window_width, window_height, cursor)
            && click_records_spec(rest, window_width, window_height, cursor).len() > 0 {
            lemma_click_records_hovered(rest, window_width, window_height, cursor);
            let k = choose|k: int|
                0 <= k < rest.len() && (#[trigger] rest[k]).hovered_spec(
                    window_width,
                    window_height,
                    cursor,
                );
            let p = cursor->Some_0;
            crate::grid::lemma_tiles_disjoint(
                k,
                tiles.len() - 1,
                crate::geometry::rel_x(window_width, p.x as int),
                crate::geometry::rel_y(window_height, p.y as int),
            );
        }
    }
}

/// One guide segment, drawn every frame for visual reference.
#[derive(Clone, Copy, Debug, PartialEq, Eq, Structural)]
pub struct Segment {
    /// One endpoint of the segment.
    pub a: Point,
    /// The other endpoint of the segment.
    pub b: Point,
}

/// The four static delimiter lines between the grid's rows and columns:
/// two vertical at x = -100 and x = 100, two horizontal at y = -100 and
/// y = 100, each spanning the grid's 600-unit extent.
pub open spec fn guide_segments() -> Seq<Segment> {
    seq![
        Segment {
            a: Point { x: -100i64, y: -300i64 },
            b: Point { x: -100i64, y: 300i64 },
        },
        Segment {
            a: Point { x: 100i64, y: -300i64 },
            b: Point { x: 100i64, y: 300i64 },
        },
        Segment {
            a: Point { x: -300i64, y: -100i64 },
            b: Point { x: 300i64, y: -100i64 },
        },
        Segment {
            a: Point { x: -300i64, y: 100i64 },
            b: Point { x: 300i64, y: 100i64 },
        },
    ]
}

/// The geometry drawn every frame: the four delimiter lines, in the
/// order they are drawn.
pub fn draw_gizmos_lines() -> (lines: Vec<Segment>)
    ensures
        lines@ == guide_segments(),
{
    let mut lines: Vec<Segment> = Vec::new();
    lines.push(Segment { a: Point { x: -100, y: -300 }, b: Point { x: -100, y: 300 } });
    lines.push(Segment { a: Point { x: 100, y: -300 }, b: Point { x: 100, y: 300 } });
    lines.push(Segment { a: Point { x: -300, y: -100 }, b: Point { x: 300, y: -100 } });
    lines.push(Segment { a: Point { x: -300, y: 100 }, b: Point { x: 300, y: 100 } });
    proof {
        assert(lines@ =~= guide_segments());
    }
    lines
}

/// The bounding rectangle drawn round the whole grid every frame:
/// centred at the origin, 600 units on each side.
pub fn draw_gizmos_rect() -> (rect: (Point, Point))
    ensures
        rect.0 == (Point { x: 0, y: 0 }),
        rect.1 == (Point { x: 600, y: 600 }),
{
    (Point { x: 0, y: 0 }, Point { x: 600, y: 600 })
}

} // verus!
