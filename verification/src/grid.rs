//! The fixed 3-by-3 layout: cell size 200, spacing 200, centred at the
//! origin, ordinals assigned row-major over the generation loop.

use vstd::prelude::*;
use vstd::arithmetic::div_mod::lemma_fundamental_div_mod;
use vstd::arithmetic::div_mod::lemma_fundamental_div_mod_converse;
use crate::geometry::Point;
use crate::tiles::GameTile;

verus! {

/// The tile at index `k` of the generation order, for `0 <= k < 9`.
/// The outer loop variable is `i = k / 3` (stepping x), the inner one
/// `j = k % 3` (stepping y); cells are 200 units wide and tall, so the
/// grid covers `[-300, 300)` on both axes.
pub open spec fn tile_at(k: int) -> GameTile {
    GameTile {
        center: Point {
            x: ((k / 3) * 200 - 200) as i64,
            y: ((k % 3) * 200 - 200) as i64,
        },
        half_extents: Point { x: 100, y: 100 },
        number: (k + 1) as i8,
        visual: k as usize,
    }
}

/// Builds the nine tile records of the grid, in generation order.
/// Tile `k` gets the visual handle `k`: the host spawns one visual per
/// tile in the same order and indexes its store with the handle.
pub fn generate_tiles() -> (tiles: Vec<GameTile>)
    ensures
        tiles@.len() == 9,
        forall|k: int| 0 <= k < 9 ==> tiles@[k] == tile_at(k),
        forall|k: int| 0 <= k < 9 ==> (#[trigger] tiles@[k]).wf(),
{
    let mut tiles: Vec<GameTile> = Vec::new();
    let mut i: i64 = 0;
    while i < 3
        invariant
            0 <= i <= 3,
            tiles@.len() == 3 * i,
            forall|k: int| 0 <= k < tiles@.len() ==> tiles@[k] == tile_at(k),
        decreases 3 - i,
    {
        let mut j: i64 = 0;
        while j < 3
            invariant
                0 <= i < 3,
                0 <= j <= 3,
                tiles@.len() == 3 * i + j,
                forall|k: int| 0 <= k < tiles@.len() ==> tiles@[k] == tile_at(k),
            decreases 3 - j,
        {
            let position_x: i64 = i * 200 - 200;
            let position_y: i64 = j * 200 - 200;
            let tile = GameTile {
                center: Point { x: position_x, y: position_y },
                half_extents: Point { x: 100, y: 100 },
                number: (i * 3 + j + 1) as i8,
                visual: tiles.len(),
            };
            proof {
                lemma_fundamental_div_mod_converse(3 * i + j, 3, i as int, j as int);
                assert(tile == tile_at(3 * i + j));
            }
            tiles.push(tile);
            j = j + 1;
        }
        i = i + 1;
    }
    proof {
        assert forall|k: int| 0 <= k < 9 implies (#[trigger] tiles@[k]).wf() by {
            lemma_tiles_wf(k);
        }
    }
    tiles
}

/// Every generated tile is well formed, with positive extents.
pub proof fn lemma_tiles_wf(k: int)
    requires
        0 <= k < 9,
    ensures
        tile_at(k).wf(),
        0 < tile_at(k).half_extents.x,
        0 < tile_at(k).half_extents.y,
{
}

/// Law: ordinals are assigned row-major over the generation loop,
/// `ordinal = i * 3 + j + 1` for loop indices `i, j` in `0..3`.
pub proof fn lemma_ordinal_row_major(i: int, j: int)
    requires
        0 <= i < 3,
        0 <= j < 3,
    ensures
        tile_at(3 * i + j).number == i * 3 + j + 1,
{
    lemma_fundamental_div_mod_converse(3 * i + j, 3, i, j);
}

/// Law: the nine ordinals are unique integers in `1..=9`.
pub proof fn lemma_ordinals_unique(k1: int, k2: int)
    requires
        0 <= k1 < 9,
        0 <= k2 < 9,
        k1 != k2,
    ensures
        tile_at(k1).number == k1 + 1,
        1 <= tile_at(k1).number <= 9,
        tile_at(k1).number != tile_at(k2).number,
{
}

/// Law: no two distinct grid tiles contain the same point.
pub proof fn lemma_tiles_disjoint(k1: int, k2: int, x: int, y: int)
    requires
        0 <= k1 < 9,
        0 <= k2 < 9,
        tile_at(k1).contains_at(x, y),
        tile_at(k2).contains_at(x, y),
    ensures
        k1 == k2,
{
    lemma_fundamental_div_mod_converse(x + 300, 200, k1 / 3, x + 300 - 200 * (k1 / 3));
    lemma_fundamental_div_mod_converse(x + 300, 200, k2 / 3, x + 300 - 200 * (k2 / 3));
    lemma_fundamental_div_mod_converse(y + 300, 200, k1 % 3, y + 300 - 200 * (k1 % 3));
    lemma_fundamental_div_mod_converse(y + 300, 200, k2 % 3, y + 300 - 200 * (k2 % 3));
    lemma_fundamental_div_mod(k1, 3);
    lemma_fundamental_div_mod(k2, 3);
}

/// Law: the grid has no gaps. Every point of the square `[-300, 300)`
/// on both axes lies in some tile.
pub proof fn lemma_tiles_cover(x: int, y: int)
    requires
        -300 <= x < 300,
        -300 <= y < 300,
    ensures
        exists|k: int| 0 <= k < 9 && (#[trigger] tile_at(k)).contains_at(x, y),
{
    let i = (x + 300) / 200;
    let j = (y + 300) / 200;
    lemma_fundamental_div_mod(x + 300, 200);
    lemma_fundamental_div_mod(y + 300, 200);
    lemma_fundamental_div_mod_converse(3 * i + j, 3, i, j);
    assert(tile_at(3 * i + j).contains_at(x, y));
}

} // verus!
