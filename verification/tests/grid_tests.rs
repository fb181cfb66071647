use grid_tiles::frame::check_mouse_clicks;
use grid_tiles::frame::draw_gizmos_lines;
use grid_tiles::frame::draw_gizmos_rect;
use grid_tiles::frame::update_tile_colors;
use grid_tiles::geometry::window_absolute_to_relative;
use grid_tiles::geometry::window_relative_to_absolute;
use grid_tiles::geometry::Point;
use grid_tiles::grid::generate_tiles;
use grid_tiles::tiles::highlight_color;
use grid_tiles::tiles::no_color;

#[test]
fn ordinals_row_major() {
    let tiles = generate_tiles();
    assert_eq!(tiles.len(), 9);
    for i in 0..3i64 {
        for j in 0..3i64 {
            let k = (i * 3 + j) as usize;
            let tile = &tiles[k];
            assert_eq!(tile.number as i64, i * 3 + j + 1);
            assert_eq!(tile.center, Point { x: i * 200 - 200, y: j * 200 - 200 });
            assert_eq!(tile.half_extents, Point { x: 100, y: 100 });
            assert_eq!(tile.visual, k);
        }
    }
}

#[test]
fn ordinals_unique() {
    let tiles = generate_tiles();
    let mut seen = [false; 10];
    for tile in &tiles {
        assert!(1 <= tile.number && tile.number <= 9);
        assert!(!seen[tile.number as usize]);
        seen[tile.number as usize] = true;
    }
}

#[test]
fn round_trip_exact() {
    let cases = [
        (800u32, 600u32, Point { x: 400, y: 300 }),
        (800, 600, Point { x: 0, y: 0 }),
        (800, 600, Point { x: 799, y: 599 }),
        (801, 601, Point { x: 123, y: -456 }),
        (1, 1, Point { x: -7, y: 9 }),
        (0, 0, Point { x: 5, y: -5 }),
    ];
    for (w, h, p) in cases {
        let rel = window_absolute_to_relative(w, h, p);
        let back = window_relative_to_absolute(w, h, rel);
        assert_eq!(back, p);
        let abs = window_relative_to_absolute(w, h, p);
        let back_rel = window_absolute_to_relative(w, h, abs);
        assert_eq!(back_rel, p);
    }
}

#[test]
fn contains_center_of_every_tile() {
    let tiles = generate_tiles();
    for tile in &tiles {
        assert!(tile.contains(tile.center));
    }
}

#[test]
fn boundary_closed_low_open_high() {
    let tiles = generate_tiles();
    let center = tiles.iter().find(|t| t.number == 5).unwrap();
    assert_eq!(center.center, Point { x: 0, y: 0 });
    // Closed on the negative edge.
    assert!(center.contains(Point { x: -100, y: 0 }));
    assert!(center.contains(Point { x: 0, y: -100 }));
    assert!(center.contains(Point { x: -100, y: -100 }));
    // Open on the positive edge: the exact boundary is excluded.
    assert!(!center.contains(Point { x: 100, y: 0 }));
    assert!(!center.contains(Point { x: 0, y: 100 }));
    assert!(center.contains(Point { x: 99, y: 99 }));
    assert!(!center.contains(Point { x: 100, y: 99 }));
}

#[test]
fn no_overlap_no_gaps() {
    let tiles = generate_tiles();
    let samples = [-300i64, -299, -201, -200, -101, -100, -99, -1, 0, 1, 99, 100, 101, 199, 200, 299];
    for &x in &samples {
        for &y in &samples {
            let hits = tiles.iter().filter(|t| t.contains(Point { x, y })).count();
            assert_eq!(hits, 1, "point ({}, {}) hit {} tiles", x, y, hits);
        }
    }
    // Points at or past the grid's positive edge fall in no tile.
    for &v in &[300i64, 301, 1000] {
        assert_eq!(tiles.iter().filter(|t| t.contains(Point { x: v, y: 0 })).count(), 0);
        assert_eq!(tiles.iter().filter(|t| t.contains(Point { x: 0, y: v })).count(), 0);
    }
}

#[test]
fn pointer_at_window_center_hits_tile_five_only() {
    let tiles = generate_tiles();
    let rel = window_absolute_to_relative(800, 600, Point { x: 400, y: 300 });
    assert_eq!(rel, Point { x: 0, y: 0 });
    let hit: Vec<i8> = tiles.iter().filter(|t| t.contains(rel)).map(|t| t.number).collect();
    assert_eq!(hit, vec![5]);
    let colors = update_tile_colors(&tiles, 800, 600, Some(Point { x: 400, y: 300 }));
    for (k, color) in colors.iter().enumerate() {
        if tiles[k].number == 5 {
            assert_eq!(*color, highlight_color());
        } else {
            assert_eq!(*color, no_color());
        }
    }
}

#[test]
fn pointer_outside_grid_hits_nothing() {
    let tiles = generate_tiles();
    // An absolute position whose relative position is (1000, 1000).
    let abs = window_relative_to_absolute(800, 600, Point { x: 1000, y: 1000 });
    assert_eq!(abs, Point { x: 1400, y: -700 });
    for tile in &tiles {
        assert!(!tile.contains(Point { x: 1000, y: 1000 }));
        assert!(!tile.contains_cursor(800, 600, Some(abs)));
    }
    let colors = update_tile_colors(&tiles, 800, 600, Some(abs));
    assert_eq!(colors.len(), 9);
    for color in &colors {
        assert_eq!(*color, no_color());
    }
}

#[test]
fn absent_cursor_hovers_nothing() {
    let tiles = generate_tiles();
    for tile in &tiles {
        assert!(!tile.contains_cursor(800, 600, None));
    }
    let colors = update_tile_colors(&tiles, 800, 600, None);
    assert_eq!(colors.len(), 9);
    for color in &colors {
        assert_eq!(*color, no_color());
    }
}

#[test]
fn click_on_tile_one_emits_one_record() {
    let tiles = generate_tiles();
    // Tile ordinal 1 is centred at (-200, -200); in an 800 by 600 window
    // that is the absolute position (200, 500).
    let abs = window_relative_to_absolute(800, 600, Point { x: -200, y: -200 });
    assert_eq!(abs, Point { x: 200, y: 500 });
    let records = check_mouse_clicks(&tiles, 800, 600, Some(abs), true);
    assert_eq!(records.len(), 1);
    assert_eq!(records[0].number, 1);
    assert_eq!(records[0].center, Point { x: -200, y: -200 });
}

#[test]
fn no_click_edge_emits_nothing() {
    let tiles = generate_tiles();
    let abs = Point { x: 200, y: 500 };
    let records = check_mouse_clicks(&tiles, 800, 600, Some(abs), false);
    assert!(records.is_empty());
    let no_cursor = check_mouse_clicks(&tiles, 800, 600, None, true);
    assert!(no_cursor.is_empty());
}

#[test]
fn click_between_tiles_emits_nothing() {
    let tiles = generate_tiles();
    // Relative (300, 300) is the top-right corner of the whole grid,
    // excluded by the half-open intervals.
    let abs = window_relative_to_absolute(800, 600, Point { x: 300, y: 300 });
    let records = check_mouse_clicks(&tiles, 800, 600, Some(abs), true);
    assert!(records.is_empty());
}

#[test]
fn the_two_colors() {
    let transparent = no_color();
    assert_eq!(transparent.red, 0);
    assert_eq!(transparent.green, 0);
    assert_eq!(transparent.blue, 0);
    assert_eq!(transparent.alpha, 0);
    let highlight = highlight_color();
    assert_eq!(highlight.red, 0);
    assert_eq!(highlight.green, 0);
    assert_eq!(highlight.blue, 255);
    assert_eq!(highlight.alpha, 255);
}

#[test]
fn guide_geometry() {
    let lines = draw_gizmos_lines();
    assert_eq!(lines.len(), 4);
    assert_eq!(lines[0].a, Point { x: -100, y: -300 });
    assert_eq!(lines[0].b, Point { x: -100, y: 300 });
    assert_eq!(lines[1].a, Point { x: 100, y: -300 });
    assert_eq!(lines[1].b, Point { x: 100, y: 300 });
    assert_eq!(lines[2].a, Point { x: -300, y: -100 });
    assert_eq!(lines[2].b, Point { x: 300, y: -100 });
    assert_eq!(lines[3].a, Point { x: -300, y: 100 });
    assert_eq!(lines[3].b, Point { x: 300, y: 100 });
    let rect = draw_gizmos_rect();
    assert_eq!(rect.0, Point { x: 0, y: 0 });
    assert_eq!(rect.1, Point { x: 600, y: 600 });
}
