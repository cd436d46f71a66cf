use tile_world::{
    cell_center, cell_containing, cell_coords, cell_index, to_top_down, GroundPoint, Position,
    TileSettings, GRID_SIZE,
};

#[test]
fn default_settings() {
    assert_eq!(TileSettings::default().tile_size, 5000);
    assert_eq!(TileSettings::standard(), TileSettings::default());
    assert_eq!(GRID_SIZE, 50);
}

#[test]
fn centers_follow_layout_formula() {
    // x = col * ts - (n * ts) / 2, z = row * ts - (n * ts) / 2
    assert_eq!(cell_center(50, 5000, 0, 0), GroundPoint { x: -125000, z: -125000 });
    assert_eq!(cell_center(50, 5000, 2, 7), GroundPoint { x: -90000, z: -115000 });
    assert_eq!(cell_center(50, 5000, 49, 49), GroundPoint { x: 120000, z: 120000 });
    assert_eq!(cell_center(3, 5000, 1, 1), GroundPoint { x: -2500, z: -2500 });
    // an odd extent rounds its half down
    assert_eq!(cell_center(3, 5, 0, 2), GroundPoint { x: 3, z: -7 });
}

#[test]
fn layout_round_trip_every_cell() {
    for (n, ts) in [(50u32, 5000u32), (3, 5000), (3, 5), (1, 1), (7, 2)] {
        for row in 0..n {
            for col in 0..n {
                let p = cell_center(n, ts, row, col);
                assert_eq!(cell_containing(n, ts, p), Some((row, col)));
            }
        }
    }
}

#[test]
fn points_inside_a_footprint_map_to_its_cell() {
    // cells of a 3 x 5000 grid are centred at -7500, -2500 and 2500 on each axis
    assert_eq!(cell_containing(3, 5000, GroundPoint { x: -7500, z: -7500 }), Some((0, 0)));
    assert_eq!(cell_containing(3, 5000, GroundPoint { x: -10000, z: -5001 }), Some((0, 0)));
    assert_eq!(cell_containing(3, 5000, GroundPoint { x: -5000, z: -7500 }), Some((0, 1)));
    assert_eq!(cell_containing(3, 5000, GroundPoint { x: 4999, z: 4999 }), Some((2, 2)));
}

#[test]
fn points_off_the_grid_map_to_nothing() {
    assert_eq!(cell_containing(3, 5000, GroundPoint { x: -10001, z: 0 }), None);
    assert_eq!(cell_containing(3, 5000, GroundPoint { x: 0, z: 5000 }), None);
    assert_eq!(cell_containing(3, 5000, GroundPoint { x: i64::MAX, z: i64::MIN }), None);
}

#[test]
fn cell_index_and_coords_agree() {
    assert_eq!(cell_index(3, 1, 1), 4);
    assert_eq!(cell_index(50, 2, 7), 107);
    assert_eq!(cell_coords(50, 107), (2, 7));
    for id in 0..9usize {
        let (row, col) = cell_coords(3, id);
        assert_eq!(cell_index(3, row, col), id);
    }
}

#[test]
fn top_down_drops_height() {
    let p = Position { x: 4, y: 99, z: -6 };
    assert_eq!(to_top_down(p), GroundPoint { x: 4, z: -6 });
}

#[test]
fn grid_fits_bounds() {
    assert!(tile_world::grid_fits(50, 5000));
    assert!(tile_world::grid_fits(1, 1));
    assert!(!tile_world::grid_fits(0, 5000));
    assert!(!tile_world::grid_fits(3, 0));
    assert!(!tile_world::grid_fits(u32::MAX, u32::MAX));
}
