use arena_sim::grid::{TileGrid, Tile, tile_is_solid, DENSITY_MAX, MAP_CELLS, CELL_MILLI};
use arena_sim::geom::Vec2I;

#[test]
fn seeded_grid_has_bounded_noise_and_no_obstacles() {
    let g = TileGrid::new_seeded();
    assert_eq!(g.cells.len(), MAP_CELLS);
    for t in g.cells.iter() {
        assert!(t.density < DENSITY_MAX);
        assert!(!t.solid);
    }
}

#[test]
fn query_floors_world_coordinates_to_cells() {
    let g = TileGrid::new_seeded();
    // both coordinates floor to cell (2, 3): index 2 * 100 + 3
    let t = g.query(Vec2I { x: 2 * CELL_MILLI + 49_999, y: 3 * CELL_MILLI }).unwrap();
    assert_eq!(t, g.cells[203]);
    assert!(g.query(Vec2I { x: -1, y: 0 }).is_none());
    assert!(g.query(Vec2I { x: 0, y: 5_000_000 }).is_none());
}

#[test]
fn solidity_is_the_flag() {
    assert!(tile_is_solid(&Tile { density: 0, solid: true }));
    assert!(!tile_is_solid(&Tile { density: 199, solid: false }));
}
