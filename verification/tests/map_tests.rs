use rustlike::map::map_with_walls;
use rustlike::map::new_map;
use rustlike::map::bordered_map;
use rustlike::map::place_wall;
use rustlike::map::xy_idx;
use rustlike::map::TileType;
use rustlike::map::MAP_COUNT;
use rustlike::map::MAP_HEIGHT;
use rustlike::map::MAP_WIDTH;
use rustlike::map::SPAWN_X;
use rustlike::map::SPAWN_Y;
use rustlike::map::WALL_TRIALS;

fn interior_walls(map: &Vec<TileType>) -> usize {
    let mut n = 0;
    for y in 1..MAP_HEIGHT - 1 {
        for x in 1..MAP_WIDTH - 1 {
            if map[xy_idx(x, y)] == TileType::Wall {
                n += 1;
            }
        }
    }
    n
}

#[test]
fn xy_idx_is_row_major() {
    assert_eq!(xy_idx(0, 0), 0);
    assert_eq!(xy_idx(79, 0), 79);
    assert_eq!(xy_idx(0, 1), 80);
    assert_eq!(xy_idx(40, 25), 2040);
    assert_eq!(xy_idx(79, 49), 3999);
}

#[test]
fn xy_idx_hits_every_index_once() {
    let mut seen = vec![false; MAP_COUNT];
    for y in 0..MAP_HEIGHT {
        for x in 0..MAP_WIDTH {
            let idx = xy_idx(x, y);
            assert!(idx < MAP_COUNT);
            assert!(!seen[idx]);
            seen[idx] = true;
        }
    }
    assert!(seen.iter().all(|s| *s));
}

#[test]
fn bordered_map_has_walls_on_the_perimeter_only() {
    let map = bordered_map();
    assert_eq!(map.len(), 4000);
    for y in 0..MAP_HEIGHT {
        for x in 0..MAP_WIDTH {
            let border = x == 0 || x == 79 || y == 0 || y == 49;
            let expected = if border { TileType::Wall } else { TileType::Floor };
            assert_eq!(map[xy_idx(x, y)], expected);
        }
    }
}

#[test]
fn place_wall_sets_one_cell() {
    let mut map = bordered_map();
    place_wall(&mut map, 3, 4);
    let mut expected = bordered_map();
    expected[4 * 80 + 3] = TileType::Wall;
    assert_eq!(map, expected);
}

#[test]
fn place_wall_skips_the_spawn_cell() {
    let mut map = bordered_map();
    place_wall(&mut map, SPAWN_X, SPAWN_Y);
    assert_eq!(map, bordered_map());
    assert_eq!(map[xy_idx(40, 25)], TileType::Floor);
}

#[test]
fn map_with_walls_places_each_cell() {
    let cells = vec![(1, 1), (78, 48), (40, 25), (10, 20), (10, 20), (41, 25)];
    let map = map_with_walls(&cells);
    assert_eq!(map.len(), 4000);
    assert_eq!(map[xy_idx(1, 1)], TileType::Wall);
    assert_eq!(map[xy_idx(78, 48)], TileType::Wall);
    assert_eq!(map[xy_idx(10, 20)], TileType::Wall);
    assert_eq!(map[xy_idx(41, 25)], TileType::Wall);
    assert_eq!(map[xy_idx(40, 25)], TileType::Floor);
    assert_eq!(map[xy_idx(2, 2)], TileType::Floor);
    assert_eq!(interior_walls(&map), 4);
}

#[test]
fn map_with_walls_of_nothing_is_the_bordered_map() {
    let map = map_with_walls(&Vec::new());
    assert_eq!(map, bordered_map());
    assert_eq!(interior_walls(&map), 0);
}

#[test]
fn new_map_has_wall_on_top_and_bottom_rows() {
    let map = new_map();
    for x in 0..80 {
        assert_eq!(map[xy_idx(x, 0)], TileType::Wall);
        assert_eq!(map[xy_idx(x, 49)], TileType::Wall);
    }
}

#[test]
fn new_map_has_wall_on_left_and_right_columns() {
    let map = new_map();
    for y in 0..50 {
        assert_eq!(map[xy_idx(0, y)], TileType::Wall);
        assert_eq!(map[xy_idx(79, y)], TileType::Wall);
    }
}

#[test]
fn new_map_keeps_the_spawn_cell_free() {
    for _ in 0..50 {
        let map = new_map();
        assert_eq!(map[xy_idx(40, 25)], TileType::Floor);
    }
}

#[test]
fn new_map_has_4000_tiles_and_at_most_400_inner_walls() {
    let map = new_map();
    assert_eq!(map.len(), 4000);
    let walls = interior_walls(&map);
    assert!(walls >= 100);
    assert!(walls <= WALL_TRIALS);
}
