//! The tile map: a fixed 80x50 grid stored row by row, walled along its
//! perimeter and sprinkled with randomly placed walls that never cover the
//! cell where the player starts.

use vstd::prelude::*;
use rltk::RandomNumberGenerator;

verus! {

/// Number of columns of the grid.
pub const MAP_WIDTH: i32 = 80;

/// Number of rows of the grid.
pub const MAP_HEIGHT: i32 = 50;

/// Number of cells of the grid.
pub const MAP_COUNT: usize = 4000;

/// Column of the cell where the player starts.
pub const SPAWN_X: i32 = 40;

/// Row of the cell where the player starts.
pub const SPAWN_Y: i32 = 25;

/// Number of random wall placements tried by [`new_map`].
pub const WALL_TRIALS: usize = 400;

/// What a cell of the map holds.
#[derive(Clone, Copy, Debug, PartialEq, Eq, Structural)]
pub enum TileType {
    Wall,
    Floor,
}

/// Whether `(x, y)` names a cell of the grid.
pub open spec fn in_grid(x: int, y: int) -> bool {
    0 <= x < 80 && 0 <= y < 50
}

/// Whether `(x, y)` lies on the outermost ring of the grid.
pub open spec fn is_border(x: int, y: int) -> bool {
    x == 0 || x == 79 || y == 0 || y == 49
}

/// Whether `(x, y)` is a cell of the grid that is not on its outermost ring.
pub open spec fn is_interior(x: int, y: int) -> bool {
    1 <= x <= 78 && 1 <= y <= 48
}

/// Position of the cell `(x, y)` in the row-by-row tile sequence.
pub open spec fn spec_xy_idx(x: int, y: int) -> int {
    y * 80 + x
}

/// Column of the cell stored at `idx`.
pub open spec fn idx_x(idx: int) -> int {
    idx % 80
}

/// Row of the cell stored at `idx`.
pub open spec fn idx_y(idx: int) -> int {
    idx / 80
}

/// Index of the cell `(x, y)` in the tile sequence.
pub fn xy_idx(x: i32, y: i32) -> (idx: usize)
    requires
        in_grid(x as int, y as int),
    ensures
        idx == spec_xy_idx(x as int, y as int),
        idx < MAP_COUNT,
{
    (y as usize) * 80 + (x as usize)
}

/// The index mapping is a bijection between the cells of the grid and the
/// indices `0..4000`: every cell lands inside the range, two different
/// cells never share an index, and every index of the range is the image
/// of the cell `(idx_x(idx), idx_y(idx))`.
pub proof fn lemma_xy_idx_bijection()
    ensures
        forall|x: int, y: int| in_grid(x, y) ==> 0 <= #[trigger] spec_xy_idx(x, y) < 4000,
        forall|x1: int, y1: int, x2: int, y2: int|
            in_grid(x1, y1) && in_grid(x2, y2) && #[trigger] spec_xy_idx(x1, y1)
                == #[trigger] spec_xy_idx(x2, y2) ==> x1 == x2 && y1 == y2,
        forall|idx: int|
            0 <= idx < 4000 ==> in_grid(#[trigger] idx_x(idx), idx_y(idx)) && spec_xy_idx(
                idx_x(idx),
                idx_y(idx),
            ) == idx,
        forall|x: int, y: int|
            in_grid(x, y) ==> idx_x(#[trigger] spec_xy_idx(x, y)) == x && idx_y(spec_xy_idx(x, y))
                == y,
{
}

/// Index of a cell given as a pair.
pub open spec fn cell_idx(c: (i32, i32)) -> int {
    spec_xy_idx(c.0 as int, c.1 as int)
}

/// Whether every cell of `cells` lies on the grid.
pub open spec fn all_in_grid(cells: Seq<(i32, i32)>) -> bool {
    forall|i: int|
        0 <= i < cells.len() ==> in_grid((#[trigger] cells[i]).0 as int, cells[i].1 as int)
}

/// Whether every cell of `cells` lies inside the perimeter.
pub open spec fn all_interior(cells: Seq<(i32, i32)>) -> bool {
    forall|i: int|
        0 <= i < cells.len() ==> is_interior((#[trigger] cells[i]).0 as int, cells[i].1 as int)
}

/// Whether one of `cells` is the cell stored at `idx`.
pub open spec fn hit_by(cells: Seq<(i32, i32)>, idx: int) -> bool {
    exists|i: int| 0 <= i < cells.len() && #[trigger] cell_idx(cells[i]) == idx
}

/// The tile at `idx` once walls were tried at `cells`: a wall on the
/// perimeter and on every tried cell but the player's start, floor
/// elsewhere.
pub open spec fn generated_tile(cells: Seq<(i32, i32)>, idx: int) -> TileType {
    if is_border(idx_x(idx), idx_y(idx)) {
        TileType::Wall
    } else if idx != spec_xy_idx(40, 25) && hit_by(cells, idx) {
        TileType::Wall
    } else {
        TileType::Floor
    }
}

/// The whole map once walls were tried at `cells`.
pub open spec fn generated_map(cells: Seq<(i32, i32)>) -> Seq<TileType> {
    Seq::new(4000, |idx: int| generated_tile(cells, idx))
}

/// Trying one more cell adds exactly that cell to the cells that were hit.
proof fn lemma_hit_by_push(cells: Seq<(i32, i32)>, c: (i32, i32), idx: int)
    ensures
        hit_by(cells.push(c), idx) <==> hit_by(cells, idx) || cell_idx(c) == idx,
{
    let more = cells.push(c);
    if hit_by(cells, idx) {
        let i = choose|i: int| 0 <= i < cells.len() && #[trigger] cell_idx(cells[i]) == idx;
        assert(cell_idx(more[i]) == idx);
    }
    if cell_idx(c) == idx {
        assert(cell_idx(more[cells.len() as int]) == idx);
    }
    if hit_by(more, idx) {
        let i = choose|i: int| 0 <= i < more.len() && #[trigger] cell_idx(more[i]) == idx;
        assert(i < cells.len() ==> cell_idx(cells[i]) == idx);
    }
}

/// The indices that `cells` hit.
pub open spec fn hit_set(cells: Seq<(i32, i32)>) -> Set<int> {
    Set::new(|idx: int| hit_by(cells, idx))
}

/// The cells inside the perimeter of `map` that hold a wall.
pub open spec fn inner_walls(map: Seq<TileType>) -> Set<int> {
    Set::new(
        |idx: int|
            0 <= idx < map.len() && !is_border(idx_x(idx), idx_y(idx)) && map[idx]
                == TileType::Wall,
    )
}

/// A list of cells hits at most as many indices as it is long.
proof fn lemma_hit_set_bounded(cells: Seq<(i32, i32)>)
    ensures
        hit_set(cells).finite(),
        hit_set(cells).len() <= cells.len(),
    decreases cells.len(),
{
    if cells.len() == 0 {
        assert(hit_set(cells) =~= Set::<int>::empty());
    } else {
        let front = cells.drop_last();
        let c = cells.last();
        lemma_hit_set_bounded(front);
        assert(cells =~= front.push(c));
        assert forall|idx: int| hit_by(cells, idx) <==> hit_by(front, idx) || cell_idx(c)
            == idx by {
            lemma_hit_by_push(front, c, idx);
        }
        assert(hit_set(cells) =~= hit_set(front).insert(cell_idx(c)));
    }
}

/// Every wall inside the perimeter comes from a trial, so there are at
/// most as many of them as trials; there are fewer where two trials hit
/// the same cell or one hit the player's start or the perimeter.
pub proof fn lemma_inner_walls_bounded(cells: Seq<(i32, i32)>)
    ensures
        inner_walls(generated_map(cells)).finite(),
        inner_walls(generated_map(cells)).len() <= cells.len(),
{
    lemma_hit_set_bounded(cells);
    vstd::set_lib::lemma_len_subset(inner_walls(generated_map(cells)), hit_set(cells));
}

/// Whatever cells were tried, the generated map has 4000 tiles, a wall on
/// every cell of the top and bottom rows and of the left and right
/// columns, and floor where the player starts.
pub proof fn lemma_generated_map_shape(cells: Seq<(i32, i32)>)
    ensures
        generated_map(cells).len() == 4000,
        forall|x: int, y: int|
            0 <= x <= 79 && (y == 0 || y == 49) ==> generated_map(cells)[#[trigger] spec_xy_idx(
                x,
                y,
            )] == TileType::Wall,
        forall|x: int, y: int|
            (x == 0 || x == 79) && 0 <= y <= 49 ==> generated_map(cells)[#[trigger] spec_xy_idx(
                x,
                y,
            )] == TileType::Wall,
        generated_map(cells)[spec_xy_idx(40, 25)] == TileType::Floor,
{
    lemma_xy_idx_bijection();
}

/// The map before any random wall: wall on the perimeter, floor inside.
pub fn bordered_map() -> (map: Vec<TileType>)
    ensures
        map@ == generated_map(Seq::empty()),
{
    let mut map: Vec<TileType> = Vec::new();
    let mut i: usize = 0;
    while i < MAP_COUNT
        invariant
            i <= MAP_COUNT,
            map@.len() == i,
            forall|k: int| 0 <= k < i ==> map@[k] == TileType::Floor,
        decreases MAP_COUNT - i,
    {
        map.push(TileType::Floor);
        i += 1;
    }
    let mut x: i32 = 0;
    while x < MAP_WIDTH
        invariant
            0 <= x <= MAP_WIDTH,
            map@.len() == 4000,
            forall|k: int|
                0 <= k < 4000 ==> map@[k] == (if (idx_y(k) == 0 || idx_y(k) == 49) && idx_x(k)
                    < x {
                    TileType::Wall
                } else {
                    TileType::Floor
                }),
        decreases MAP_WIDTH - x,
    {
        let top = xy_idx(x, 0);
        let bottom = xy_idx(x, MAP_HEIGHT - 1);
        map.set(top, TileType::Wall);
        map.set(bottom, TileType::Wall);
        proof {
            lemma_xy_idx_bijection();
        }
        x += 1;
    }
    let mut y: i32 = 0;
    while y < MAP_HEIGHT
        invariant
            0 <= y <= MAP_HEIGHT,
            map@.len() == 4000,
            forall|k: int|
                0 <= k < 4000 ==> map@[k] == (if idx_y(k) == 0 || idx_y(k) == 49 || ((idx_x(k)
                    == 0 || idx_x(k) == 79) && idx_y(k) < y) {
                    TileType::Wall
                } else {
                    TileType::Floor
                }),
        decreases MAP_HEIGHT - y,
    {
        let left = xy_idx(0, y);
        let right = xy_idx(MAP_WIDTH - 1, y);
        map.set(left, TileType::Wall);
        map.set(right, TileType::Wall);
        proof {
            lemma_xy_idx_bijection();
        }
        y += 1;
    }
    map
}

/// One wall placement: the cell `(x, y)` becomes a wall unless it is the
/// cell where the player starts, which is left as it is.
pub fn place_wall(map: &mut Vec<TileType>, x: i32, y: i32)
    requires
        old(map)@.len() == 4000,
        in_grid(x as int, y as int),
    ensures
        final(map)@ == (if x == 40 && y == 25 {
            old(map)@
        } else {
            old(map)@.update(spec_xy_idx(x as int, y as int), TileType::Wall)
        }),
{
    let idx = xy_idx(x, y);
    if idx != xy_idx(SPAWN_X, SPAWN_Y) {
        map.set(idx, TileType::Wall);
    }
}

/// The map that results from trying a wall at each of `cells` in turn.
pub fn map_with_walls(cells: &Vec<(i32, i32)>) -> (map: Vec<TileType>)
    requires
        all_in_grid(cells@),
    ensures
        map@ == generated_map(cells@),
{
    let mut map = bordered_map();
    let mut i: usize = 0;
    while i < cells.len()
        invariant
            i <= cells@.len(),
            all_in_grid(cells@),
            map@ == generated_map(cells@.take(i as int)),
        decreases cells@.len() - i,
    {
        let c = cells[i];
        let ghost tried = cells@.take(i as int);
        place_wall(&mut map, c.0, c.1);
        proof {
            assert(cells@.take(i + 1) =~= tried.push(c));
            lemma_xy_idx_bijection();
            assert forall|k: int| 0 <= k < 4000 implies map@[k] == generated_tile(
                tried.push(c),
                k,
            ) by {
                lemma_hit_by_push(tried, c, k);
            }
        }
        i += 1;
    }
    proof {
        assert(cells@.take(cells@.len() as int) =~= cells@);
    }
    map
}

/// Rolls `count` cells, each uniformly among the cells inside the
/// perimeter: the column on a 78-sided die, the row on a 48-sided one.
fn roll_cells(rng: &mut RandomNumberGenerator, count: usize) -> (cells: Vec<(i32, i32)>)
    ensures
        cells@.len() == count,
        all_interior(cells@),
{
    let mut cells: Vec<(i32, i32)> = Vec::new();
    let mut i: usize = 0;
    while i < count
        invariant
            i <= count,
            cells@.len() == i,
            all_interior(cells@),
        decreases count - i,
    {
        let x = rng.roll_dice(1, MAP_WIDTH - 2);
        let y = rng.roll_dice(1, MAP_HEIGHT - 2);
        cells.push((x, y));
        i += 1;
    }
    cells
}

/// Generates a map: the perimeter is walled, then 400 cells are picked at
/// random inside it and each becomes a wall, except that a pick that lands
/// on the player's start `(40, 25)` is skipped.
///
/// The picks are not reproducible, so the result is stated for whatever
/// was rolled: it is `generated_map` of some 400 interior cells. What
/// holds of every outcome is also stated outright: the walled perimeter,
/// the free start, and at most 400 walls inside the perimeter.
pub fn new_map() -> (map: Vec<TileType>)
    ensures
        exists|cells: Seq<(i32, i32)>|
            cells.len() == 400 && all_interior(cells) && map@ == #[trigger] generated_map(cells),
        map@.len() == 4000,
        forall|x: int, y: int|
            0 <= x <= 79 && (y == 0 || y == 49) ==> map@[#[trigger] spec_xy_idx(x, y)]
                == TileType::Wall,
        forall|x: int, y: int|
            (x == 0 || x == 79) && 0 <= y <= 49 ==> map@[#[trigger] spec_xy_idx(x, y)]
                == TileType::Wall,
        map@[spec_xy_idx(40, 25)] == TileType::Floor,
        inner_walls(map@).finite() && inner_walls(map@).len() <= 400,
{
    let mut rng = RandomNumberGenerator::new();
    let cells = roll_cells(&mut rng, WALL_TRIALS);
    let map = map_with_walls(&cells);
    proof {
        lemma_generated_map_shape(cells@);
        lemma_inner_walls_bounded(cells@);
    }
    map
}

} // verus!
