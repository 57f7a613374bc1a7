//! Listings: the entities of a set, each once and in ascending order of
//! index, as a join over the entity store hands them out.

use vstd::prelude::*;
use crate::components::Position;
use crate::components::Renderable;

verus! {

/// Whether `cells` names each entity of `ids` exactly once, in ascending
/// order of index and each with its position, and names nothing else.
pub open spec fn lists_positions(
    cells: Seq<(u32, Position)>,
    ids: Set<u32>,
    positions: Map<u32, Position>,
) -> bool {
    &&& forall|i: int|
        0 <= i < cells.len() ==> ids.contains((#[trigger] cells[i]).0)
            && positions.dom().contains(cells[i].0) && cells[i].1 == positions[cells[i].0]
    &&& forall|id: u32|
        ids.contains(id) ==> exists|i: int| 0 <= i < cells.len() && (#[trigger] cells[i]).0 == id
    &&& forall|i: int, j: int|
        0 <= i < j < cells.len() ==> (#[trigger] cells[i]).0 < (#[trigger] cells[j]).0
}

/// Whether `cells` names each entity of `ids` exactly once, in ascending
/// order of index and each with its position and appearance, and names
/// nothing else.
pub open spec fn lists_drawables(
    cells: Seq<(u32, Position, Renderable)>,
    ids: Set<u32>,
    positions: Map<u32, Position>,
    renderables: Map<u32, Renderable>,
) -> bool {
    &&& forall|i: int|
        0 <= i < cells.len() ==> ids.contains((#[trigger] cells[i]).0)
            && positions.dom().contains(cells[i].0) && cells[i].1 == positions[cells[i].0]
            && renderables.dom().contains(cells[i].0) && cells[i].2 == renderables[cells[i].0]
    &&& forall|id: u32|
        ids.contains(id) ==> exists|i: int| 0 <= i < cells.len() && (#[trigger] cells[i]).0 == id
    &&& forall|i: int, j: int|
        0 <= i < j < cells.len() ==> (#[trigger] cells[i]).0 < (#[trigger] cells[j]).0
}

/// The entities of `ids` with an index below `n`, in ascending order.
pub open spec fn ids_listed(ids: Set<u32>, n: nat) -> Seq<u32>
    decreases n,
{
    if n == 0 {
        Seq::empty()
    } else if n - 1 <= u32::MAX && ids.contains((n - 1) as u32) {
        ids_listed(ids, (n - 1) as nat).push((n - 1) as u32)
    } else {
        ids_listed(ids, (n - 1) as nat)
    }
}

/// The entities of `ids` with an index below `n`, in ascending order,
/// each with its position.
pub open spec fn positions_listed(ids: Set<u32>, positions: Map<u32, Position>, n: nat) -> Seq<
    (u32, Position),
> {
    ids_listed(ids, n).map_values(|id: u32| (id, positions[id]))
}

/// The entities of `ids` with an index below `n`, in ascending order,
/// each with its position and appearance.
pub open spec fn drawables_listed(
    ids: Set<u32>,
    positions: Map<u32, Position>,
    renderables: Map<u32, Renderable>,
    n: nat,
) -> Seq<(u32, Position, Renderable)> {
    ids_listed(ids, n).map_values(|id: u32| (id, positions[id], renderables[id]))
}

/// Whether `order` names each entity of `ids` below `n` exactly once, in
/// ascending order, and names nothing else.
pub open spec fn lists_ids(order: Seq<u32>, ids: Set<u32>, n: nat) -> bool {
    &&& forall|i: int| 0 <= i < order.len() ==> ids.contains(#[trigger] order[i]) && order[i] < n
    &&& forall|id: u32|
        ids.contains(id) && id < n ==> exists|i: int|
            0 <= i < order.len() && #[trigger] order[i] == id
    &&& forall|i: int, j: int|
        0 <= i < j < order.len() ==> #[trigger] order[i] < #[trigger] order[j]
}

/// There is one ascending listing of a set of entities, and `ids_listed`
/// is it.
pub proof fn lemma_ids_listed(order: Seq<u32>, ids: Set<u32>, n: nat)
    requires
        lists_ids(order, ids, n),
    ensures
        order == ids_listed(ids, n),
    decreases n,
{
    if n == 0 {
        if order.len() > 0 {
            assert(order[0] < n);
        }
    } else if n - 1 <= u32::MAX && ids.contains((n - 1) as u32) {
        // The largest index is named, and it can only stand last; what
        // stands before it lists the entities below it.
        let top = (n - 1) as u32;
        let last = order.len() - 1;
        let j = choose|j: int| 0 <= j < order.len() && #[trigger] order[j] == top;
        assert(j == last) by {
            if j < last {
                assert(order[j] < order[last]);
            }
        }
        let front = order.drop_last();
        assert(lists_ids(front, ids, (n - 1) as nat)) by {
            assert forall|id: u32| ids.contains(id) && id < n - 1 implies exists|i: int|
                0 <= i < front.len() && #[trigger] front[i] == id by {
                let i = choose|i: int| 0 <= i < order.len() && #[trigger] order[i] == id;
                assert(front[i] == id);
            }
            assert forall|i: int| 0 <= i < front.len() implies ids.contains(#[trigger] front[i])
                && front[i] < n - 1 by {
                assert(order[i] < order[last]);
            }
        }
        lemma_ids_listed(front, ids, (n - 1) as nat);
        assert(order =~= front.push(top));
    } else {
        // The largest index is not named, so every name lies below it.
        assert(lists_ids(order, ids, (n - 1) as nat));
        lemma_ids_listed(order, ids, (n - 1) as nat);
    }
}

/// What a join hands out for entities that all lie below `n` is their
/// ascending listing with positions.
pub proof fn lemma_positions_listed(
    cells: Seq<(u32, Position)>,
    ids: Set<u32>,
    positions: Map<u32, Position>,
    n: nat,
)
    requires
        lists_positions(cells, ids, positions),
        forall|id: u32| ids.contains(id) ==> id < n,
    ensures
        cells == positions_listed(ids, positions, n),
{
    let order = cells.map_values(|c: (u32, Position)| c.0);
    assert(lists_ids(order, ids, n)) by {
        assert forall|id: u32| ids.contains(id) && id < n implies exists|i: int|
            0 <= i < order.len() && #[trigger] order[i] == id by {
            let i = choose|i: int| 0 <= i < cells.len() && (#[trigger] cells[i]).0 == id;
            assert(order[i] == id);
        }
    }
    lemma_ids_listed(order, ids, n);
    assert(cells =~= positions_listed(ids, positions, n));
}

/// What a join hands out for entities that all lie below `n` is their
/// ascending listing with positions and appearances.
pub proof fn lemma_drawables_listed(
    cells: Seq<(u32, Position, Renderable)>,
    ids: Set<u32>,
    positions: Map<u32, Position>,
    renderables: Map<u32, Renderable>,
    n: nat,
)
    requires
        lists_drawables(cells, ids, positions, renderables),
        forall|id: u32| ids.contains(id) ==> id < n,
    ensures
        cells == drawables_listed(ids, positions, renderables, n),
{
    let order = cells.map_values(|c: (u32, Position, Renderable)| c.0);
    assert(lists_ids(order, ids, n)) by {
        assert forall|id: u32| ids.contains(id) && id < n implies exists|i: int|
            0 <= i < order.len() && #[trigger] order[i] == id by {
            let i = choose|i: int| 0 <= i < cells.len() && (#[trigger] cells[i]).0 == id;
            assert(order[i] == id);
        }
    }
    lemma_ids_listed(order, ids, n);
    assert(cells =~= drawables_listed(ids, positions, renderables, n));
}

/// Whether one of the first `n` entries of `cells` names the entity `id`.
pub open spec fn named_before(cells: Seq<(u32, Position)>, n: int, id: u32) -> bool {
    exists|j: int| 0 <= j < n && j < cells.len() && (#[trigger] cells[j]).0 == id
}

/// The positions once the entities named by the first `n` entries of
/// `cells` were moved by `rule`.
pub open spec fn rewritten(
    positions: Map<u32, Position>,
    cells: Seq<(u32, Position)>,
    n: int,
    rule: spec_fn(Position) -> Position,
) -> Map<u32, Position> {
    Map::new(
        |id: u32| positions.dom().contains(id),
        |id: u32|
            if named_before(cells, n, id) {
                rule(positions[id])
            } else {
                positions[id]
            },
    )
}

/// The positions once every entity of `ids` was moved by `rule`.
pub open spec fn moved(
    positions: Map<u32, Position>,
    ids: Set<u32>,
    rule: spec_fn(Position) -> Position,
) -> Map<u32, Position> {
    Map::new(
        |id: u32| positions.dom().contains(id),
        |id: u32|
            if ids.contains(id) {
                rule(positions[id])
            } else {
                positions[id]
            },
    )
}

/// Moving the entity of one more entry is one write: the entry's entity
/// gets the moved position that the entry itself holds.
pub proof fn lemma_rewritten_step(
    positions: Map<u32, Position>,
    cells: Seq<(u32, Position)>,
    ids: Set<u32>,
    n: int,
    rule: spec_fn(Position) -> Position,
)
    requires
        lists_positions(cells, ids, positions),
        0 <= n < cells.len(),
    ensures
        rewritten(positions, cells, n + 1, rule) == rewritten(positions, cells, n, rule).insert(
            cells[n].0,
            rule(cells[n].1),
        ),
{
    let next = rewritten(positions, cells, n + 1, rule);
    let written = rewritten(positions, cells, n, rule).insert(cells[n].0, rule(cells[n].1));
    assert forall|id: u32| positions.dom().contains(id) implies #[trigger] next[id]
        == written[id] by {
        // An entity other than that of entry `n` is named among the first
        // `n + 1` entries exactly if it is named among the first `n`.
        if id != cells[n].0 && named_before(cells, n + 1, id) {
            let j = choose|j: int|
                0 <= j < n + 1 && j < cells.len() && (#[trigger] cells[j]).0 == id;
            assert(j < n);
        }
    }
    assert(next =~= written);
}

/// Once every entry was handled, the entities moved are those of `ids`.
pub proof fn lemma_rewritten_all(
    positions: Map<u32, Position>,
    cells: Seq<(u32, Position)>,
    ids: Set<u32>,
    rule: spec_fn(Position) -> Position,
)
    requires
        lists_positions(cells, ids, positions),
    ensures
        rewritten(positions, cells, cells.len() as int, rule) == moved(positions, ids, rule),
{
    let n = cells.len() as int;
    assert forall|id: u32| named_before(cells, n, id) == ids.contains(id) by {
        if ids.contains(id) {
            let j = choose|j: int| 0 <= j < cells.len() && (#[trigger] cells[j]).0 == id;
            assert(0 <= j < n && cells[j].0 == id);
        }
        if named_before(cells, n, id) {
            let j = choose|j: int| 0 <= j < n && j < cells.len() && (#[trigger] cells[j]).0 == id;
            assert(ids.contains(cells[j].0));
        }
    }
    assert(rewritten(positions, cells, n, rule) =~= moved(positions, ids, rule));
}

} // verus!
