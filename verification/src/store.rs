//! The entity store: a `specs::World`, and what is taken on trust of it.
//!
//! Verus does not look inside a `World`. What it holds is given names
//! here, and each operation on it is one small function whose contract is
//! stated over those names and believed without proof. The contracts follow
//! the source of `specs` 0.16: entities are allocated by `Allocator`,
//! each kind of fragment lives in a `MaskedStorage` (a bit mask of entity
//! indices beside the values), and a join walks the intersection of the
//! masks it is given.

use vstd::prelude::*;
use specs::Builder;
use specs::Join;
use specs::World;
use specs::WorldExt;
use crate::components::LeftMover;
use crate::components::Player;
use crate::components::Position;
use crate::components::Renderable;
use crate::model::StoreModel;
use crate::model::indices_below;
use crate::listing::lists_drawables;
use crate::listing::lists_positions;

verus! {

/// The entity store of `specs`.
#[verifier::external_type_specification]
#[verifier::external_body]
pub struct ExWorld(specs::World);

/// Largest number of entity indices that a store is asked to hand out.
/// The bit sets that `specs` keeps its entities in reject an index above
/// `2^20` on a 32-bit machine (and above `2^24` on a 64-bit one).
pub const MAX_ENTITIES: u32 = 1_048_576;

/// Whether `w` was set up for this game: built by `WorldExt::new`, which
/// installs the entity allocator, the table of storages and the queue of
/// lazy updates, and then given a storage for each of `Position`,
/// `Renderable`, `Player` and `LeftMover`.
pub uninterp spec fn world_ready(w: World) -> bool;

/// Whether nothing in `w` waits for `maintain`: no entity was created or
/// deleted through the shared `Entities` resource since the last call, and
/// no lazy update is queued.
pub uninterp spec fn world_settled(w: World) -> bool;

/// How many entity indices the allocator of `w` has handed out so far (its
/// `max_id`). Every index in use is below it.
pub uninterp spec fn world_index_bound(w: World) -> nat;

/// The indices of the entities that are alive in `w` (the allocator's
/// `alive` set).
pub uninterp spec fn world_entities(w: World) -> Set<u32>;

/// The `Position` storage of `w`: the indices in its mask, each with the
/// value stored for it. Empty where `w` has no such storage.
pub uninterp spec fn world_positions(w: World) -> Map<u32, Position>;

/// The `Renderable` storage of `w`, in the same way.
pub uninterp spec fn world_renderables(w: World) -> Map<u32, Renderable>;

/// The indices in the mask of the `Player` storage of `w`.
pub uninterp spec fn world_players(w: World) -> Set<u32>;

/// The indices in the mask of the `LeftMover` storage of `w`.
pub uninterp spec fn world_left_movers(w: World) -> Set<u32>;

/// Everything that `w` holds, as one value.
pub open spec fn view_of(w: World) -> StoreModel {
    StoreModel {
        entities: world_entities(w),
        positions: world_positions(w),
        renderables: world_renderables(w),
        players: world_players(w),
        left_movers: world_left_movers(w),
    }
}

/// Whether `after` stands as `before` did in all that is not its contents:
/// set up or not, settled or not, and as many indices handed out.
pub open spec fn same_standing(before: World, after: World) -> bool {
    &&& world_ready(after) == world_ready(before)
    &&& world_settled(after) == world_settled(before)
    &&& world_index_bound(after) == world_index_bound(before)
}

/// `WorldExt::new` followed by `WorldExt::register` for each of the four
/// kinds of fragment. `new` starts from an empty `World` and inserts a
/// default allocator (no entity alive, no index handed out), the storage
/// table and an empty lazy-update queue; `register` adds a storage with an
/// empty mask for a kind that has none yet.
#[verifier::external_body]
pub(crate) fn new_world() -> (w: World)
    ensures
        world_ready(w),
        world_settled(w),
        world_index_bound(w) == 0,
        world_entities(w) == Set::<u32>::empty(),
        world_positions(w) == (Map::<u32, Position>::empty()),
        world_renderables(w) == (Map::<u32, Renderable>::empty()),
        world_players(w) == Set::<u32>::empty(),
        world_left_movers(w) == Set::<u32>::empty(),
{
    let mut w = World::new();
    w.register::<Position>();
    w.register::<Renderable>();
    w.register::<Player>();
    w.register::<LeftMover>();
    w
}

/// `WorldExt::create_entity` and `Builder::build` with no fragment in
/// between, then `Entity::id`. `Allocator::allocate` takes an index that
/// was freed earlier or, where there is none, the next unused one, and
/// marks it alive. Where every index handed out so far is still alive none
/// was freed, so the index returned is the count of those handed out, and
/// that count grows by one. No storage is touched. The bit set of the
/// live entities would panic once the indices run out, hence the limit.
#[verifier::external_body]
pub(crate) fn create_entity(w: &mut World) -> (id: u32)
    requires
        world_ready(*old(w)),
        world_index_bound(*old(w)) < MAX_ENTITIES,
        world_entities(*old(w)) == indices_below(world_index_bound(*old(w))),
    ensures
        id == world_index_bound(*old(w)),
        world_ready(*final(w)),
        world_settled(*final(w)) == world_settled(*old(w)),
        world_index_bound(*final(w)) == world_index_bound(*old(w)) + 1,
        view_of(*final(w)) == (StoreModel {
            entities: world_entities(*old(w)).insert(id),
            ..view_of(*old(w))
        }),
{
    w.create_entity().build().id()
}

/// `Storage::insert` on the `Position` storage, for the live entity with
/// index `id` (looked up with `EntitiesRes::entity`). This is what
/// `Builder::with` does for an entity under construction. For a live
/// entity `insert` sets the mask bit and stores the value, replacing a
/// value that was there.
#[verifier::external_body]
pub(crate) fn insert_position(w: &mut World, id: u32, p: Position)
    requires
        world_ready(*old(w)),
        world_entities(*old(w)).contains(id),
    ensures
        same_standing(*old(w), *final(w)),
        view_of(*final(w)) == (StoreModel {
            positions: world_positions(*old(w)).insert(id, p),
            ..view_of(*old(w))
        }),
{
    let e = w.entities().entity(id);
    let _ = w.write_storage::<Position>().insert(e, p);
}

/// `Storage::insert` on the `Renderable` storage, as [`insert_position`]
/// does on that of `Position`.
#[verifier::external_body]
pub(crate) fn insert_renderable(w: &mut World, id: u32, r: Renderable)
    requires
        world_ready(*old(w)),
        world_entities(*old(w)).contains(id),
    ensures
        same_standing(*old(w), *final(w)),
        view_of(*final(w)) == (StoreModel {
            renderables: world_renderables(*old(w)).insert(id, r),
            ..view_of(*old(w))
        }),
{
    let e = w.entities().entity(id);
    let _ = w.write_storage::<Renderable>().insert(e, r);
}

/// `Storage::insert` of the `Player` tag for the live entity with index
/// `id`: the index joins the mask of that storage.
#[verifier::external_body]
pub(crate) fn insert_player(w: &mut World, id: u32)
    requires
        world_ready(*old(w)),
        world_entities(*old(w)).contains(id),
    ensures
        same_standing(*old(w), *final(w)),
        view_of(*final(w)) == (StoreModel {
            players: world_players(*old(w)).insert(id),
            ..view_of(*old(w))
        }),
{
    let e = w.entities().entity(id);
    let _ = w.write_storage::<Player>().insert(e, Player {});
}

/// `Storage::insert` of the `LeftMover` tag for the live entity with
/// index `id`: the index joins the mask of that storage.
#[verifier::external_body]
pub(crate) fn insert_left_mover(w: &mut World, id: u32)
    requires
        world_ready(*old(w)),
        world_entities(*old(w)).contains(id),
    ensures
        same_standing(*old(w), *final(w)),
        view_of(*final(w)) == (StoreModel {
            left_movers: world_left_movers(*old(w)).insert(id),
            ..view_of(*old(w))
        }),
{
    let e = w.entities().entity(id);
    let _ = w.write_storage::<LeftMover>().insert(e, LeftMover {});
}

/// `Join::join` over the entities, the `LeftMover` storage and the
/// `Position` storage. A join walks the indices that are in every mask,
/// lowest bit first and so each once in ascending order (`BitIter` of
/// `hibitset`), and yields for each the entity and a reference into each
/// storage; here the entity's index and a copy of its position are kept.
/// In a settled store the mask of the entities is the set of those alive.
#[verifier::external_body]
pub(crate) fn join_left_movers(w: &World) -> (cells: Vec<(u32, Position)>)
    requires
        world_ready(*w),
        world_settled(*w),
    ensures
        lists_positions(cells@, view_of(*w).left_walkers(), world_positions(*w)),
{
    let entities = w.entities();
    let movers = w.read_storage::<LeftMover>();
    let positions = w.read_storage::<Position>();
    (&entities, &movers, &positions).join().map(|(e, _, p)| (e.id(), *p)).collect()
}

/// `Join::join` over the entities, the `Player` storage and the
/// `Position` storage, as [`join_left_movers`] does for the left-movers.
#[verifier::external_body]
pub(crate) fn join_players(w: &World) -> (cells: Vec<(u32, Position)>)
    requires
        world_ready(*w),
        world_settled(*w),
    ensures
        lists_positions(cells@, view_of(*w).controlled(), world_positions(*w)),
{
    let entities = w.entities();
    let players = w.read_storage::<Player>();
    let positions = w.read_storage::<Position>();
    (&entities, &players, &positions).join().map(|(e, _, p)| (e.id(), *p)).collect()
}

/// `Join::join` over the entities, the `Position` storage and the
/// `Renderable` storage: the index, position and appearance of every
/// entity that has both, each entity once, in ascending order of index.
#[verifier::external_body]
pub(crate) fn join_drawables(w: &World) -> (cells: Vec<(u32, Position, Renderable)>)
    requires
        world_ready(*w),
        world_settled(*w),
    ensures
        lists_drawables(
            cells@,
            view_of(*w).drawn(),
            world_positions(*w),
            world_renderables(*w),
        ),
{
    let entities = w.entities();
    let positions = w.read_storage::<Position>();
    let looks = w.read_storage::<Renderable>();
    (&entities, &positions, &looks).join().map(|(e, p, r)| (e.id(), *p, *r)).collect()
}

/// `WorldExt::maintain`. It merges entities that were created or deleted
/// through the shared `Entities` resource and runs the queued lazy
/// updates. In a settled store there are none of either, and nothing that
/// is named here changes.
#[verifier::external_body]
pub(crate) fn maintain(w: &mut World)
    requires
        world_ready(*old(w)),
        world_settled(*old(w)),
    ensures
        same_standing(*old(w), *final(w)),
        view_of(*final(w)) == view_of(*old(w)),
{
    w.maintain();
}

} // verus!
