//! The game state and what happens to it in a frame: the key press moves
//! the player, the left-movers drift, and every entity with a position
//! and an appearance is drawn.

use vstd::prelude::*;
use specs::World;
use crate::components::Bundle;
use crate::components::Position;
use crate::components::Renderable;
use crate::input::Key;
use crate::input::key_delta;
use crate::listing::drawables_listed;
use crate::listing::lemma_drawables_listed;
use crate::listing::lemma_positions_listed;
use crate::listing::lemma_rewritten_all;
use crate::listing::lemma_rewritten_step;
use crate::listing::lists_positions;
use crate::listing::moved;
use crate::listing::positions_listed;
use crate::listing::rewritten;
use crate::model::indices_below;
use crate::model::spec_start_bundle;
use crate::model::START_COUNT;
use crate::model::StoreModel;
use crate::render::frame_ops;
use crate::render::FrameOp;
use crate::render::spec_frame_ops;
use crate::store::create_entity;
use crate::store::insert_left_mover;
use crate::store::insert_player;
use crate::store::insert_position;
use crate::store::insert_renderable;
use crate::store::join_drawables;
use crate::store::join_left_movers;
use crate::store::join_players;
use crate::store::maintain;
use crate::store::MAX_ENTITIES;
use crate::store::new_world;
use crate::store::view_of;
use crate::store::world_index_bound;
use crate::store::world_ready;
use crate::store::world_settled;

verus! {

/// The game state: the entity store, and a count of the entities that
/// were created in it.
pub struct State {
    ecs: World,
    spawned: u32,
}

impl View for State {
    type V = StoreModel;

    closed spec fn view(&self) -> StoreModel {
        view_of(self.ecs)
    }
}

impl State {
    /// Whether the state is one that [`State::new`] built and the functions
    /// of this module changed: the store is set up and settled, its
    /// entities are numbered from 0 in the order of their creation, and
    /// fragments are attached to existing entities only.
    pub closed spec fn wf(&self) -> bool {
        &&& world_ready(self.ecs)
        &&& world_settled(self.ecs)
        &&& world_index_bound(self.ecs) == self.spawned <= MAX_ENTITIES
        &&& self@.entities =~= indices_below(self.spawned as nat)
        &&& self@.wf()
    }

    /// How many entities were created so far.
    pub closed spec fn spawned_count(&self) -> nat {
        self.spawned as nat
    }

    /// In a well-formed state the entities are numbered from 0 in the
    /// order of their creation, and every fragment belongs to one of them.
    pub proof fn lemma_wf_view(&self)
        requires
            self.wf(),
        ensures
            self@.wf(),
            self@.entities == indices_below(self.spawned_count()),
            self.spawned_count() <= MAX_ENTITIES,
    {
    }

    /// A state without entities, ready for every kind of fragment.
    pub fn new() -> (gs: State)
        ensures
            gs.wf(),
            gs@ == StoreModel::empty(),
            gs.spawned_count() == 0,
    {
        State { ecs: new_world(), spawned: 0 }
    }

    /// How many entities were created so far.
    pub fn spawned(&self) -> (n: u32)
        ensures
            n == self.spawned_count(),
    {
        self.spawned
    }

    /// Creates an entity that carries `bundle` while there is room for one.
    fn spawn_one(&mut self, bundle: Bundle) -> (id: u32)
        requires
            old(self).wf(),
            old(self).spawned_count() < MAX_ENTITIES,
        ensures
            final(self).wf(),
            id == old(self).spawned_count(),
            final(self)@ == old(self)@.with_entity(id, bundle),
            final(self).spawned_count() == old(self).spawned_count() + 1,
    {
        let id = create_entity(&mut self.ecs);
        self.spawned = self.spawned + 1;
        match bundle.position {
            Some(p) => insert_position(&mut self.ecs, id, p),
            None => {},
        }
        match bundle.renderable {
            Some(r) => insert_renderable(&mut self.ecs, id, r),
            None => {},
        }
        if bundle.player {
            insert_player(&mut self.ecs, id);
        }
        if bundle.left_mover {
            insert_left_mover(&mut self.ecs, id);
        }
        id
    }

    /// Creates an entity that carries `bundle` and returns its index, which
    /// is the number of entities created before it. Once [`MAX_ENTITIES`]
    /// entities were created it returns `None` and changes nothing.
    pub fn spawn(&mut self, bundle: Bundle) -> (r: Option<u32>)
        requires
            old(self).wf(),
        ensures
            final(self).wf(),
            r is Some <==> old(self).spawned_count() < MAX_ENTITIES,
            r matches Some(id) ==> {
                &&& id == old(self).spawned_count()
                &&& final(self)@ == old(self)@.with_entity(id, bundle)
                &&& final(self).spawned_count() == old(self).spawned_count() + 1
            },
            r is None ==> {
                &&& final(self)@ == old(self)@
                &&& final(self).spawned_count() == old(self).spawned_count()
            },
    {
        if self.spawned >= MAX_ENTITIES {
            return None;
        }
        Some(self.spawn_one(bundle))
    }

    /// Adds the starting configuration: a player at `(40, 25)` drawn as
    /// `player_look`, and ten left-movers at `(0, 20)`, `(7, 20)`, ..,
    /// `(63, 20)` drawn as `mover_look`. Returns the index of the player;
    /// the left-movers have the ten indices after it, from left to right.
    /// Where fewer than eleven entities can still be created it returns
    /// `None` and changes nothing.
    pub fn spawn_starting_entities(
        &mut self,
        player_look: Renderable,
        mover_look: Renderable,
    ) -> (r: Option<u32>)
        requires
            old(self).wf(),
        ensures
            final(self).wf(),
            r is Some <==> old(self).spawned_count() + 11 <= MAX_ENTITIES,
            r matches Some(first) ==> {
                &&& first == old(self).spawned_count()
                &&& final(self)@ == old(self)@.with_start(
                    first as nat,
                    11,
                    player_look,
                    mover_look,
                )
                &&& final(self).spawned_count() == old(self).spawned_count() + 11
            },
            r is None ==> {
                &&& final(self)@ == old(self)@
                &&& final(self).spawned_count() == old(self).spawned_count()
            },
    {
        if MAX_ENTITIES - self.spawned < 11 {
            return None;
        }
        let first = self.spawned;
        let ghost before = self@;
        proof {
            before.lemma_with_start_step(first as nat, 0, player_look, mover_look);
        }
        let mut k: usize = 0;
        while k < START_COUNT
            invariant
                k <= START_COUNT,
                self.wf(),
                first + 11 <= MAX_ENTITIES,
                self.spawned_count() == first + k,
                self@ == before.with_start(first as nat, k as nat, player_look, mover_look),
            decreases START_COUNT - k,
        {
            let bundle = start_bundle(k, player_look, mover_look);
            self.spawn_one(bundle);
            proof {
                before.lemma_with_start_step(first as nat, k as nat, player_look, mover_look);
            }
            k += 1;
        }
        Some(first)
    }

    /// The left-movers that have a position, in ascending order of index.
    pub fn left_walker_cells(&self) -> (cells: Vec<(u32, Position)>)
        requires
            self.wf(),
        ensures
            cells@ == positions_listed(
                self@.left_walkers(),
                self@.positions,
                self.spawned_count(),
            ),
    {
        let cells = join_left_movers(&self.ecs);
        proof {
            lemma_positions_listed(
                cells@,
                self@.left_walkers(),
                self@.positions,
                self.spawned_count(),
            );
        }
        cells
    }

    /// The players that have a position, in ascending order of index.
    pub fn player_cells(&self) -> (cells: Vec<(u32, Position)>)
        requires
            self.wf(),
        ensures
            cells@ == positions_listed(self@.controlled(), self@.positions, self.spawned_count()),
    {
        let cells = join_players(&self.ecs);
        proof {
            lemma_positions_listed(
                cells@,
                self@.controlled(),
                self@.positions,
                self.spawned_count(),
            );
        }
        cells
    }

    /// The entities that have a position and an appearance, in ascending
    /// order of index.
    pub fn drawable_cells(&self) -> (cells: Vec<(u32, Position, Renderable)>)
        requires
            self.wf(),
        ensures
            cells@ == drawables_listed(
                self@.drawn(),
                self@.positions,
                self@.renderables,
                self.spawned_count(),
            ),
    {
        let cells = join_drawables(&self.ecs);
        proof {
            lemma_drawables_listed(
                cells@,
                self@.drawn(),
                self@.positions,
                self@.renderables,
                self.spawned_count(),
            );
        }
        cells
    }

    /// Runs the behaviours of a frame: the leftward drift, then the
    /// store's own upkeep, which has nothing to do here.
    pub fn run_systems(&mut self)
        requires
            old(self).wf(),
        ensures
            final(self).wf(),
            final(self)@ == old(self)@.after_left_walk(),
            final(self).spawned_count() == old(self).spawned_count(),
    {
        let mut lw = LeftWalker {};
        lw.run(self);
        maintain(&mut self.ecs);
    }

    /// Advances the game by one frame and returns what to show: the key
    /// press (if any) moves the player, the behaviours run, and the
    /// display is cleared and every entity that has a position and an
    /// appearance is drawn once, at the cell where the frame left it, in
    /// ascending order of index.
    pub fn tick(&mut self, key: Option<Key>) -> (ops: Vec<FrameOp>)
        requires
            old(self).wf(),
        ensures
            final(self).wf(),
            final(self)@ == old(self)@.after_frame(key),
            final(self).spawned_count() == old(self).spawned_count(),
            ops@ == spec_frame_ops(
                drawables_listed(
                    final(self)@.drawn(),
                    final(self)@.positions,
                    final(self)@.renderables,
                    final(self).spawned_count(),
                ),
            ),
    {
        player_input(self, key);
        self.run_systems();
        let cells = self.drawable_cells();
        frame_ops(&cells)
    }
}

/// What the `k`-th entity of the starting configuration carries.
pub fn start_bundle(k: usize, player_look: Renderable, mover_look: Renderable) -> (bundle: Bundle)
    requires
        k < START_COUNT,
    ensures
        bundle == spec_start_bundle(k as int, player_look, mover_look),
{
    if k == 0 {
        Bundle {
            position: Some(Position { x: 40, y: 25 }),
            renderable: Some(player_look),
            player: true,
            left_mover: false,
        }
    } else {
        let column: i32 = (k as i32 - 1) * 7;
        Bundle {
            position: Some(Position { x: column, y: 20 }),
            renderable: Some(mover_look),
            player: false,
            left_mover: true,
        }
    }
}

/// The behaviour of the left-movers.
pub struct LeftWalker {}

impl LeftWalker {
    /// Moves every entity that has the left-mover tag and a position one
    /// column to the left; one that would leave the grid re-enters at
    /// column 79. Rows stay, and so does every other entity.
    pub fn run(&mut self, gs: &mut State)
        requires
            old(gs).wf(),
        ensures
            final(gs).wf(),
            final(gs)@ == old(gs)@.after_left_walk(),
            final(gs).spawned_count() == old(gs).spawned_count(),
    {
        let ghost before = gs@;
        let ghost count = gs.spawned;
        let ghost rule = |p: Position| p.spec_step_left();
        let cells = join_left_movers(&gs.ecs);
        let mut i: usize = 0;
        while i < cells.len()
            invariant
                i <= cells@.len(),
                lists_positions(cells@, before.left_walkers(), before.positions),
                forall|p: Position| #[trigger] rule(p) == p.spec_step_left(),
                world_ready(gs.ecs),
                world_settled(gs.ecs),
                world_index_bound(gs.ecs) == count,
                gs.spawned == count,
                gs@ == (StoreModel {
                    positions: rewritten(before.positions, cells@, i as int, rule),
                    ..before
                }),
            decreases cells@.len() - i,
        {
            let c = cells[i];
            insert_position(&mut gs.ecs, c.0, c.1.step_left());
            proof {
                lemma_rewritten_step(
                    before.positions,
                    cells@,
                    before.left_walkers(),
                    i as int,
                    rule,
                );
            }
            i += 1;
        }
        proof {
            lemma_rewritten_all(before.positions, cells@, before.left_walkers(), rule);
            assert(moved(before.positions, before.left_walkers(), rule)
                =~= before.after_left_walk().positions);
        }
    }
}

/// Shifts every entity that has the player tag and a position by
/// `(delta_x, delta_y)`, holding the column within `0..=79` and the row
/// within `0..=49`. Every other entity stays.
pub fn try_move_player(delta_x: i32, delta_y: i32, gs: &mut State)
    requires
        old(gs).wf(),
    ensures
        final(gs).wf(),
        final(gs)@ == old(gs)@.after_player_move(delta_x, delta_y),
        final(gs).spawned_count() == old(gs).spawned_count(),
{
    let ghost before = gs@;
    let ghost count = gs.spawned;
    let ghost rule = |p: Position| p.spec_shifted(delta_x as int, delta_y as int);
    let cells = join_players(&gs.ecs);
    let mut i: usize = 0;
    while i < cells.len()
        invariant
            i <= cells@.len(),
            lists_positions(cells@, before.controlled(), before.positions),
            forall|p: Position|
                #[trigger] rule(p) == p.spec_shifted(delta_x as int, delta_y as int),
            world_ready(gs.ecs),
            world_settled(gs.ecs),
            world_index_bound(gs.ecs) == count,
            gs.spawned == count,
            gs@ == (StoreModel {
                positions: rewritten(before.positions, cells@, i as int, rule),
                ..before
            }),
        decreases cells@.len() - i,
    {
        let c = cells[i];
        insert_position(&mut gs.ecs, c.0, c.1.shifted(delta_x, delta_y));
        proof {
            lemma_rewritten_step(before.positions, cells@, before.controlled(), i as int, rule);
        }
        i += 1;
    }
    proof {
        lemma_rewritten_all(before.positions, cells@, before.controlled(), rule);
        assert(moved(before.positions, before.controlled(), rule) =~= before.after_player_move(
            delta_x,
            delta_y,
        ).positions);
    }
}

/// Handles the key press of a frame: H or Left, L or Right, K or Up and J
/// or Down move the player by one cell; no key and any other key do
/// nothing.
pub fn player_input(gs: &mut State, key: Option<Key>)
    requires
        old(gs).wf(),
    ensures
        final(gs).wf(),
        final(gs)@ == old(gs)@.after_key(key),
        final(gs).spawned_count() == old(gs).spawned_count(),
{
    match key_delta(key) {
        Some(d) => try_move_player(d.0, d.1, gs),
        None => {},
    }
}

} // verus!
