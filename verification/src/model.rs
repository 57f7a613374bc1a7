//! The mathematical picture of the entity store: which entities exist and
//! which fragments each of them carries, what every behaviour of the game
//! does to that picture, and what follows from it.

use vstd::prelude::*;
use crate::components::Bundle;
use crate::components::Position;
use crate::components::Renderable;
use crate::components::clamp;
use crate::input::Key;
use crate::input::spec_key_delta;

verus! {

/// What an entity store holds, by entity index.
#[verifier::ext_equal]
pub struct StoreModel {
    /// The entities that exist.
    pub entities: Set<u32>,
    /// The position of each entity that has one.
    pub positions: Map<u32, Position>,
    /// The appearance of each entity that has one.
    pub renderables: Map<u32, Renderable>,
    /// The entities tagged as player.
    pub players: Set<u32>,
    /// The entities tagged as left-moving.
    pub left_movers: Set<u32>,
}

/// The indices `0`, .., `n - 1`.
pub open spec fn indices_below(n: nat) -> Set<u32> {
    Set::new(|id: u32| id < n)
}

/// Number of entities of the starting configuration: the player and ten
/// left-movers.
pub const START_COUNT: usize = 11;

/// The cell of the `k`-th entity of the starting configuration. The first
/// is the player at `(40, 25)`; the ten after it are left-movers on row
/// 20, seven columns apart from column 0 on.
pub open spec fn spec_start_position(k: int) -> Position {
    if k == 0 {
        Position { x: 40, y: 25 }
    } else {
        Position { x: ((k - 1) * 7) as i32, y: 20 }
    }
}

/// What the `k`-th entity of the starting configuration carries.
pub open spec fn spec_start_bundle(
    k: int,
    player_look: Renderable,
    mover_look: Renderable,
) -> Bundle {
    Bundle {
        position: Some(spec_start_position(k)),
        renderable: Some(
            if k == 0 {
                player_look
            } else {
                mover_look
            },
        ),
        player: k == 0,
        left_mover: k != 0,
    }
}

impl StoreModel {
    /// A store without entities.
    pub open spec fn empty() -> StoreModel {
        StoreModel {
            entities: Set::empty(),
            positions: Map::empty(),
            renderables: Map::empty(),
            players: Set::empty(),
            left_movers: Set::empty(),
        }
    }

    /// Fragments are attached to existing entities only.
    pub open spec fn wf(self) -> bool {
        &&& self.positions.dom().subset_of(self.entities)
        &&& self.renderables.dom().subset_of(self.entities)
        &&& self.players.subset_of(self.entities)
        &&& self.left_movers.subset_of(self.entities)
    }

    /// The entities that the leftward drift applies to: those with the
    /// left-mover tag and a position.
    pub open spec fn left_walkers(self) -> Set<u32> {
        Set::new(
            |id: u32|
                self.entities.contains(id) && self.left_movers.contains(id)
                    && self.positions.dom().contains(id),
        )
    }

    /// The entities that the keyboard moves: those with the player tag and
    /// a position.
    pub open spec fn controlled(self) -> Set<u32> {
        Set::new(
            |id: u32|
                self.entities.contains(id) && self.players.contains(id)
                    && self.positions.dom().contains(id),
        )
    }

    /// The entities that are drawn: those with a position and an
    /// appearance.
    pub open spec fn drawn(self) -> Set<u32> {
        Set::new(
            |id: u32|
                self.entities.contains(id) && self.positions.dom().contains(id)
                    && self.renderables.dom().contains(id),
        )
    }

    /// The store with one more entity `id` that carries `bundle`.
    pub open spec fn with_entity(self, id: u32, bundle: Bundle) -> StoreModel {
        StoreModel {
            entities: self.entities.insert(id),
            positions: match bundle.position {
                Some(p) => self.positions.insert(id, p),
                None => self.positions,
            },
            renderables: match bundle.renderable {
                Some(r) => self.renderables.insert(id, r),
                None => self.renderables,
            },
            players: if bundle.player {
                self.players.insert(id)
            } else {
                self.players
            },
            left_movers: if bundle.left_mover {
                self.left_movers.insert(id)
            } else {
                self.left_movers
            },
        }
    }

    /// The store with the first `n` entities of the starting
    /// configuration added under the indices `first`, .., `first + n - 1`:
    /// the player under `first`, the left-movers under those after it.
    pub open spec fn with_start(
        self,
        first: nat,
        n: nat,
        player_look: Renderable,
        mover_look: Renderable,
    ) -> StoreModel {
        StoreModel {
            entities: Set::new(|id: u32| self.entities.contains(id) || first <= id < first + n),
            positions: Map::new(
                |id: u32| self.positions.dom().contains(id) || first <= id < first + n,
                |id: u32|
                    if first <= id < first + n {
                        spec_start_position(id - first)
                    } else {
                        self.positions[id]
                    },
            ),
            renderables: Map::new(
                |id: u32| self.renderables.dom().contains(id) || first <= id < first + n,
                |id: u32|
                    if first <= id < first + n {
                        if id == first {
                            player_look
                        } else {
                            mover_look
                        }
                    } else {
                        self.renderables[id]
                    },
            ),
            players: Set::new(|id: u32| self.players.contains(id) || (id == first && n > 0)),
            left_movers: Set::new(
                |id: u32| self.left_movers.contains(id) || first < id < first + n,
            ),
        }
    }

    /// The store after the leftward drift: every positioned left-mover is
    /// one column further left, or at column 79 if it would have left the
    /// grid. Rows, other entities and all other fragments stay.
    pub open spec fn after_left_walk(self) -> StoreModel {
        StoreModel {
            positions: Map::new(
                |id: u32| self.positions.dom().contains(id),
                |id: u32|
                    if self.left_movers.contains(id) {
                        self.positions[id].spec_step_left()
                    } else {
                        self.positions[id]
                    },
            ),
            ..self
        }
    }

    /// The store after the player was asked to move by `(dx, dy)`: every
    /// positioned player is shifted and clamped to the grid. Other
    /// entities and all other fragments stay.
    pub open spec fn after_player_move(self, dx: i32, dy: i32) -> StoreModel {
        StoreModel {
            positions: Map::new(
                |id: u32| self.positions.dom().contains(id),
                |id: u32|
                    if self.players.contains(id) {
                        self.positions[id].spec_shifted(dx as int, dy as int)
                    } else {
                        self.positions[id]
                    },
            ),
            ..self
        }
    }

    /// The store after a frame's key press was handled.
    pub open spec fn after_key(self, key: Option<Key>) -> StoreModel {
        match spec_key_delta(key) {
            Some(d) => self.after_player_move(d.0, d.1),
            None => self,
        }
    }

    /// The store after one whole frame: the key press is handled first,
    /// then the leftward drift runs.
    pub open spec fn after_frame(self, key: Option<Key>) -> StoreModel {
        self.after_key(key).after_left_walk()
    }

    /// Adding the starting entities one by one, each under the next index,
    /// gives the starting configuration.
    pub proof fn lemma_with_start_step(
        self,
        first: nat,
        n: nat,
        player_look: Renderable,
        mover_look: Renderable,
    )
        requires
            first + n <= u32::MAX,
        ensures
            self.with_start(first, 0, player_look, mover_look) == self,
            self.with_start(first, n + 1, player_look, mover_look) == self.with_start(
                first,
                n,
                player_look,
                mover_look,
            ).with_entity((first + n) as u32, spec_start_bundle(n as int, player_look, mover_look)),
    {
        assert(self.with_start(first, n + 1, player_look, mover_look) =~= self.with_start(
            first,
            n,
            player_look,
            mover_look,
        ).with_entity((first + n) as u32, spec_start_bundle(n as int, player_look, mover_look)));
    }
}

/// The leftward drift moves a positioned left-mover one column to the
/// left, or to column 79 where it stood at column 0 or beyond the left
/// edge, and keeps its row. It moves no other entity, and it neither adds
/// nor removes a position.
pub proof fn lemma_left_walk(v: StoreModel, id: u32)
    requires
        v.positions.dom().contains(id),
    ensures
        v.after_left_walk().positions.dom() == v.positions.dom(),
        v.left_movers.contains(id) ==> v.after_left_walk().positions[id].y == v.positions[id].y,
        v.left_movers.contains(id) && v.positions[id].x >= 1 ==> v.after_left_walk().positions[id].x
            == v.positions[id].x - 1,
        v.left_movers.contains(id) && v.positions[id].x <= 0 ==> v.after_left_walk().positions[id].x
            == 79,
        !v.left_movers.contains(id) ==> v.after_left_walk().positions[id] == v.positions[id],
{
}

/// A move of the player shifts every positioned player by the delta and
/// holds it inside the grid: the column within `0..=79`, the row within
/// `0..=49`. It moves no other entity, and it neither adds nor removes a
/// position.
pub proof fn lemma_player_move(v: StoreModel, id: u32, dx: i32, dy: i32)
    requires
        v.positions.dom().contains(id),
    ensures
        v.after_player_move(dx, dy).positions.dom() == v.positions.dom(),
        v.players.contains(id) ==> v.after_player_move(dx, dy).positions[id].x == clamp(
            v.positions[id].x + dx,
            0,
            79,
        ),
        v.players.contains(id) ==> v.after_player_move(dx, dy).positions[id].y == clamp(
            v.positions[id].y + dy,
            0,
            49,
        ),
        v.players.contains(id) ==> v.after_player_move(dx, dy).positions[id].on_grid(),
        !v.players.contains(id) ==> v.after_player_move(dx, dy).positions[id] == v.positions[id],
{
}

/// At the left edge the two policies part: a left-mover at column 0
/// re-enters at column 79, while a player asked to step left stays at
/// column 0.
pub proof fn lemma_wrap_and_clamp_differ(v: StoreModel, id: u32)
    requires
        v.positions.dom().contains(id),
        v.positions[id].x == 0,
    ensures
        v.left_movers.contains(id) ==> v.after_left_walk().positions[id].x == 79,
        v.players.contains(id) ==> v.after_player_move(-1i32, 0i32).positions[id].x == 0,
        v.players.contains(id) && v.positions[id].on_grid() ==> v.after_player_move(
            -1i32,
            0i32,
        ).positions[id] == v.positions[id],
{
}

/// A frame keeps fragments attached to existing entities, and it neither
/// creates nor removes an entity, a position, an appearance or a tag.
pub proof fn lemma_frame_keeps_shape(v: StoreModel, key: Option<Key>)
    requires
        v.wf(),
    ensures
        v.after_frame(key).wf(),
        v.after_frame(key).entities == v.entities,
        v.after_frame(key).positions.dom() == v.positions.dom(),
        v.after_frame(key).renderables == v.renderables,
        v.after_frame(key).players == v.players,
        v.after_frame(key).left_movers == v.left_movers,
{
}

/// The first frame from the starting configuration, with no key pressed:
/// the player is still at `(40, 25)`, the left-mover that stood at column
/// 0 is at column 79, and every other left-mover is one column further
/// left, all on row 20.
pub proof fn lemma_first_frame(player_look: Renderable, mover_look: Renderable)
    ensures
        ({
            let start = StoreModel::empty().with_start(0, 11, player_look, mover_look);
            let next = start.after_frame(None);
            &&& next.positions.dom() == indices_below(11)
            &&& next.positions[0] == Position { x: 40, y: 25 }
            &&& next.positions[1] == Position { x: 79, y: 20 }
            &&& forall|k: u32|
                2 <= k <= 10 ==> #[trigger] next.positions[k] == Position {
                    x: ((k - 1) * 7 - 1) as i32,
                    y: 20,
                }
        }),
{
}

} // verus!
