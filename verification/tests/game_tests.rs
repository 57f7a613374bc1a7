use rustlike::components::Bundle;
use rustlike::components::Color;
use rustlike::components::Position;
use rustlike::components::Renderable;
use rustlike::game::player_input;
use rustlike::game::start_bundle;
use rustlike::game::try_move_player;
use rustlike::game::LeftWalker;
use rustlike::game::State;
use rustlike::input::Key;
use rustlike::render::draw_op;
use rustlike::render::frame_ops;
use rustlike::render::FrameOp;
use rustlike::store::MAX_ENTITIES;

const YELLOW: Color = Color { r: 255, g: 255, b: 0 };
const RED: Color = Color { r: 255, g: 0, b: 0 };
const BLACK: Color = Color { r: 0, g: 0, b: 0 };

fn player_look() -> Renderable {
    Renderable { glyph: 64, fg: YELLOW, bg: BLACK }
}

fn mover_look() -> Renderable {
    Renderable { glyph: 1, fg: RED, bg: BLACK }
}

fn player_at(x: i32, y: i32) -> Bundle {
    Bundle { position: Some(Position { x, y }), renderable: Some(player_look()), player: true, left_mover: false }
}

fn mover_at(x: i32, y: i32) -> Bundle {
    Bundle { position: Some(Position { x, y }), renderable: Some(mover_look()), player: false, left_mover: true }
}

fn position_in(cells: &Vec<(u32, Position)>, id: u32) -> Option<Position> {
    let found: Vec<Position> = cells.iter().filter(|c| c.0 == id).map(|c| c.1).collect();
    assert!(found.len() <= 1);
    found.first().copied()
}

#[test]
fn new_state_is_empty() {
    let gs = State::new();
    assert_eq!(gs.spawned(), 0);
    assert!(gs.player_cells().is_empty());
    assert!(gs.left_walker_cells().is_empty());
    assert!(gs.drawable_cells().is_empty());
}

#[test]
fn spawn_returns_fresh_indices() {
    let mut gs = State::new();
    let a = gs.spawn(player_at(1, 2)).unwrap();
    let b = gs.spawn(mover_at(3, 4)).unwrap();
    let c = gs.spawn(mover_at(5, 6)).unwrap();
    assert_ne!(a, b);
    assert_ne!(a, c);
    assert_ne!(b, c);
    assert_eq!(gs.spawned(), 3);
}

#[test]
fn spawn_attaches_what_the_bundle_holds() {
    let mut gs = State::new();
    let p = gs.spawn(player_at(1, 2)).unwrap();
    let m = gs.spawn(mover_at(3, 4)).unwrap();
    assert_eq!(gs.player_cells(), vec![(p, Position { x: 1, y: 2 })]);
    assert_eq!(gs.left_walker_cells(), vec![(m, Position { x: 3, y: 4 })]);
    let drawn = gs.drawable_cells();
    let expected = vec![
        (p, Position { x: 1, y: 2 }, player_look()),
        (m, Position { x: 3, y: 4 }, mover_look()),
    ];
    assert_eq!(drawn, expected);
}

#[test]
fn entities_without_a_position_are_skipped() {
    let mut gs = State::new();
    gs.spawn(Bundle { position: None, renderable: Some(mover_look()), player: true, left_mover: true }).unwrap();
    gs.spawn(Bundle { position: None, renderable: None, player: false, left_mover: false }).unwrap();
    assert!(gs.player_cells().is_empty());
    assert!(gs.left_walker_cells().is_empty());
    assert!(gs.drawable_cells().is_empty());
    let ops = gs.tick(Some(Key::Left));
    assert_eq!(ops, vec![FrameOp::Clear]);
}

#[test]
fn entities_without_an_appearance_are_not_drawn_but_move() {
    let mut gs = State::new();
    let m = gs.spawn(Bundle { position: Some(Position { x: 9, y: 9 }), renderable: None, player: false, left_mover: true }).unwrap();
    let ops = gs.tick(None);
    assert_eq!(ops, vec![FrameOp::Clear]);
    assert_eq!(gs.left_walker_cells(), vec![(m, Position { x: 8, y: 9 })]);
}

#[test]
fn left_walker_moves_from_five_to_four() {
    let mut gs = State::new();
    let m = gs.spawn(mover_at(5, 20)).unwrap();
    let mut lw = LeftWalker {};
    lw.run(&mut gs);
    assert_eq!(gs.left_walker_cells(), vec![(m, Position { x: 4, y: 20 })]);
}

#[test]
fn left_walker_wraps_from_zero_to_seventy_nine() {
    let mut gs = State::new();
    let m = gs.spawn(mover_at(0, 20)).unwrap();
    let mut lw = LeftWalker {};
    lw.run(&mut gs);
    assert_eq!(gs.left_walker_cells(), vec![(m, Position { x: 79, y: 20 })]);
}

#[test]
fn left_walker_leaves_others_alone() {
    let mut gs = State::new();
    let p = gs.spawn(player_at(40, 25)).unwrap();
    let s = gs.spawn(Bundle { position: Some(Position { x: 7, y: 7 }), renderable: Some(mover_look()), player: false, left_mover: false }).unwrap();
    let m = gs.spawn(mover_at(7, 7)).unwrap();
    gs.run_systems();
    assert_eq!(gs.player_cells(), vec![(p, Position { x: 40, y: 25 })]);
    assert_eq!(gs.left_walker_cells(), vec![(m, Position { x: 6, y: 7 })]);
    let drawn = gs.drawable_cells();
    assert!(drawn.contains(&(s, Position { x: 7, y: 7 }, mover_look())));
    assert_eq!(drawn.len(), 3);
}

#[test]
fn run_systems_twice_moves_two_columns() {
    let mut gs = State::new();
    let m = gs.spawn(mover_at(1, 3)).unwrap();
    gs.run_systems();
    gs.run_systems();
    assert_eq!(gs.left_walker_cells(), vec![(m, Position { x: 79, y: 3 })]);
}

#[test]
fn player_moves_up_on_k() {
    let mut gs = State::new();
    let p = gs.spawn(player_at(40, 25)).unwrap();
    player_input(&mut gs, Some(Key::K));
    assert_eq!(gs.player_cells(), vec![(p, Position { x: 40, y: 24 })]);
    player_input(&mut gs, Some(Key::Up));
    assert_eq!(gs.player_cells(), vec![(p, Position { x: 40, y: 23 })]);
}

#[test]
fn player_stays_at_the_left_edge() {
    let mut gs = State::new();
    let p = gs.spawn(player_at(0, 25)).unwrap();
    player_input(&mut gs, Some(Key::H));
    assert_eq!(gs.player_cells(), vec![(p, Position { x: 0, y: 25 })]);
    player_input(&mut gs, Some(Key::Left));
    assert_eq!(gs.player_cells(), vec![(p, Position { x: 0, y: 25 })]);
}

#[test]
fn player_moves_in_every_direction() {
    let mut gs = State::new();
    let p = gs.spawn(player_at(10, 10)).unwrap();
    player_input(&mut gs, Some(Key::L));
    assert_eq!(gs.player_cells(), vec![(p, Position { x: 11, y: 10 })]);
    player_input(&mut gs, Some(Key::Right));
    assert_eq!(gs.player_cells(), vec![(p, Position { x: 12, y: 10 })]);
    player_input(&mut gs, Some(Key::J));
    assert_eq!(gs.player_cells(), vec![(p, Position { x: 12, y: 11 })]);
    player_input(&mut gs, Some(Key::Down));
    assert_eq!(gs.player_cells(), vec![(p, Position { x: 12, y: 12 })]);
}

#[test]
fn other_keys_and_no_key_do_nothing() {
    let mut gs = State::new();
    let p = gs.spawn(player_at(10, 10)).unwrap();
    let m = gs.spawn(mover_at(5, 5)).unwrap();
    player_input(&mut gs, None);
    player_input(&mut gs, Some(Key::Other));
    assert_eq!(gs.player_cells(), vec![(p, Position { x: 10, y: 10 })]);
    assert_eq!(gs.left_walker_cells(), vec![(m, Position { x: 5, y: 5 })]);
}

#[test]
fn try_move_player_clamps_to_the_grid() {
    let mut gs = State::new();
    let p = gs.spawn(player_at(78, 1)).unwrap();
    try_move_player(5, -5, &mut gs);
    assert_eq!(gs.player_cells(), vec![(p, Position { x: 79, y: 0 })]);
    try_move_player(-200, 200, &mut gs);
    assert_eq!(gs.player_cells(), vec![(p, Position { x: 0, y: 49 })]);
}

#[test]
fn try_move_player_moves_every_player_and_nothing_else() {
    let mut gs = State::new();
    let a = gs.spawn(player_at(10, 10)).unwrap();
    let b = gs.spawn(player_at(79, 30)).unwrap();
    let m = gs.spawn(mover_at(5, 5)).unwrap();
    try_move_player(1, 0, &mut gs);
    let players = gs.player_cells();
    assert_eq!(players.len(), 2);
    assert_eq!(position_in(&players, a), Some(Position { x: 11, y: 10 }));
    assert_eq!(position_in(&players, b), Some(Position { x: 79, y: 30 }));
    assert_eq!(gs.left_walker_cells(), vec![(m, Position { x: 5, y: 5 })]);
}

#[test]
fn an_entity_with_both_tags_is_moved_by_both() {
    let mut gs = State::new();
    let e = gs.spawn(Bundle { position: Some(Position { x: 0, y: 10 }), renderable: None, player: true, left_mover: true }).unwrap();
    gs.tick(Some(Key::Left));
    assert_eq!(gs.player_cells(), vec![(e, Position { x: 79, y: 10 })]);
    gs.tick(Some(Key::Right));
    assert_eq!(gs.player_cells(), vec![(e, Position { x: 78, y: 10 })]);
}

#[test]
fn start_bundle_places_the_player_and_the_movers() {
    assert_eq!(start_bundle(0, player_look(), mover_look()), player_at(40, 25));
    assert_eq!(start_bundle(1, player_look(), mover_look()), mover_at(0, 20));
    assert_eq!(start_bundle(2, player_look(), mover_look()), mover_at(7, 20));
    assert_eq!(start_bundle(10, player_look(), mover_look()), mover_at(63, 20));
}

#[test]
fn starting_entities_are_one_player_and_ten_movers() {
    let mut gs = State::new();
    let first = gs.spawn_starting_entities(player_look(), mover_look()).unwrap();
    assert_eq!(first, 0);
    assert_eq!(gs.spawned(), 11);
    assert_eq!(gs.player_cells(), vec![(0, Position { x: 40, y: 25 })]);
    let movers = gs.left_walker_cells();
    assert_eq!(movers.len(), 10);
    for i in 0..10u32 {
        assert_eq!(movers[i as usize], (i + 1, Position { x: 7 * i as i32, y: 20 }));
    }
    let drawn = gs.drawable_cells();
    assert_eq!(drawn.len(), 11);
    assert_eq!(drawn[0], (0, Position { x: 40, y: 25 }, player_look()));
    assert_eq!(drawn[10], (10, Position { x: 63, y: 20 }, mover_look()));
}

#[test]
fn starting_entities_follow_those_already_there() {
    let mut gs = State::new();
    gs.spawn(mover_at(5, 5)).unwrap();
    gs.spawn(mover_at(6, 6)).unwrap();
    let first = gs.spawn_starting_entities(player_look(), mover_look()).unwrap();
    assert_eq!(first, 2);
    assert_eq!(gs.spawned(), 13);
    assert_eq!(gs.player_cells(), vec![(2, Position { x: 40, y: 25 })]);
    let movers = gs.left_walker_cells();
    assert_eq!(movers.len(), 12);
    assert_eq!(movers[0], (0, Position { x: 5, y: 5 }));
    assert_eq!(movers[2], (3, Position { x: 0, y: 20 }));
    assert_eq!(movers[11], (12, Position { x: 63, y: 20 }));
}

#[test]
fn one_frame_from_the_start_without_a_key() {
    let mut gs = State::new();
    gs.spawn_starting_entities(player_look(), mover_look()).unwrap();
    let ops = gs.tick(None);
    assert_eq!(gs.player_cells(), vec![(0, Position { x: 40, y: 25 })]);
    let movers = gs.left_walker_cells();
    assert_eq!(movers.len(), 10);
    assert_eq!(movers[0], (1, Position { x: 79, y: 20 }));
    for i in 1..10u32 {
        assert_eq!(movers[i as usize], (i + 1, Position { x: 7 * i as i32 - 1, y: 20 }));
    }
    assert_eq!(ops.len(), 12);
    assert_eq!(ops[0], FrameOp::Clear);
    assert_eq!(ops[1], FrameOp::Draw { x: 40, y: 25, fg: YELLOW, bg: BLACK, glyph: 64 });
    assert_eq!(ops[2], FrameOp::Draw { x: 79, y: 20, fg: RED, bg: BLACK, glyph: 1 });
    assert_eq!(ops[3], FrameOp::Draw { x: 6, y: 20, fg: RED, bg: BLACK, glyph: 1 });
    assert_eq!(ops[11], FrameOp::Draw { x: 62, y: 20, fg: RED, bg: BLACK, glyph: 1 });
    assert!(!ops.contains(&FrameOp::Draw { x: 0, y: 20, fg: RED, bg: BLACK, glyph: 1 }));
}

#[test]
fn tick_moves_the_player_and_the_movers() {
    let mut gs = State::new();
    gs.spawn_starting_entities(player_look(), mover_look()).unwrap();
    let ops = gs.tick(Some(Key::K));
    assert_eq!(gs.player_cells(), vec![(0, Position { x: 40, y: 24 })]);
    assert_eq!(ops[1], FrameOp::Draw { x: 40, y: 24, fg: YELLOW, bg: BLACK, glyph: 64 });
    assert_eq!(position_in(&gs.left_walker_cells(), 2), Some(Position { x: 6, y: 20 }));
}

#[test]
fn spawn_numbers_entities_from_zero() {
    let mut gs = State::new();
    assert_eq!(gs.spawn(mover_at(1, 1)), Some(0));
    assert_eq!(gs.spawn(player_at(2, 2)), Some(1));
    assert_eq!(gs.spawn(mover_at(3, 3)), Some(2));
    assert_eq!(gs.spawned(), 3);
}

#[test]
fn listings_are_in_ascending_order_of_index() {
    let mut gs = State::new();
    for i in 0..200 {
        gs.spawn(mover_at(i % 80, i % 50)).unwrap();
    }
    let cells = gs.drawable_cells();
    assert_eq!(cells.len(), 200);
    for i in 0..200 {
        assert_eq!(cells[i].0, i as u32);
    }
    let movers = gs.left_walker_cells();
    for i in 0..200 {
        assert_eq!(movers[i], (i as u32, Position { x: i as i32 % 80, y: i as i32 % 50 }));
    }
}

#[test]
fn eighty_frames_bring_a_mover_back() {
    let mut gs = State::new();
    let m = gs.spawn(mover_at(33, 2)).unwrap();
    for _ in 0..80 {
        gs.tick(None);
    }
    assert_eq!(gs.left_walker_cells(), vec![(m, Position { x: 33, y: 2 })]);
}

#[test]
fn frame_ops_clear_then_draw_in_order() {
    let cells = vec![
        (4, Position { x: 1, y: 2 }, player_look()),
        (9, Position { x: 3, y: 4 }, mover_look()),
    ];
    let ops = frame_ops(&cells);
    assert_eq!(
        ops,
        vec![
            FrameOp::Clear,
            FrameOp::Draw { x: 1, y: 2, fg: YELLOW, bg: BLACK, glyph: 64 },
            FrameOp::Draw { x: 3, y: 4, fg: RED, bg: BLACK, glyph: 1 },
        ]
    );
    assert_eq!(frame_ops(&Vec::new()), vec![FrameOp::Clear]);
}

#[test]
fn draw_op_takes_cell_and_look() {
    let op = draw_op(Position { x: 7, y: 8 }, mover_look());
    assert_eq!(op, FrameOp::Draw { x: 7, y: 8, fg: RED, bg: BLACK, glyph: 1 });
}

#[test]
fn spawn_refuses_once_the_store_is_full() {
    let empty = Bundle { position: None, renderable: None, player: false, left_mover: false };
    let mut gs = State::new();
    for i in 0..MAX_ENTITIES - 5 {
        assert_eq!(gs.spawn(empty), Some(i));
    }
    assert_eq!(gs.spawn_starting_entities(player_look(), mover_look()), None);
    assert_eq!(gs.spawned(), MAX_ENTITIES - 5);
    assert!(gs.drawable_cells().is_empty());
    for i in MAX_ENTITIES - 5..MAX_ENTITIES - 1 {
        assert_eq!(gs.spawn(empty), Some(i));
    }
    assert_eq!(gs.spawn(mover_at(0, 3)), Some(MAX_ENTITIES - 1));
    assert_eq!(gs.spawned(), MAX_ENTITIES);
    assert_eq!(gs.spawn(mover_at(3, 3)), None);
    assert_eq!(gs.spawn(empty), None);
    assert_eq!(gs.spawned(), MAX_ENTITIES);
    gs.tick(None);
    assert_eq!(gs.left_walker_cells(), vec![(MAX_ENTITIES - 1, Position { x: 79, y: 3 })]);
}
