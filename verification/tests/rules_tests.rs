use rustlike::components::Position;
use rustlike::input::key_delta;
use rustlike::input::Key;

#[test]
fn step_left_moves_one_column() {
    let p = Position { x: 5, y: 20 }.step_left();
    assert_eq!(p, Position { x: 4, y: 20 });
}

#[test]
fn step_left_wraps_at_the_left_edge() {
    let p = Position { x: 0, y: 20 }.step_left();
    assert_eq!(p, Position { x: 79, y: 20 });
}

#[test]
fn step_left_from_outside_left_enters_on_the_right() {
    assert_eq!(Position { x: -3, y: 7 }.step_left(), Position { x: 79, y: 7 });
    assert_eq!(Position { x: i32::MIN, y: 7 }.step_left(), Position { x: 79, y: 7 });
    assert_eq!(Position { x: 1, y: 7 }.step_left(), Position { x: 0, y: 7 });
    assert_eq!(Position { x: 200, y: -7 }.step_left(), Position { x: 199, y: -7 });
}

#[test]
fn shifted_moves_inside_the_grid() {
    assert_eq!(Position { x: 40, y: 25 }.shifted(0, -1), Position { x: 40, y: 24 });
    assert_eq!(Position { x: 40, y: 25 }.shifted(0, 1), Position { x: 40, y: 26 });
    assert_eq!(Position { x: 40, y: 25 }.shifted(-1, 0), Position { x: 39, y: 25 });
    assert_eq!(Position { x: 40, y: 25 }.shifted(1, 0), Position { x: 41, y: 25 });
}

#[test]
fn shifted_clamps_at_every_edge() {
    assert_eq!(Position { x: 0, y: 25 }.shifted(-1, 0), Position { x: 0, y: 25 });
    assert_eq!(Position { x: 79, y: 25 }.shifted(1, 0), Position { x: 79, y: 25 });
    assert_eq!(Position { x: 40, y: 0 }.shifted(0, -1), Position { x: 40, y: 0 });
    assert_eq!(Position { x: 40, y: 49 }.shifted(0, 1), Position { x: 40, y: 49 });
}

#[test]
fn shifted_clamps_large_values_without_overflow() {
    assert_eq!(Position { x: i32::MAX, y: i32::MIN }.shifted(i32::MAX, i32::MIN), Position { x: 79, y: 0 });
    assert_eq!(Position { x: -500, y: 500 }.shifted(3, 3), Position { x: 0, y: 49 });
}

#[test]
fn key_delta_of_each_key() {
    assert_eq!(key_delta(None), None);
    assert_eq!(key_delta(Some(Key::Other)), None);
    assert_eq!(key_delta(Some(Key::H)), Some((-1, 0)));
    assert_eq!(key_delta(Some(Key::Left)), Some((-1, 0)));
    assert_eq!(key_delta(Some(Key::L)), Some((1, 0)));
    assert_eq!(key_delta(Some(Key::Right)), Some((1, 0)));
    assert_eq!(key_delta(Some(Key::K)), Some((0, -1)));
    assert_eq!(key_delta(Some(Key::Up)), Some((0, -1)));
    assert_eq!(key_delta(Some(Key::J)), Some((0, 1)));
    assert_eq!(key_delta(Some(Key::Down)), Some((0, 1)));
}
