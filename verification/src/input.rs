//! Keys and the movement each of them asks for.

use vstd::prelude::*;

verus! {

/// A key press as far as the game tells keys apart: the four arrows, the
/// four letters that double for them, and everything else.
#[derive(Clone, Copy, Debug, PartialEq, Eq, Structural)]
pub enum Key {
    Left,
    Right,
    Up,
    Down,
    H,
    J,
    K,
    L,
    Other,
}

/// The step `(dx, dy)` that a frame's key press asks of the player, if any:
/// H or Left is one column to the left, L or Right one to the right, K or
/// Up one row up, J or Down one row down. No key and any other key ask
/// for nothing.
pub open spec fn spec_key_delta(key: Option<Key>) -> Option<(i32, i32)> {
    match key {
        None => None,
        Some(Key::Left) | Some(Key::H) => Some((-1i32, 0i32)),
        Some(Key::Right) | Some(Key::L) => Some((1i32, 0i32)),
        Some(Key::Up) | Some(Key::K) => Some((0i32, -1i32)),
        Some(Key::Down) | Some(Key::J) => Some((0i32, 1i32)),
        Some(Key::Other) => None,
    }
}

/// The step that a frame's key press asks of the player, if any.
pub fn key_delta(key: Option<Key>) -> (delta: Option<(i32, i32)>)
    ensures
        delta == spec_key_delta(key),
{
    match key {
        None => None,
        Some(k) => match k {
            Key::Left | Key::H => Some((-1, 0)),
            Key::Right | Key::L => Some((1, 0)),
            Key::Up | Key::K => Some((0, -1)),
            Key::Down | Key::J => Some((0, 1)),
            Key::Other => None,
        },
    }
}

} // verus!
