//! A small grid-based roguelike: a tile map, an entity store with
//! positions, appearances and tags, keyboard-driven player movement and one
//! autonomous behaviour, advanced one frame at a time.
//!
//! - [`map`] generates the tile map and proves what holds of every map.
//! - [`components`] holds the fragments an entity can carry and the two
//!   rules by which a position moves.
//! - [`input`] maps a key press to the step it asks for.
//! - [`model`] is the mathematical picture of the entity store and of what
//!   a frame does to it; [`listing`] says in what order entities are
//!   handed out.
//! - [`game`] is the game state and its frame: input, behaviours, drawing.
//! - [`render`] is what a frame asks of the display.
//!
//! Everything is verified except what [`store`] and [`dice`] state of the
//! two libraries underneath: the entity store of `specs` and the dice
//! roller of `rltk`. Their contracts are assumed, and each says in its
//! comment what it claims.

pub mod components;
pub mod dice;
pub mod game;
pub mod input;
pub mod listing;
pub mod map;
pub mod model;
pub mod render;
pub mod store;
