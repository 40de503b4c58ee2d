//! The spatial world model of a tile-based arena game and the contract
//! between the game and the agents that play it.
//!
//! A map is a rectangle of tiles, read once from a text. Agents never see
//! the map itself: each turn they are handed a view of it from where they
//! stand, and answer with an action.

pub mod fool;
pub mod game_map;
pub mod grid;
pub mod location;
pub mod parse;
pub mod player;
pub mod text;
pub mod world;

pub use crate::fool::Fool;
pub use crate::game_map::{GameMap, WorldAt};
pub use crate::location::Location;
pub use crate::parse::MapParseError;
pub use crate::player::{Action, Player};
pub use crate::world::{Direction, Distance, Tile, World};
