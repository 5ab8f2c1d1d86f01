//! A 2D arcade game's simulation core: a player circle that moves inside a
//! rectangular arena, obstacles that spawn at the right edge and drift left,
//! and the collision pass that ends a round.
//!
//! Lengths are kept in thousandths of a pixel, durations in milliseconds and
//! speeds in pixels per second, so that a speed times a duration is an exact
//! displacement.

pub mod application;
pub mod controllers;
pub mod game_state;
pub mod geometry;
pub mod laws;
pub mod models;
mod random;

pub use application::ApplicationState;
pub use controllers::{
    CollisionsController, Event, InputController, Key, TimeController, INITIAL_SPAWN_MS, MAX_SPAWN_MS,
    MIN_SPAWN_MS,
};
pub use game_state::{GameState, GameView, GAME_OVER};
pub use geometry::{overlaps, Point, Size};
pub use models::{
    Actions, Obstacle, Player, MAX_FRAME_MS, MAX_OBSTACLE_SPEED, MIN_OBSTACLE_SPEED, OBSTACLE_RADIUS,
    PLAYER_RADIUS, PLAYER_SPEED,
};
