//! Simulation core of a two-player arena ball game.
//!
//! Once per tick a match takes the players' axis values and the time that has
//! passed, moves the paddles and the ball, resolves collisions and credits
//! points. Nothing here draws, plays sound or polls devices.

pub mod config;
pub mod fixed;
pub mod laws;
pub mod pong;
pub mod systems;

pub use crate::config::Config;
pub use crate::pong::{Ball, Inputs, Paddle, Pong, ScoreBoard, Side, SpawnTimer, TickEffects};
pub use crate::systems::{BounceSystem, MoveBallsSystem, PaddleSystem, WinnerSystem};
