//! Core of a two-player ball-and-paddle arcade game.
//!
//! Two vertical paddles are confined to the play field's vertical extent; a
//! ball travels across the field, bounces off the top and bottom edges and off
//! a paddle's face, and scores a point for the opposing player when it passes
//! a paddle instead of bouncing. The host supplies field dimensions once, and
//! per frame an elapsed-time value and the active movement commands; it reads
//! positions and scores back to render. All coordinates are integers; the
//! y axis grows downward, as on a screen.

pub mod ball;
pub mod config;
pub mod game;
pub mod paddle;
mod rng;
pub mod vec2;
