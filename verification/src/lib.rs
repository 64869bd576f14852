//! Core rules of a small 2D arcade game: a player moves around a window,
//! collecting presents (score, speed-up) and avoiding bouncing snowflakes
//! (life loss). All quantities are integers: positions and window sizes in
//! plain units, directions as fixed-point fractions of `DIR_SCALE`, time in
//! milliseconds. The host (window, input, rendering) drives `session::step`
//! once per frame.

pub mod collision;
pub mod effects;
pub mod motion;
pub mod player;
pub mod session;
pub mod spawn;
pub mod text;
pub mod world;
