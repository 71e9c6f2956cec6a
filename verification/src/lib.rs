//! Core logic of a snake game on a toroidal grid: wrap-around position
//! arithmetic, the snake's movement/growth/death state machine, apple
//! placement by rejection sampling, and resolution of buffered directional
//! input. Rendering and key polling live outside the library.

pub mod apple;
pub mod direction;
pub mod game;
pub mod grid;
pub mod input;
pub mod rng;
pub mod snake;
