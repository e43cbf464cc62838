//! A four-in-a-row board-game engine: a 4x4 grid onto which two teams drop
//! pieces under gravity, an incremental win/draw detector anchored at the
//! last-placed cell, a text renderer, and a seeded pseudo-random generator
//! used to synthesize reproducible fully-populated boards.

pub mod board;
pub mod fill;
pub mod laws;
pub mod model;
pub mod render;
pub mod rng;
