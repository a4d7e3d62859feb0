//! Rules of a grid puzzle: a player token walks an 8 by 12 board towards goal
//! cells, avoiding traps, before a countdown runs out.  The crate holds the
//! movement, collision, countdown and level-lifecycle rules together with the
//! integer side of their presentation; every function carries a contract that
//! Verus proves.

pub mod color;
pub mod events;
pub mod game;
pub mod grid;
pub mod level;
pub mod presentation;
pub mod timer;
pub mod world;
