//! A small procedural-map game core: a seeded terrace-noise tile grid, a
//! single-slot seed channel written from outside, a three-board victory
//! leaderboard replaced wholesale by an external caller, and the finite
//! state machine that drives generation, display and teardown of the map.
//! Rendering, input devices and the host boundary live outside this crate;
//! everything here is plain data and verified transitions.

pub mod chain;
pub mod ledger;
pub mod map;
pub mod state;
