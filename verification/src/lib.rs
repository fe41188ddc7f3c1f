//! Crabber: the rules of a small arcade playfield.
//!
//! A square "crab" steps tile by tile over a portrait playfield while an orb
//! sweeps across it. This library holds the state and the rules: where the
//! crab may step, how the orb advances, and which drawing commands make up a
//! frame. A host program owns the window, feeds key presses in and carries
//! the drawing commands out.
//!
//! Coordinates are whole numbers of screen units, with the origin in the top
//! left corner and `y` growing downwards.

pub mod crab;
pub mod game;
pub mod shape;
