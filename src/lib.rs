//! Simulation core of a two-paddle ball game in fixed-point arena coordinates: rectangle
//! overlap, paddle motion, ball collision response and wall bounce, and the scoring and
//! serving state machine.
use vstd::prelude::*;

pub mod geometry;
pub mod sprite;
pub mod paddle;
pub mod ball;
pub mod game;

verus! {

} // verus!
