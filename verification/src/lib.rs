//! A fixed-point flocking simulation: a world of agents that steer by
//! separation, alignment and cohesion, advanced one tick at a time.
//!
//! Every quantity is an integer count of thousandths (see [`arith::UNIT`]),
//! so that each tick is an exact function of the state before it.

pub mod arith;
pub mod config;
pub mod vector;
pub mod rules;
pub mod random;
pub mod world;
pub mod laws;
