//! Movement and grounding controller for a player-driven character: input
//! intent, ground contact, vertical accel integration and the per-tick
//! displacement handed to a kinematic mover.
pub mod fixed;
pub mod state;
pub mod vector;
pub mod vertical;
pub mod input;
pub mod horizontal;
pub mod motion;
pub mod sensor;
pub mod laws;
