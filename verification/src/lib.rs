//! Combat core of a top-down shooter: the gun's state machine, the bullets it
//! fires, how their collisions are resolved, and the shotgun gauge that turns
//! a pair of hits into an immediate reload.
//!
//! Time is counted in whole nanoseconds throughout.

pub mod bullet;
pub mod collision;
pub mod enemy;
pub mod frame;
pub mod gauge;
pub mod gun;
pub mod health;
pub mod rapier;
pub mod timer;
