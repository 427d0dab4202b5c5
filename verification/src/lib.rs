//! Motion and collision for a two-dimensional platformer, on an integer lattice.
//!
//! Every quantity is a whole number of world sub-units, so each step of the
//! simulation is integer arithmetic and repeats bit for bit. A tick integrates
//! velocities, then positions, detects collisions between probing and
//! collidable shapes, resolves the player's landings and finally empties every
//! collision buffer.

pub mod vector;
pub mod kinematics;
pub mod shape;
pub mod aabb;
pub mod raycast;
pub mod detector;
pub mod settings;
pub mod player;
pub mod body;
pub mod systems;
pub mod world;
pub mod loader;
