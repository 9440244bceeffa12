//! Steering model of a single actor on a plane: a compass heading turned by
//! keys or towards a pointer, and constant-speed motion along that heading.
//!
//! All quantities are fixed-point integers: angles in thousandths of a degree,
//! coordinates in millionths of a world unit.
pub mod angle;
pub mod motion;
pub mod steering;

pub use motion::Vector;
pub use steering::{Config, Keys, Player, Steering};
