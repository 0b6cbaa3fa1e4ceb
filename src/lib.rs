//! Per-tick simulation of a side-scrolling arcade game: a flying crow
//! collects jewels while walkers chase it across the ground.
//!
//! Lengths are counted in steps of one sixtieth of a world unit, and one
//! simulation tick lasts one sixtieth of a second. A speed given in world
//! units per second therefore moves a body by exactly that many steps in a
//! tick, and every quantity of the simulation is an integer.

pub mod units;
pub mod contact;
pub mod clock;
pub mod player;
pub mod hazard;
mod random;
pub mod world;
pub mod laws;

pub use contact::{collide, Aabb, Contact};
pub use clock::RepeatingClock;
pub use hazard::Hazard;
pub use player::{HorizontalFlag, Keys, Player, PlayerState, VerticalFlag};
pub use world::{Collider, ColliderKind, TickEvents, World};
