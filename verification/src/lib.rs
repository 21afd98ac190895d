//! Movement, input-debounce and projectile kinematics for a grid-based
//! arcade shooter.
//!
//! An entity snaps between nine named cells of a fixed 3x3 grid, animating
//! smoothly between them; a fire latch debounces the fire action over a
//! 100 ms window; projectiles travel in a straight line and are swept once
//! they cross a fixed boundary.  All coordinates and times are held in
//! fixed-point integers (thousandths of a world unit, milliseconds), so
//! every tick of the simulation is exact and fully specified.

pub mod grid;
pub mod latch;
pub mod bullet;
pub mod player;
