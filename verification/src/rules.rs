//! The fixed numbers of the game.

use vstd::prelude::*;

verus! {

/// Thrust of the ship, in units per second per second.
pub const PLAYER_ACCEL: i32 = 600;

/// Turning rate of the ship in raw radians per second (seven degrees).
pub const PLAYER_ROTATE_VEL: i64 = 122_173;

/// Collision radius of the ship.
pub const PLAYER_RADIUS: i32 = 10;

/// Speed at which a bullet leaves the ship.
pub const BULLET_VEL: i32 = 1000;

/// Least time between two shots, in milliseconds.
pub const BULLET_DELAY: u64 = 100;

/// Asteroid count from which a destroyed asteroid leaves nothing behind.
pub const MAX_ASTEROIDS: usize = 50;

/// Upper bound (exclusive) of the radius of a newly placed asteroid.
pub const ASTEROID_MAX_RADIUS: i32 = 80;

/// Radius above which a destroyed asteroid breaks into fragments.
pub const ASTEROID_MIN_RADIUS: i32 = 30;

/// Lower bound of the radius of a newly placed asteroid.
pub const NEW_ASTEROID_MIN_RADIUS: i32 = 40;

/// Side of the square in which new asteroids are placed.
pub const SPAWN_EXTENT: i32 = 1000;

/// Clearance, beyond the two radii, between a newly placed asteroid and
/// the ship.
pub const SPAWN_MARGIN: i32 = 50;

/// Lower bound of each velocity coordinate of a newly placed asteroid.
pub const SPAWN_MIN_SPEED: i32 = 50;

/// Upper bound (exclusive) of each velocity coordinate of a newly placed
/// asteroid.
pub const SPAWN_MAX_SPEED: i32 = 200;

/// Lower bound of each coordinate of the extra velocity of a fragment.
pub const FRAGMENT_MIN_BOOST: i32 = 10;

/// Upper bound (exclusive) of each coordinate of the extra velocity of a
/// fragment.
pub const FRAGMENT_MAX_BOOST: i32 = 75;

/// Least number of fragments of a split.
pub const MIN_FRAGMENTS: usize = 2;

/// Greatest number of fragments of a split.
pub const MAX_FRAGMENTS: usize = 4;

/// How often a placement too close to the ship is drawn again before the
/// asteroid is put into the far corner instead.
pub const PLACEMENT_ATTEMPTS: u32 = 64;

} // verus!
