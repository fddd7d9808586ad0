//! A simulation core for a vector-outline asteroid shooter, in fixed-point
//! arithmetic and with machine-checked contracts.
//!
//! A [`game::Game`] holds a ship, bullets and asteroids in a world that
//! wraps at its edges. [`game::Game::tick`] advances it by one frame and
//! reports the sounds to play; [`game::Game::render`] turns it into line
//! segments for a rasterizer. Windowing, input, audio and file access are
//! left to the caller.
//!
//! The modules, from the bottom up:
//!
//! - [`fixed`], [`trig`], [`vec2`]: numbers, angles and vectors;
//! - [`outline`]: from the drawing commands of a path to an outline;
//! - [`rules`]: the constants of the game;
//! - [`entity`]: ship, bullets, asteroids and how each moves;
//! - [`chance`], [`spawn`]: the random source and what is drawn from it;
//! - [`collide`]: hits, and pushing overlapping asteroids apart;
//! - [`world`], [`game`], [`render`]: the state, a frame, a picture.

pub mod chance;
pub mod collide;
pub mod entity;
pub mod fixed;
pub mod game;
pub mod outline;
pub mod render;
pub mod rules;
pub mod spawn;
pub mod trig;
pub mod vec2;
pub mod world;
