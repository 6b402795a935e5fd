//! Simulation core of a 2D platformer: one player moving through static,
//! axis-aligned geometry, with a discrete movement state machine and a
//! checkpoint slot.
//!
//! A tick runs, in this order: the movement integrator
//! ([`player::Player::movement`]), collision and state resolution
//! ([`player::Player::collision_check`]) and the checkpoint stage
//! ([`checkpoint::savepoint`]); [`game::Game::tick`] runs all three on the
//! input frame that [`input::input_handling`] builds.
//!
//! All lengths and speeds are fixed-point integers: one pixel is
//! [`geometry::UNIT`] subunits, and one tick is one step of integration.
pub mod geometry;
pub mod input;
pub mod player;
pub mod collision;
pub mod checkpoint;
pub mod game;
