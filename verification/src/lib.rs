//! The simulation core of an endless-ascent arcade game.
//!
//! A coin is flipped into the sky. Gravity pulls it down, the player steers
//! it and spends boosts, clouds slow it, and boost items and fairies help it
//! on. The flight ends when the coin falls too fast, and is scored by the
//! height it reached.
//!
//! The core is deterministic but for the level generator, which draws from a
//! random source that the caller hands in. It works on integers throughout
//! (see [`math`]), takes abstract input, and exposes plain numbers for a
//! presentation layer to draw. Every function states what it computes in its
//! contract, and the contracts are proved.

pub mod anim;
pub mod app_state;
pub mod boost_item;
pub mod clock;
pub mod cloud;
pub mod coin;
pub mod coin_camera;
pub mod coin_launch_ui;
pub mod fairy;
pub mod game;
pub mod level;
pub mod math;
pub mod physics;
pub mod random;
pub mod rect;
pub mod scores;
pub mod world;
