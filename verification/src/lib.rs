//! Model of a side-scrolling arcade game: a bee dodges scrolling pillar
//! obstacles while gravity and a jump impulse govern its vertical motion.
//!
//! All world geometry is kept in fixed-point milliunits (one thousandth of a
//! world unit) so that positions, velocities and collision tests are exact
//! integer arithmetic. Time is measured in milliseconds.

pub mod anim;
pub mod bee;
pub mod clouds;
pub mod game;
pub mod geometry;
pub mod menu;
pub mod pillars;
pub mod rng;
pub mod timer;
pub mod units;

use vstd::prelude::*;

verus! {

/// The two screens of the game: the title menu and the playing field.
#[derive(Clone, Copy, Debug, PartialEq, Eq, Structural)]
pub enum GameState {
    Menu,
    Game,
}

} // verus!
