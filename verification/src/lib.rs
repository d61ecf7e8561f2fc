//! A discrete-time battle simulation on fixed-point arithmetic.
//!
//! Two armies of soldiers meet in a bounded arena. Every tick each living
//! soldier moves, pushes away whoever it overlaps, and then makes its move in a
//! small state machine: wait, pick the nearest enemy, charge, fight. All
//! quantities are integers that count thousandths, so that every step is exact
//! and every law of the simulation can be stated and proved.

pub mod app;
pub mod army;
mod chance;
pub mod combat;
pub mod fixed;
pub mod laws;
pub mod legion;
pub mod physics;
pub mod soldier;
pub mod update;

pub use app::App;
pub use legion::{SoldierType, Team};
pub use soldier::{BattleState, Soldier, SCREEN_HEIGHT, SCREEN_WIDTH};
