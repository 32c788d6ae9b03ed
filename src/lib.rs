//! Procedural spiral-galaxy layout.
//!
//! A galaxy is a number of spiral arms, each a run of stars that winds
//! outward from the center.  This library decides, with integer arithmetic
//! whose contracts are proved, which configurations are accepted, how many
//! stars each arm carries, and the arm, place, color and angular phase of
//! every star, in a fixed emission order.  The caller turns a star's place
//! into a position in space and adds its random jitter.
use vstd::prelude::*;

pub mod binary32;
pub mod config;
pub mod input;
pub mod layout;
pub mod palette;

pub use config::{GalaxyConfig, GalaxyError, GalaxyPlan};
pub use input::{InputData, PressedKeys};
pub use layout::{generate, GalaxyLayout, StarSlot};
pub use palette::{branch_color, StarColor};

verus! {

} // verus!
