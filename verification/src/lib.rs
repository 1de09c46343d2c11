//! Game rules of a top-down tank battle: animation stepping, collision
//! outcomes, lives, spawning and level progression, stated and proved.
use vstd::prelude::*;

pub mod bullet;
pub mod common;
pub mod config;
pub mod enemy;
pub mod level;
pub mod player;

verus! {

} // verus!
