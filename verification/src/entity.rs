//! What a scene is made of.

use vstd::prelude::*;

pub mod world;

verus! {

/// One thing in the world.
pub struct Entity {
    pub id: u64,
    pub name: String,
}

} // verus!
