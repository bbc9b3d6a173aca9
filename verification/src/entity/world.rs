//! The world: its entities and the camera that looks at them.

use vstd::prelude::*;
use crate::entity::Entity;

verus! {

/// The point of view. It has no settings yet.
pub struct Camera {}

/// Everything there is to draw.
pub struct World {
    pub entities: Vec<Entity>,
    pub camera: Camera,
}

} // verus!
