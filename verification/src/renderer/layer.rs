//! Layers: instances that are drawn together at one depth.

use vstd::prelude::*;

verus! {

/// The instances of one depth; a higher `zindex` is drawn later.
pub struct Layer<I> {
    pub instances: Vec<I>,
    pub zindex: u32,
}

} // verus!
