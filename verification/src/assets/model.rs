//! Models: the raw buffers of a scene file.

use vstd::prelude::*;
use crate::layout::LayoutTag;

verus! {

/// The buffers of one model, as they were read.
pub struct NvModel {
    pub buffers: Vec<Vec<u8>>,
}

/// The models of one bundle, with the layout their resource sets share.
pub struct NvModelPool {
    pub textures: Vec<NvModel>,
    pub layout: LayoutTag,
}

} // verus!
