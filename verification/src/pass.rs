//! The passes of a frame, as they are recorded.
//!
//! A frame has at most three passes, always in the same order: the image
//! pass, which clears the target, then the text pass and the overlay pass,
//! which draw over what is there.

use vstd::prelude::*;
use crate::frame::QueueOp;
use crate::renderer::pipeline::PipelineType;
use crate::renderer::text::TextArea;

verus! {

/// The passes there are.
#[derive(Clone, Copy, Debug, PartialEq, Eq, Structural)]
pub enum PassKind {
    Image,
    Text,
    Overlay,
}

impl PassKind {
    /// The place of the pass in a frame.
    pub open spec fn rank(&self) -> int {
        match self {
            PassKind::Image => 0,
            PassKind::Text => 1,
            PassKind::Overlay => 2,
        }
    }
}

/// A color, each channel in thousandths.
#[derive(Clone, Copy, Debug, PartialEq, Eq, Structural)]
pub struct Color {
    pub r: u16,
    pub g: u16,
    pub b: u16,
    pub a: u16,
}

/// What a pass does to the target before it draws.
#[derive(Clone, Copy, Debug, PartialEq, Eq, Structural)]
pub enum LoadOp {
    /// Fill it with a color.
    Clear(Color),
    /// Keep what earlier passes drew.
    Load,
}

/// What a pass draws.
#[derive(Clone, Copy, Debug, PartialEq, Eq, Structural)]
pub enum DrawCall {
    /// The unit quad, with `indices` indices, textured with entry `texture`
    /// of pool `pool` through the pipeline of kind `pipeline`.
    Quad { pipeline: PipelineType, pool: usize, texture: usize, indices: u32 },
    /// The first `areas` text areas of the frame.
    Text { areas: usize },
    /// The interface; `cursor_changed` tells whether the platform is told
    /// the cursor first.
    Interface { cursor_changed: bool },
}

/// One recorded pass.
#[derive(Clone, Copy, Debug, PartialEq, Eq, Structural)]
pub struct PassRecord {
    pub kind: PassKind,
    pub load: LoadOp,
    pub draw: DrawCall,
}

/// Opaque black, the color the image pass clears to.
pub open spec fn black() -> Color {
    Color { r: 0, g: 0, b: 0, a: 1000 }
}

/// The image pass that draws entry `texture` of pool `pool`.
pub open spec fn image_pass(pool: usize, texture: usize) -> PassRecord {
    PassRecord {
        kind: PassKind::Image,
        load: LoadOp::Clear(black()),
        draw: DrawCall::Quad { pipeline: PipelineType::Basic2D, pool, texture, indices: 6 },
    }
}

/// The text pass over `areas` text areas.
pub open spec fn text_pass(areas: usize) -> PassRecord {
    PassRecord { kind: PassKind::Text, load: LoadOp::Load, draw: DrawCall::Text { areas } }
}

/// The overlay pass.
pub open spec fn overlay_pass(cursor_changed: bool) -> PassRecord {
    PassRecord {
        kind: PassKind::Overlay,
        load: LoadOp::Load,
        draw: DrawCall::Interface { cursor_changed },
    }
}

/// Every pass comes strictly after the passes of lower rank: the image pass
/// before the text pass, the text pass before the overlay pass, and none
/// twice.
pub open spec fn in_pass_order(passes: Seq<PassRecord>) -> bool {
    forall|i: int, j: int|
        0 <= i < j < passes.len() ==> (#[trigger] passes[i]).kind.rank() < (
        #[trigger] passes[j]).kind.rank()
}

/// Only the image pass clears: every other pass, and every pass that is not
/// the first, keeps what was drawn before it.
pub open spec fn later_passes_load(passes: Seq<PassRecord>) -> bool {
    forall|i: int|
        0 <= i < passes.len() ==> ((#[trigger] passes[i]).kind != PassKind::Image || i > 0
            ==> passes[i].load == LoadOp::Load)
}

/// The index into the pool that the frame draws, where it has an image pass.
pub open spec fn drawn_texture(passes: Seq<PassRecord>) -> Option<usize> {
    if passes.len() > 0 {
        match passes[0].draw {
            DrawCall::Quad { texture, .. } => Some(texture),
            _ => None,
        }
    } else {
        None
    }
}

/// The passes of one frame with the text areas that the text pass draws.
pub struct CommandStream {
    pub passes: Vec<PassRecord>,
    pub text_areas: Vec<TextArea>,
}

/// A finished frame: the target, what to record for it, and how to end it.
pub struct Submission<T> {
    /// The target that was acquired for the frame.
    pub target: T,
    /// The passes, in the order in which they are recorded.
    pub passes: Vec<PassRecord>,
    /// The text areas that the text pass draws.
    pub text_areas: Vec<TextArea>,
    /// What is done once the passes are recorded, in order.
    pub ops: Vec<QueueOp>,
}

} // verus!
