//! The overlay sub-renderer: an immediate-mode interface drawn over the
//! frame. What the interface shows is built by the caller, frame by frame;
//! kept here is what outlives a frame.

use vstd::prelude::*;
use crate::renderer::text::PhysicalSize;
use crate::units::{ScaleFactor, logical_length, physical_length};

verus! {

/// The shapes the mouse cursor can take over the interface.
#[derive(Clone, Copy, Debug, PartialEq, Eq, Structural)]
pub enum MouseCursor {
    Arrow,
    TextInput,
    ResizeAll,
    ResizeNS,
    ResizeEW,
    ResizeNESW,
    ResizeNWSE,
    Hand,
    NotAllowed,
}

/// Why the overlay could not be created.
#[derive(Debug)]
pub enum ImguiError {
    /// The overlay takes its scale from the text renderer, which is missing.
    TextRendererNotInitialized,
}

/// The font size of the interface at scale one, in logical units.
pub const BASE_FONT_SIZE: u64 = 13_000;

/// What building one frame of the interface left behind.
#[derive(Clone, Copy, Debug, PartialEq, Eq, Structural)]
pub struct UiFrame {
    /// The cursor the interface asks for; `None` hides it.
    pub cursor: Option<MouseCursor>,
    /// Whether the metrics window is still open.
    pub demo_open: bool,
}

/// The state of the overlay between frames.
pub struct ImguiRenderer {
    font_size: u64,
    font_global_scale: u64,
    display_size: (u64, u64),
    demo_open: bool,
    last_cursor: Option<MouseCursor>,
}

/// The size of the interface's font on a display of `scale`, in physical
/// units: thirteen pixels, scaled.
pub open spec fn overlay_font_size(scale: int) -> int {
    physical_length(13_000, scale)
}

/// The factor that brings the scaled font back to logical size, in
/// thousandths: one over the scale.
pub open spec fn overlay_font_scale(scale: int) -> int {
    1_000_000int / scale
}

/// The logical size of a viewport, in logical units, width first.
pub open spec fn logical_size(size: PhysicalSize, scale: int) -> (int, int) {
    (logical_length(size.width as int, scale), logical_length(size.height as int, scale))
}

impl ImguiRenderer {
    /// The font size, in physical units.
    pub closed spec fn font_size(&self) -> int {
        self.font_size as int
    }

    /// The global font scale, in thousandths.
    pub closed spec fn font_global_scale(&self) -> int {
        self.font_global_scale as int
    }

    /// The logical size of the display, in logical units, width first.
    pub closed spec fn display_size(&self) -> (int, int) {
        (self.display_size.0 as int, self.display_size.1 as int)
    }

    /// Whether the metrics window is open.
    pub closed spec fn demo_open(&self) -> bool {
        self.demo_open
    }

    /// The cursor that the platform was last told of.
    pub closed spec fn last_cursor(&self) -> Option<MouseCursor> {
        self.last_cursor
    }

    /// The overlay is as it is created for a display of `scale` and a
    /// viewport of `size`: fonts sized for the scale, the logical display
    /// size, the metrics window open, no cursor told yet.
    pub open spec fn created_for(&self, scale: ScaleFactor, size: PhysicalSize) -> bool {
        &&& self.font_size() == overlay_font_size(scale.value())
        &&& self.font_global_scale() == overlay_font_scale(scale.value())
        &&& self.display_size() == logical_size(size, scale.value())
        &&& self.demo_open()
        &&& self.last_cursor() == None::<MouseCursor>
    }

    /// The overlay for a display of `scale` and a viewport of `size`: fonts
    /// sized for the scale, the metrics window open, no cursor told yet.
    pub fn new(scale: ScaleFactor, size: PhysicalSize) -> (overlay: ImguiRenderer)
        requires
            scale.wf(),
        ensures
            overlay.created_for(scale, size),
    {
        let font_size: u64 = scale.to_physical(BASE_FONT_SIZE as u128);
        assert(13_000 * scale.value() / 1000 <= u64::MAX);
        ImguiRenderer {
            font_size,
            font_global_scale: 1_000_000 / (scale.per_mille() as u64),
            display_size: (scale.to_logical(size.width), scale.to_logical(size.height)),
            demo_open: true,
            last_cursor: None,
        }
    }

    /// Takes a new viewport and scale: the logical display size follows.
    pub fn resize(&mut self, size: PhysicalSize, scale: ScaleFactor)
        requires
            scale.wf(),
        ensures
            final(self).display_size() == logical_size(size, scale.value()),
            final(self).font_size() == old(self).font_size(),
            final(self).font_global_scale() == old(self).font_global_scale(),
            final(self).demo_open() == old(self).demo_open(),
            final(self).last_cursor() == old(self).last_cursor(),
    {
        self.display_size = (scale.to_logical(size.width), scale.to_logical(size.height));
    }

    /// Takes what building a frame left behind. Returns whether the cursor
    /// differs from the one the platform was last told of: only then is the
    /// platform told again.
    pub fn track(&mut self, frame: UiFrame) -> (cursor_changed: bool)
        ensures
            cursor_changed == (old(self).last_cursor() != frame.cursor),
            final(self).last_cursor() == frame.cursor,
            final(self).demo_open() == frame.demo_open,
            final(self).font_size() == old(self).font_size(),
            final(self).font_global_scale() == old(self).font_global_scale(),
            final(self).display_size() == old(self).display_size(),
    {
        let cursor_changed = !same_cursor(self.last_cursor, frame.cursor);
        self.last_cursor = frame.cursor;
        self.demo_open = frame.demo_open;
        cursor_changed
    }

    /// The font size, in physical units.
    pub fn get_font_size(&self) -> (size: u64)
        ensures
            size == self.font_size(),
    {
        self.font_size
    }

    /// The global font scale, in thousandths.
    pub fn get_font_global_scale(&self) -> (scale: u64)
        ensures
            scale == self.font_global_scale(),
    {
        self.font_global_scale
    }

    /// The logical size of the display, in logical units, width first.
    pub fn get_display_size(&self) -> (size: (u64, u64))
        ensures
            (size.0 as int, size.1 as int) == self.display_size(),
    {
        self.display_size
    }

    /// Whether the metrics window is open.
    pub fn is_demo_open(&self) -> (open: bool)
        ensures
            open == self.demo_open(),
    {
        self.demo_open
    }

    /// The cursor that the platform was last told of.
    pub fn get_last_cursor(&self) -> (cursor: Option<MouseCursor>)
        ensures
            cursor == self.last_cursor(),
    {
        self.last_cursor
    }
}

/// Whether two cursors are the same.
pub fn same_cursor(a: Option<MouseCursor>, b: Option<MouseCursor>) -> (same: bool)
    ensures
        same == (a == b),
{
    match (a, b) {
        (None, None) => true,
        (Some(x), Some(y)) => x == y,
        _ => false,
    }
}

} // verus!
