//! The text sub-renderer: text blocks keyed by an identifier, wrapped to the
//! viewport and stacked from the top in the order in which they were added.
//!
//! Shaping is the caller's: it shapes a block to the block's width limit and
//! reports the widths of the lines that came out.

use vstd::prelude::*;
use crate::units::{
    ScaleFactor, clip, clip_i32, clip_to_i32, logical_length, physical_length, pixels_i32,
    whole_pixels,
};

verus! {

/// Logical units kept free at the right of the viewport when wrapping.
pub const WRAP_MARGIN: u64 = 20_000;

/// Logical units between the viewport's edge and the first block, at the left
/// and at the top.
pub const INSET: u64 = 10_000;

/// Logical units between one block and the next.
pub const BLOCK_GAP: u64 = 5_000;

/// Physical pixels between the bounds' right edge and the viewport's.
pub const BOUNDS_MARGIN: u32 = 10;

/// A size in physical pixels.
#[derive(Clone, Copy, Debug, PartialEq, Eq, Structural)]
pub struct PhysicalSize {
    pub width: u32,
    pub height: u32,
}

/// The width that text is wrapped to, in logical units: the logical width of
/// the viewport less the margin. Negative where the viewport is narrower than
/// the margin; no line fits then.
pub open spec fn wrap_width(width: int, scale: int) -> int {
    logical_length(width, scale) - 20_000
}

/// Every line is at most `limit` wide.
pub open spec fn all_fit(lines: Seq<u64>, limit: int) -> bool {
    forall|i: int| 0 <= i < lines.len() ==> lines[i] <= limit
}

/// A text block as the contracts see it.
pub struct TextBlock {
    /// The text.
    pub content: Seq<char>,
    /// The font size, in logical units.
    pub font_size: int,
    /// The height of a line, in logical units.
    pub line_height: int,
    /// The width the block is wrapped to, in logical units.
    pub width_limit: int,
    /// The width of each shaped line, in logical units; empty until the block
    /// is shaped.
    pub lines: Seq<u64>,
}

impl TextBlock {
    /// The same block, not shaped, with another width limit.
    pub open spec fn rewrapped(self, width_limit: int) -> TextBlock {
        TextBlock { width_limit, lines: Seq::empty(), ..self }
    }

    /// The same block with the lines of a shaping.
    pub open spec fn shaped(self, lines: Seq<u64>) -> TextBlock {
        TextBlock { lines, ..self }
    }

    /// No shaped line is wider than the limit.
    pub open spec fn wf(self) -> bool {
        all_fit(self.lines, self.width_limit)
    }
}

/// The height of a line, in logical units, for a font size in logical units
/// and a line height relative to it, in thousandths.
pub open spec fn line_height_of(font_size: int, relative: int) -> int {
    font_size * relative / 1000
}

/// A block of text with its metrics and the outcome of its last shaping.
pub struct TextBuffer {
    content: String,
    font_size: u32,
    line_height: u64,
    width_limit: i64,
    line_widths: Vec<u64>,
}

impl View for TextBuffer {
    type V = TextBlock;

    closed spec fn view(&self) -> TextBlock {
        TextBlock {
            content: self.content@,
            font_size: self.font_size as int,
            line_height: self.line_height as int,
            width_limit: self.width_limit as int,
            lines: self.line_widths@,
        }
    }
}

impl TextBuffer {
    /// No shaped line is wider than the limit, and the limit is in range.
    pub open spec fn wf(&self) -> bool {
        self@.wf()
    }

    /// An unshaped block.
    pub fn new(
        content: &str,
        font_size: u32,
        relative_line_height: u32,
        width_limit: i64,
    ) -> (buffer: TextBuffer)
        ensures
            buffer@ == (TextBlock {
                content: content@,
                font_size: font_size as int,
                line_height: line_height_of(font_size as int, relative_line_height as int),
                width_limit: width_limit as int,
                lines: Seq::empty(),
            }),
            buffer.wf(),
    {
        assert(font_size * relative_line_height <= 0xffff_ffff * 0xffff_ffff) by (nonlinear_arith)
            requires
                font_size <= 0xffff_ffff,
                relative_line_height <= 0xffff_ffff,
        ;
        let product: u64 = (font_size as u64) * (relative_line_height as u64);
        TextBuffer {
            content: content.to_owned(),
            font_size,
            line_height: product / 1000,
            width_limit,
            line_widths: Vec::new(),
        }
    }

    /// The text.
    pub fn content(&self) -> (content: &str)
        ensures
            content@ == self@.content,
    {
        self.content.as_str()
    }

    /// The font size, in logical units.
    pub fn font_size(&self) -> (size: u32)
        ensures
            size == self@.font_size,
    {
        self.font_size
    }

    /// The height of a line, in logical units.
    pub fn line_height(&self) -> (height: u64)
        ensures
            height == self@.line_height,
    {
        self.line_height
    }

    /// The width the block is wrapped to, in logical units.
    pub fn width_limit(&self) -> (limit: i64)
        ensures
            limit == self@.width_limit,
    {
        self.width_limit
    }

    /// The number of shaped lines; zero until the block is shaped.
    pub fn line_count(&self) -> (count: usize)
        ensures
            count == self@.lines.len(),
    {
        self.line_widths.len()
    }

    /// The width of the shaped line `index`, in logical units.
    pub fn line_width(&self, index: usize) -> (width: Option<u64>)
        ensures
            index < self@.lines.len() ==> width == Some(self@.lines[index as int]),
            index >= self@.lines.len() ==> width is None,
    {
        if index < self.line_widths.len() {
            Some(self.line_widths[index])
        } else {
            None
        }
    }

    /// Sets another width limit. The shaping is dropped with the old limit:
    /// the block has no lines until it is shaped again.
    pub fn set_size(&mut self, width_limit: i64)
        ensures
            final(self)@ == old(self)@.rewrapped(width_limit as int),
            final(self).wf(),
    {
        self.width_limit = width_limit;
        self.line_widths = Vec::new();
    }

    /// Takes the line widths of a shaping if every line fits the limit;
    /// otherwise the block stays as it was.
    pub fn set_lines(&mut self, widths: Vec<u64>) -> (accepted: bool)
        requires
            old(self).wf(),
        ensures
            accepted == all_fit(widths@, old(self)@.width_limit),
            accepted ==> final(self)@ == old(self)@.shaped(widths@),
            !accepted ==> final(self)@ == old(self)@,
            final(self).wf(),
    {
        if !lines_fit(&widths, self.width_limit) {
            return false;
        }
        self.line_widths = widths;
        true
    }
}

/// Whether every line is at most `limit` wide.
pub fn lines_fit(widths: &Vec<u64>, limit: i64) -> (fit: bool)
    ensures
        fit == all_fit(widths@, limit as int),
{
    let mut i: usize = 0;
    while i < widths.len()
        invariant
            i <= widths@.len(),
            forall|j: int| 0 <= j < i ==> widths@[j] <= limit,
        decreases widths@.len() - i,
    {
        if limit < 0 || widths[i] > limit as u64 {
            assert(widths@[i as int] > limit);
            return false;
        }
        i += 1;
    }
    true
}

/// A buffer under its identifier.
pub struct TextEntry {
    id: String,
    buffer: TextBuffer,
}

/// The rectangle, in physical pixels, outside which a block is not drawn.
#[derive(Clone, Copy, Debug, PartialEq, Eq, Structural)]
pub struct TextBounds {
    pub left: i32,
    pub top: i32,
    pub right: i32,
    pub bottom: i32,
}

/// Where one block is drawn.
#[derive(Clone, Copy, Debug, PartialEq, Eq, Structural)]
pub struct TextArea {
    /// The index of the block.
    pub buffer: usize,
    /// The left edge, in physical units.
    pub left: u64,
    /// The top edge, in physical units.
    pub top: u64,
    /// The scale the block is drawn at.
    pub scale: ScaleFactor,
    /// The clip rectangle.
    pub bounds: TextBounds,
}

/// Why a shaping was not taken.
#[derive(Clone, Copy, Debug, PartialEq, Eq, Structural)]
pub enum TextError {
    /// No block has the identifier.
    UnknownId,
    /// A line is wider than the block's width limit.
    LineTooWide,
    /// There is no text renderer.
    NoTextRenderer,
    /// A frame is in flight; text changes between frames only.
    FrameInFlight,
}

/// The height that a block takes in the stack, in physical units: its lines
/// and the gap below them, scaled.
pub open spec fn block_advance(block: TextBlock, scale: int) -> int {
    physical_length(block.lines.len() * block.line_height + 5_000, scale)
}

/// The top edge of block `index`, in physical units: the inset, and below it
/// the blocks before this one.
pub open spec fn stack_top(blocks: Seq<TextBlock>, scale: int, index: int) -> int
    decreases index,
{
    if index <= 0 {
        physical_length(10_000, scale)
    } else {
        stack_top(blocks, scale, index - 1) + block_advance(blocks[index - 1], scale)
    }
}

/// Where block `index` is drawn in a viewport of `size` at `scale`. Lengths
/// beyond the largest one and pixel counts beyond `i32` are cut.
pub open spec fn area_of(
    blocks: Seq<TextBlock>,
    size: PhysicalSize,
    scale: ScaleFactor,
    index: int,
) -> TextArea {
    let left = clip(physical_length(10_000, scale.value()));
    let top = clip(stack_top(blocks, scale.value(), index));
    let bounds_top = clip_i32(whole_pixels(top));
    TextArea {
        buffer: index as usize,
        left: left as u64,
        top: top as u64,
        scale,
        bounds: TextBounds {
            left: clip_i32(whole_pixels(left)) as i32,
            top: bounds_top as i32,
            right: clip_i32(size.width - 10) as i32,
            bottom: clip_i32(bounds_top + size.height) as i32,
        },
    }
}

/// The block that `insert` stores: unshaped and wrapped to `width_limit`.
pub open spec fn new_block(
    content: Seq<char>,
    font_size: int,
    relative_line_height: int,
    width_limit: int,
) -> TextBlock {
    TextBlock {
        content,
        font_size,
        line_height: line_height_of(font_size, relative_line_height),
        width_limit,
        lines: Seq::empty(),
    }
}

/// The identifiers after a block was stored under `id`.
pub open spec fn ids_after_insert(ids: Seq<Seq<char>>, id: Seq<char>) -> Seq<Seq<char>> {
    if ids.contains(id) {
        ids
    } else {
        ids.push(id)
    }
}

/// The blocks after `block` was stored under `id`: in the place of the block
/// that had the identifier, or last.
pub open spec fn blocks_after_insert(
    ids: Seq<Seq<char>>,
    blocks: Seq<TextBlock>,
    id: Seq<char>,
    block: TextBlock,
) -> Seq<TextBlock> {
    if ids.contains(id) {
        blocks.update(ids.index_of(id), block)
    } else {
        blocks.push(block)
    }
}

/// The text sub-renderer.
pub struct TextRenderer {
    physical_size: PhysicalSize,
    scale_factor: ScaleFactor,
    buffers: Vec<TextEntry>,
}

impl TextRenderer {
    /// The viewport, in physical pixels.
    pub closed spec fn size(&self) -> PhysicalSize {
        self.physical_size
    }

    /// The display scale.
    pub closed spec fn scale(&self) -> ScaleFactor {
        self.scale_factor
    }

    /// The identifiers, in the order in which the blocks were added.
    pub closed spec fn ids(&self) -> Seq<Seq<char>> {
        Seq::new(self.buffers@.len(), |i: int| self.buffers@[i].id@)
    }

    /// The blocks, in the order in which they were added.
    pub closed spec fn blocks(&self) -> Seq<TextBlock> {
        Seq::new(self.buffers@.len(), |i: int| self.buffers@[i].buffer@)
    }

    /// The width every block is wrapped to.
    pub open spec fn limit(&self) -> int {
        wrap_width(self.size().width as int, self.scale().value())
    }

    /// Every block is wrapped to the viewport, no shaped line is wider than
    /// that, and no identifier occurs twice.
    pub open spec fn wf(&self) -> bool {
        &&& self.scale().wf()
        &&& self.ids().len() == self.blocks().len()
        &&& forall|i: int|
            0 <= i < self.blocks().len() ==> (#[trigger] self.blocks()[i]).wf()
                && self.blocks()[i].width_limit == self.limit()
        &&& forall|i: int, j: int|
            0 <= i < j < self.ids().len() ==> self.ids()[i] != self.ids()[j]
    }

    /// A text renderer without blocks.
    pub fn new(scale_factor: ScaleFactor, physical_size: PhysicalSize) -> (renderer: TextRenderer)
        requires
            scale_factor.wf(),
        ensures
            renderer.scale() == scale_factor,
            renderer.size() == physical_size,
            renderer.blocks().len() == 0,
            renderer.ids().len() == 0,
            renderer.wf(),
    {
        TextRenderer { physical_size, scale_factor, buffers: Vec::new() }
    }

    /// The viewport, in physical pixels.
    pub fn physical_size(&self) -> (size: PhysicalSize)
        ensures
            size == self.size(),
    {
        self.physical_size
    }

    /// The display scale.
    pub fn scale_factor(&self) -> (scale: ScaleFactor)
        ensures
            scale == self.scale(),
    {
        self.scale_factor
    }

    /// The number of blocks.
    pub fn count(&self) -> (count: usize)
        ensures
            count == self.blocks().len(),
            count == self.ids().len(),
    {
        self.buffers.len()
    }

    /// The width every block is wrapped to, in logical units.
    pub fn width_limit(&self) -> (limit: i64)
        requires
            self.scale().wf(),
        ensures
            limit == self.limit(),
    {
        let logical: u64 = self.scale_factor.to_logical(self.physical_size.width);
        (logical as i64) - (WRAP_MARGIN as i64)
    }

    /// The block at `index`.
    pub fn buffer(&self, index: usize) -> (buffer: Option<&TextBuffer>)
        ensures
            index < self.blocks().len() ==> (buffer matches Some(b) && b@ == self.blocks()[
                index as int
            ]),
            index >= self.blocks().len() ==> buffer is None,
    {
        if index < self.buffers.len() {
            Some(&self.buffers[index].buffer)
        } else {
            None
        }
    }

    /// The identifier of the block at `index`.
    pub fn id(&self, index: usize) -> (id: Option<&str>)
        ensures
            index < self.ids().len() ==> (id matches Some(s) && s@ == self.ids()[index as int]),
            index >= self.ids().len() ==> id is None,
    {
        if index < self.buffers.len() {
            Some(self.buffers[index].id.as_str())
        } else {
            None
        }
    }

    /// The index of the block with identifier `id`.
    pub fn position(&self, id: &str) -> (index: Option<usize>)
        ensures
            match index {
                Some(i) => i < self.ids().len() && self.ids()[i as int] == id@ && forall|j: int|
                    0 <= j < i ==> self.ids()[j] != id@,
                None => !self.ids().contains(id@),
            },
    {
        let mut i: usize = 0;
        while i < self.buffers.len()
            invariant
                i <= self.buffers@.len(),
                self.ids().len() == self.buffers@.len(),
                forall|j: int| 0 <= j < i ==> self.ids()[j] != id@,
            decreases self.buffers@.len() - i,
        {
            if str_eq(self.buffers[i].id.as_str(), id) {
                return Some(i);
            }
            i += 1;
        }
        None
    }

    /// Stores a block under `id`, wrapped to the viewport and not yet shaped,
    /// and returns its index. A new identifier puts the block last; one that
    /// is taken replaces the block that has it, in its place.
    pub fn insert(
        &mut self,
        id: String,
        content: &str,
        font_size: u32,
        relative_line_height: u32,
    ) -> (index: usize)
        requires
            old(self).wf(),
        ensures
            final(self).wf(),
            final(self).size() == old(self).size(),
            final(self).scale() == old(self).scale(),
            index <= old(self).ids().len(),
            index < old(self).ids().len() <==> old(self).ids().contains(id@),
            index < old(self).ids().len() ==> old(self).ids()[index as int] == id@,
            final(self).ids() == ids_after_insert(old(self).ids(), id@),
            final(self).blocks() == blocks_after_insert(
                old(self).ids(),
                old(self).blocks(),
                id@,
                new_block(
                    content@,
                    font_size as int,
                    relative_line_height as int,
                    old(self).limit(),
                ),
            ),
            final(self).ids()[index as int] == id@,
    {
        let limit: i64 = self.width_limit();
        let buffer = TextBuffer::new(content, font_size, relative_line_height, limit);
        let found = self.position(id.as_str());
        match found {
            Some(index) => {
                let ghost before = self.buffers@;
                self.buffers[index].buffer = buffer;
                assert(self.buffers@[index as int].id == before[index as int].id);
                assert(self.ids() =~= old(self).ids());
                assert(self.blocks() =~= old(self).blocks().update(index as int, buffer@));
                assert(old(self).ids().contains(id@));
                assert(old(self).ids().index_of(id@) == index) by {
                    let chosen = old(self).ids().index_of(id@);
                    assert(0 <= chosen < old(self).ids().len() && old(self).ids()[chosen] == id@);
                    if chosen < index {
                        assert(old(self).ids()[chosen] != old(self).ids()[index as int]);
                    } else if chosen > index {
                        assert(old(self).ids()[index as int] != old(self).ids()[chosen]);
                    }
                }
                index
            },
            None => {
                let index: usize = self.buffers.len();
                let ghost id_view = id@;
                self.buffers.push(TextEntry { id, buffer });
                assert(self.ids() =~= old(self).ids().push(id_view));
                assert(self.blocks() =~= old(self).blocks().push(buffer@));
                assert(!old(self).ids().contains(id_view));
                assert forall|i: int, j: int| 0 <= i < j < self.ids().len() implies self.ids()[i]
                    != self.ids()[j] by {
                    if j == index {
                        assert(old(self).ids()[i] == self.ids()[i]);
                    } else {
                        assert(old(self).ids()[i] == self.ids()[i]);
                        assert(old(self).ids()[j] == self.ids()[j]);
                    }
                }
                index
            },
        }
    }

    /// Takes a new viewport and scale, and wraps every block to the new
    /// width. No shaping outlives this: every block has to be shaped again.
    pub fn resize(&mut self, physical_size: PhysicalSize, scale_factor: ScaleFactor)
        requires
            old(self).wf(),
            scale_factor.wf(),
        ensures
            final(self).wf(),
            final(self).size() == physical_size,
            final(self).scale() == scale_factor,
            final(self).ids() == old(self).ids(),
            final(self).blocks().len() == old(self).blocks().len(),
            forall|i: int|
                0 <= i < old(self).blocks().len() ==> #[trigger] final(self).blocks()[i]
                    == old(self).blocks()[i].rewrapped(
                    wrap_width(physical_size.width as int, scale_factor.value()),
                ),
    {
        self.physical_size = physical_size;
        self.scale_factor = scale_factor;
        let limit: i64 = self.width_limit();
        let mut i: usize = 0;
        while i < self.buffers.len()
            invariant
                i <= self.buffers@.len(),
                self.buffers@.len() == old(self).buffers@.len(),
                self.physical_size == physical_size,
                self.scale_factor == scale_factor,
                limit == wrap_width(physical_size.width as int, scale_factor.value()),
                forall|j: int|
                    0 <= j < self.buffers@.len() ==> (#[trigger] self.buffers@[j]).id
                        == old(self).buffers@[j].id,
                forall|j: int|
                    i <= j < self.buffers@.len() ==> (#[trigger] self.buffers@[j]).buffer
                        == old(self).buffers@[j].buffer,
                forall|j: int|
                    0 <= j < i ==> (#[trigger] self.buffers@[j]).buffer@
                        == old(self).buffers@[j].buffer@.rewrapped(limit as int),
            decreases self.buffers@.len() - i,
        {
            self.buffers[i].buffer.set_size(limit);
            i += 1;
        }
        assert(self.ids() =~= old(self).ids());
    }

    /// Takes the outcome of shaping the block `id`: the width of each line,
    /// in logical units. It is taken only if no line is wider than the block's
    /// width limit. Returns the index of the block.
    pub fn record_shaping(&mut self, id: &str, widths: Vec<u64>) -> (shaped: Result<
        usize,
        TextError,
    >)
        requires
            old(self).wf(),
        ensures
            final(self).wf(),
            final(self).size() == old(self).size(),
            final(self).scale() == old(self).scale(),
            final(self).ids() == old(self).ids(),
            match shaped {
                Ok(index) => {
                    &&& index < old(self).ids().len()
                    &&& old(self).ids()[index as int] == id@
                    &&& all_fit(widths@, old(self).limit())
                    &&& final(self).blocks() == old(self).blocks().update(
                        index as int,
                        old(self).blocks()[index as int].shaped(widths@),
                    )
                },
                Err(TextError::UnknownId) => !old(self).ids().contains(id@) && final(self).blocks()
                    == old(self).blocks(),
                Err(TextError::LineTooWide) => old(self).ids().contains(id@) && !all_fit(
                    widths@,
                    old(self).limit(),
                ) && final(self).blocks() == old(self).blocks(),
                Err(_) => false,
            },
            shaped is Err ==> *final(self) == *old(self),
    {
        let index = match self.position(id) {
            Some(index) => index,
            None => {
                return Err(TextError::UnknownId);
            },
        };
        assert(self.blocks()[index as int].wf());
        if !lines_fit(&widths, self.buffers[index].buffer.width_limit()) {
            return Err(TextError::LineTooWide);
        }
        let ghost before = self.buffers@;
        let _ = self.buffers[index].buffer.set_lines(widths);
        assert(self.buffers@[index as int].id == before[index as int].id);
        assert(self.ids() =~= old(self).ids());
        assert(self.blocks() =~= old(self).blocks().update(
            index as int,
            old(self).blocks()[index as int].shaped(widths@),
        ));
        Ok(index)
    }

    /// Lays the blocks out: one below the other in the order in which they
    /// were added, each as high as its lines and a gap.
    pub fn layout(&self) -> (areas: Vec<TextArea>)
        requires
            self.wf(),
        ensures
            areas@.len() == self.blocks().len(),
            forall|i: int|
                0 <= i < areas@.len() ==> #[trigger] areas@[i] == area_of(
                    self.blocks(),
                    self.size(),
                    self.scale(),
                    i,
                ),
    {
        let scale = self.scale_factor;
        let size = self.physical_size;
        let left: u64 = scale.to_physical(INSET as u128);
        let bounds_left: i32 = pixels_i32(left);
        let bounds_right: i32 = clip_to_i32((size.width as i64) - (BOUNDS_MARGIN as i64));
        let mut top: u64 = left;
        let mut areas: Vec<TextArea> = Vec::new();
        let mut i: usize = 0;
        proof {
            lemma_physical_length_nonnegative(10_000, scale.value());
        }
        while i < self.buffers.len()
            invariant
                i <= self.buffers@.len(),
                self.wf(),
                scale == self.scale(),
                size == self.size(),
                self.blocks().len() == self.buffers@.len(),
                left == clip(physical_length(10_000, scale.value())),
                bounds_left == clip_i32(whole_pixels(left as int)),
                bounds_right == clip_i32(size.width - 10),
                stack_top(self.blocks(), scale.value(), i as int) >= 0,
                top == clip(stack_top(self.blocks(), scale.value(), i as int)),
                areas@.len() == i,
                forall|j: int|
                    0 <= j < i ==> #[trigger] areas@[j] == area_of(self.blocks(), size, scale, j),
            decreases self.buffers@.len() - i,
        {
            let bounds_top: i32 = pixels_i32(top);
            areas.push(
                TextArea {
                    buffer: i,
                    left,
                    top,
                    scale,
                    bounds: TextBounds {
                        left: bounds_left,
                        top: bounds_top,
                        right: bounds_right,
                        bottom: clip_to_i32((bounds_top as i64) + (size.height as i64)),
                    },
                },
            );
            let buffer = &self.buffers[i].buffer;
            let lines: usize = buffer.line_count();
            let line_height: u64 = buffer.line_height();
            assert(lines * line_height <= 340282366920938463426481119284349108225) by (nonlinear_arith)
                requires
                    0 <= lines <= 18446744073709551615,
                    0 <= line_height <= 18446744073709551615,
            ;
            let extent: u128 = (lines as u128) * (line_height as u128) + (BLOCK_GAP as u128);
            let advance: u64 = scale.to_physical(extent);
            proof {
                let block = self.blocks()[i as int];
                assert(block == buffer@);
                assert(extent == block.lines.len() * block.line_height + 5_000);
                lemma_physical_length_nonnegative(extent as int, scale.value());
                assert(advance == clip(block_advance(block, scale.value())));
            }
            top = top.saturating_add(advance);
            i += 1;
        }
        areas
    }
}

/// No shaped line of any block is wider than the logical width of the
/// viewport less the margin.
pub proof fn lemma_lines_within_viewport(text: TextRenderer, block: int, line: int)
    requires
        text.wf(),
        0 <= block < text.blocks().len(),
        0 <= line < text.blocks()[block].lines.len(),
    ensures
        text.blocks()[block].lines[line] <= wrap_width(
            text.size().width as int,
            text.scale().value(),
        ),
{
    assert(text.blocks()[block].wf());
}

/// A length that is not negative stays so under a scale.
pub proof fn lemma_physical_length_nonnegative(logical: int, scale: int)
    requires
        logical >= 0,
        scale >= 0,
    ensures
        physical_length(logical, scale) >= 0,
{
    assert(logical * scale >= 0) by (nonlinear_arith)
        requires
            logical >= 0,
            scale >= 0,
    ;
}

/// Whether two strings hold the same characters.
fn str_eq(a: &str, b: &str) -> (same: bool)
    ensures
        same == (a@ == b@),
{
    a.to_owned() == b.to_owned()
}

} // verus!
