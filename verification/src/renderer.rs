//! The renderer: the surface configuration, the pools, the pipelines, the
//! sub-renderers and the frame cycle under one owner.
//!
//! Each frame is made of up to three passes in a fixed order: the image pass,
//! the text pass, the overlay pass. A pass whose resources are missing is left
//! out and the frame goes on.

use vstd::prelude::*;
use rand::Rng;
use crate::assets::NvTexturePool;
use crate::context::{GraphicsContext, SurfaceConfiguration, SurfaceError, TextureFormat};
use crate::frame::{
    AcquireStep, FrameAction, FrameContext, FrameCycle, FrameEvent, FrameState, end_ops, failure_of,
    step,
};
use crate::layout::{LayoutTag, ResourceLayoutRegistry};
use crate::pass::{
    Color, CommandStream, DrawCall, LoadOp, PassKind, PassRecord, Submission, drawn_texture,
    image_pass, in_pass_order, later_passes_load, overlay_pass, text_pass,
};
use crate::renderer::imgui::{ImguiError, ImguiRenderer, UiFrame, logical_size};
use crate::renderer::pipeline::{
    BuildError, PipelineDescriptor, PipelineEntry, PipelineRegistry, PipelineType,
    VertexBufferLayout, QUAD_INDEX_COUNT,
};
use crate::renderer::text::{
    PhysicalSize, TextArea, TextBlock, TextError, TextRenderer, all_fit, area_of,
    blocks_after_insert, ids_after_insert, new_block, wrap_width,
};
use crate::units::ScaleFactor;

pub mod imgui;
pub mod layer;
pub mod pipeline;
pub mod text;

verus! {

/// The pool that the image pass draws from: the first one.
pub const IMAGE_POOL: usize = 0;

/// What a fresh text identifier looks like: 36 characters, lower-case
/// hexadecimal digits in groups of 8, 4, 4, 4 and 12 with a hyphen between
/// them, the third group beginning with `4` and the fourth with `8`, `9`, `a`
/// or `b`.
pub open spec fn is_text_id(id: Seq<char>) -> bool {
    &&& id.len() == 36
    &&& forall|i: int|
        0 <= i < 36 ==> if i == 8 || i == 13 || i == 18 || i == 23 {
            #[trigger] id[i] == '-'
        } else {
            ('0' <= id[i] <= '9') || ('a' <= id[i] <= 'f')
        }
    &&& id[14] == '4'
    &&& (id[19] == '8' || id[19] == '9' || id[19] == 'a' || id[19] == 'b')
}

/// `uuid::Uuid::new_v4`, written out by the `Display` of `uuid::Uuid`: a
/// random version-4 identifier in hyphenated lower-case form. Nothing is
/// claimed about which identifier comes back, and nothing about two calls
/// giving different ones. The call panics where the operating system has no
/// random bytes to give.
#[verifier::external_body]
fn fresh_text_id() -> (id: String)
    ensures
        is_text_id(id@),
{
    uuid::Uuid::new_v4().to_string()
}

/// `rand::Rng::random_range` over `0..count`, on the generator that
/// `rand::rng` hands out: some index below `count`, and nothing about which.
/// The range must not be empty, on which the call would panic; it also
/// panics where the generator of the thread cannot be seeded.
#[verifier::external_body]
fn random_index(count: usize) -> (index: usize)
    requires
        count > 0,
    ensures
        index < count,
{
    rand::rng().random_range(0..count)
}

/// The renderer. `R` is what the device holds for one texture, `P` a compiled
/// pipeline, `L` a resource layout.
pub struct Renderer<R, P, L> {
    context: GraphicsContext,
    layouts: ResourceLayoutRegistry<L>,
    pipelines: PipelineRegistry<P>,
    loaded_pools: Vec<NvTexturePool<R>>,
    text_renderer: Option<TextRenderer>,
    imgui_renderer: Option<ImguiRenderer>,
    frame: FrameCycle,
}

impl<R, P, L> Renderer<R, P, L> {
    /// The surface configuration in force.
    pub closed spec fn context(&self) -> GraphicsContext {
        self.context
    }

    /// The shared layouts.
    pub closed spec fn layouts(&self) -> ResourceLayoutRegistry<L> {
        self.layouts
    }

    /// The pipelines.
    pub closed spec fn pipelines(&self) -> PipelineRegistry<P> {
        self.pipelines
    }

    /// The pools, in the order in which they were inserted.
    pub closed spec fn pools(&self) -> Seq<NvTexturePool<R>> {
        self.loaded_pools@
    }

    /// The text sub-renderer, once it is created.
    pub closed spec fn text(&self) -> Option<TextRenderer> {
        self.text_renderer
    }

    /// The overlay sub-renderer, once it is created.
    pub closed spec fn overlay(&self) -> Option<ImguiRenderer> {
        self.imgui_renderer
    }

    /// The frame cycle.
    pub closed spec fn cycle(&self) -> FrameCycle {
        self.frame
    }

    /// The surface can be drawn to, every pipeline was built against the
    /// surface's format, and the text renderer is well-formed.
    pub open spec fn wf(&self) -> bool {
        &&& self.context().wf()
        &&& self.pipelines().wf()
        &&& self.pipelines().built_for(self.context()@.format)
        &&& self.text() matches Some(t) ==> t.wf()
    }

    /// No frame is in flight: pools, pipelines and text may change.
    pub open spec fn at_rest(&self) -> bool {
        self.cycle().state().at_rest()
    }

    /// The image pass of a frame that picked entry `pick`, or nothing where
    /// the pipeline, the pool or the entry is missing.
    pub open spec fn image_part(&self, pick: int) -> Seq<PassRecord> {
        if self.pipelines().entry(PipelineType::Basic2D) is Some && self.pools().len() > 0 && 0
            <= pick < self.pools()[0].textures().len() {
            seq![image_pass(0, pick as usize)]
        } else {
            Seq::empty()
        }
    }

    /// The text pass, or nothing where there is no text renderer.
    pub open spec fn text_part(&self) -> Seq<PassRecord> {
        match self.text() {
            Some(t) => seq![text_pass(t.blocks().len() as usize)],
            None => Seq::empty(),
        }
    }

    /// The overlay pass, or nothing where there is no overlay.
    pub open spec fn overlay_part(&self, ui: UiFrame) -> Seq<PassRecord> {
        match self.overlay() {
            Some(o) => seq![overlay_pass(o.last_cursor() != ui.cursor)],
            None => Seq::empty(),
        }
    }

    /// The passes of a frame, in the order in which they are recorded.
    pub open spec fn frame_passes(&self, pick: int, ui: UiFrame) -> Seq<PassRecord> {
        self.image_part(pick) + self.text_part() + self.overlay_part(ui)
    }

    /// The text areas of a frame: the layout of the text renderer.
    pub open spec fn frame_areas(&self) -> Seq<TextArea> {
        match self.text() {
            Some(t) => Seq::new(
                t.blocks().len(),
                |i: int| area_of(t.blocks(), t.size(), t.scale(), i),
            ),
            None => Seq::empty(),
        }
    }

    /// A renderer for the surface of `context`, with no pool and no pipeline
    /// and with no frame begun. The overlay is created where there is a text
    /// renderer to take the scale from.
    pub fn new(
        context: GraphicsContext,
        layouts: ResourceLayoutRegistry<L>,
        text_renderer: Option<TextRenderer>,
    ) -> (renderer: Self)
        requires
            context.wf(),
            text_renderer matches Some(t) ==> t.wf(),
        ensures
            renderer.wf(),
            renderer.context() == context,
            renderer.layouts() == layouts,
            renderer.pools().len() == 0,
            forall|kind: PipelineType| renderer.pipelines().entry(kind) is None,
            renderer.text() == text_renderer,
            renderer.overlay() is Some <==> text_renderer is Some,
            renderer.overlay() matches Some(o) ==> o.created_for(
                text_renderer->0.scale(),
                text_renderer->0.size(),
            ),
            renderer.cycle().state() == FrameState::Idle,
            renderer.cycle().delta_time() == 0,
            renderer.cycle().last_frame_time() == None::<u64>,
    {
        let mut renderer = Renderer {
            context,
            layouts,
            pipelines: PipelineRegistry::new(),
            loaded_pools: Vec::new(),
            text_renderer,
            imgui_renderer: None,
            frame: FrameCycle::new(),
        };
        renderer.create_imgui();
        renderer
    }

    /// A text renderer for a viewport of `physical_size` at `scale_factor`,
    /// without blocks.
    pub fn create_text_renderer(scale_factor: ScaleFactor, physical_size: PhysicalSize) -> (text:
        TextRenderer)
        requires
            scale_factor.wf(),
        ensures
            text.wf(),
            text.scale() == scale_factor,
            text.size() == physical_size,
            text.blocks().len() == 0,
            text.ids().len() == 0,
    {
        TextRenderer::new(scale_factor, physical_size)
    }

    /// The overlay for the text renderer's scale and viewport, or the reason
    /// why there is none.
    pub fn create_imgui_renderer(&self) -> (overlay: Result<ImguiRenderer, ImguiError>)
        requires
            self.wf(),
        ensures
            overlay is Ok <==> self.text() is Some,
            overlay matches Ok(o) ==> o.created_for(self.text()->0.scale(), self.text()->0.size()),
    {
        match &self.text_renderer {
            Some(text) => Ok(ImguiRenderer::new(text.scale_factor(), text.physical_size())),
            None => Err(ImguiError::TextRendererNotInitialized),
        }
    }

    /// Creates the overlay unless there is one already. Without a text
    /// renderer there is still none afterwards.
    pub fn create_imgui(&mut self)
        requires
            old(self).wf(),
        ensures
            final(self).wf(),
            old(self).overlay() is Some ==> *final(self) == *old(self),
            old(self).overlay() is None ==> match old(self).text() {
                Some(t) => final(self).overlay() matches Some(o) && o.created_for(
                    t.scale(),
                    t.size(),
                ),
                None => final(self).overlay() is None,
            },
            final(self).context() == old(self).context(),
            final(self).layouts() == old(self).layouts(),
            final(self).pipelines() == old(self).pipelines(),
            final(self).pools() == old(self).pools(),
            final(self).text() == old(self).text(),
            final(self).cycle() == old(self).cycle(),
    {
        if self.imgui_renderer.is_some() {
            return ;
        }
        match self.create_imgui_renderer() {
            Ok(overlay) => {
                self.imgui_renderer = Some(overlay);
            },
            Err(_) => {},
        }
    }
}

impl<R, P, L> Renderer<R, P, L> {
    /// Takes a new window size and display scale.
    ///
    /// A size with an empty side changes nothing at all. Any other size is
    /// configured as requested, the text renderer wraps every block to the
    /// new logical width less the margin and drops their shaping, and the
    /// overlay takes the new logical size. Pools and pipelines stay: only
    /// another surface format makes a pipeline stale. Returns whether the
    /// size was taken.
    pub fn handle_resize(&mut self, width: u32, height: u32, scale: ScaleFactor) -> (applied: bool)
        requires
            old(self).wf(),
            scale.wf(),
        ensures
            final(self).wf(),
            applied == (width > 0 && height > 0),
            !applied ==> *final(self) == *old(self),
            applied ==> {
                &&& final(self).context()@ == (SurfaceConfiguration {
                    width,
                    height,
                    ..old(self).context()@
                })
                &&& final(self).text() is Some <==> old(self).text() is Some
                &&& final(self).text() matches Some(t) ==> resized_text(
                    old(self).text()->0,
                    t,
                    PhysicalSize { width, height },
                    scale,
                )
                &&& final(self).overlay() is Some <==> old(self).overlay() is Some
                &&& final(self).overlay() matches Some(o) ==> resized_overlay(
                    old(self).overlay()->0,
                    o,
                    PhysicalSize { width, height },
                    scale,
                )
            },
            final(self).layouts() == old(self).layouts(),
            final(self).pipelines() == old(self).pipelines(),
            final(self).pools() == old(self).pools(),
            final(self).cycle() == old(self).cycle(),
    {
        if !self.context.reconfigure(width, height) {
            return false;
        }
        let size = PhysicalSize { width, height };
        match &mut self.text_renderer {
            Some(text) => {
                text.resize(size, scale);
            },
            None => {},
        }
        match &mut self.imgui_renderer {
            Some(overlay) => {
                overlay.resize(size, scale);
            },
            None => {},
        }
        true
    }

    /// Takes another surface format, unless a frame is in flight. Every
    /// pipeline that was built against another format is dropped and has to
    /// be built again; a pipeline built against this format stays. Returns
    /// whether the format was taken.
    pub fn set_surface_format(&mut self, format: TextureFormat) -> (applied: bool)
        requires
            old(self).wf(),
        ensures
            final(self).wf(),
            applied == old(self).at_rest(),
            !applied ==> *final(self) == *old(self),
            applied ==> final(self).context()@ == (SurfaceConfiguration {
                format,
                ..old(self).context()@
            }),
            applied ==> forall|kind: PipelineType|
                final(self).pipelines().entry(kind) == match #[trigger] old(self).pipelines().entry(
                    kind,
                ) {
                    Some(e) => if e.format == format {
                        Some(e)
                    } else {
                        None
                    },
                    None => None,
                },
            final(self).layouts() == old(self).layouts(),
            final(self).pools() == old(self).pools(),
            final(self).text() == old(self).text(),
            final(self).overlay() == old(self).overlay(),
            final(self).cycle() == old(self).cycle(),
    {
        if !self.frame.get_state().is_at_rest() {
            return false;
        }
        let _ = self.context.set_format(format);
        self.pipelines.invalidate(format);
        true
    }

    /// Takes a pool and returns its index, which is the number of pools
    /// inserted before it. While a frame is in flight the pool is handed
    /// back and nothing changes.
    pub fn insert_pool(&mut self, pool: NvTexturePool<R>) -> (id: Result<usize, NvTexturePool<R>>)
        requires
            old(self).wf(),
        ensures
            final(self).wf(),
            match id {
                Ok(index) => {
                    &&& old(self).at_rest()
                    &&& index == old(self).pools().len()
                    &&& final(self).pools() == old(self).pools().push(pool)
                },
                Err(back) => {
                    &&& !old(self).at_rest()
                    &&& back == pool
                    &&& final(self).pools() == old(self).pools()
                },
            },
            final(self).context() == old(self).context(),
            final(self).layouts() == old(self).layouts(),
            final(self).pipelines() == old(self).pipelines(),
            final(self).text() == old(self).text(),
            final(self).overlay() == old(self).overlay(),
            final(self).cycle() == old(self).cycle(),
    {
        if !self.frame.get_state().is_at_rest() {
            return Err(pool);
        }
        let id: usize = self.loaded_pools.len();
        self.loaded_pools.push(pool);
        Ok(id)
    }

    /// Describes the pipeline of `kind` that is to be compiled: against the
    /// layouts and vertex buffers given and for the surface's format.
    pub fn create_pipeline(
        &self,
        kind: PipelineType,
        bind_group_layouts: Vec<LayoutTag>,
        vertex_buffer_layouts: Vec<VertexBufferLayout>,
    ) -> (descriptor: PipelineDescriptor)
        ensures
            descriptor.kind == kind,
            descriptor.format == self.context()@.format,
            descriptor.layouts == bind_group_layouts,
            descriptor.vertex_buffers == vertex_buffer_layouts,
    {
        PipelineDescriptor {
            kind,
            format: self.context.config().format,
            layouts: bind_group_layouts,
            vertex_buffers: vertex_buffer_layouts,
        }
    }

    /// Takes the outcome of compiling `descriptor`: `compiled` is the
    /// pipeline, or `None` where the device refused it.
    ///
    /// The pipeline is put under its kind and what stood there is returned
    /// for disposal. Nothing changes while a frame is in flight, where the
    /// device refused, or where the surface format is no longer the one in
    /// the descriptor, in this order.
    pub fn install_pipeline(&mut self, descriptor: PipelineDescriptor, compiled: Option<P>) -> (
    installed: Result<Option<PipelineEntry<P>>, BuildError>)
        requires
            old(self).wf(),
        ensures
            final(self).wf(),
            install_outcome(
                old(self).at_rest(),
                compiled is Some,
                descriptor.format == old(self).context()@.format,
            ) == match installed {
                Ok(_) => None::<BuildError>,
                Err(e) => Some(e),
            },
            match installed {
                Ok(replaced) => {
                    &&& replaced == old(self).pipelines().entry(descriptor.kind)
                    &&& final(self).pipelines().entry(descriptor.kind) == Some(
                        PipelineEntry {
                            kind: descriptor.kind,
                            pipeline: compiled->0,
                            format: descriptor.format,
                            layouts: descriptor.layouts,
                        },
                    )
                    &&& forall|kind: PipelineType|
                        kind != descriptor.kind ==> final(self).pipelines().entry(kind)
                            == old(self).pipelines().entry(kind)
                },
                Err(_) => final(self).pipelines() == old(self).pipelines(),
            },
            final(self).context() == old(self).context(),
            final(self).layouts() == old(self).layouts(),
            final(self).pools() == old(self).pools(),
            final(self).text() == old(self).text(),
            final(self).overlay() == old(self).overlay(),
            final(self).cycle() == old(self).cycle(),
    {
        if !self.frame.get_state().is_at_rest() {
            return Err(BuildError::FrameInFlight);
        }
        let pipeline = match compiled {
            Some(pipeline) => pipeline,
            None => {
                return Err(BuildError::Compilation);
            },
        };
        if descriptor.format != self.context.config().format {
            return Err(BuildError::StaleFormat);
        }
        let entry = PipelineEntry {
            kind: descriptor.kind,
            pipeline,
            format: descriptor.format,
            layouts: descriptor.layouts,
        };
        Ok(self.pipelines.insert(entry))
    }
}

impl<R, P, L> Renderer<R, P, L> {
    /// Begins a frame at time `now`, in nanoseconds of the caller's clock,
    /// unless one is in flight. On `Acquire` the caller asks the surface for
    /// a target and reports the answer to `frame_acquired`.
    pub fn begin_frame(&mut self, now: u64) -> (action: FrameAction)
        ensures
            (final(self).cycle().state(), action) == step(
                old(self).cycle().state(),
                FrameEvent::Begin,
            ),
            action == FrameAction::Acquire ==> final(self).cycle().last_frame_time() == Some(now)
                && final(self).cycle().delta_time() == crate::frame::elapsed(
                old(self).cycle().last_frame_time(),
                now,
                old(self).cycle().delta_time(),
            ),
            action != FrameAction::Acquire ==> *final(self) == *old(self),
            same_resources(*old(self), *final(self)),
            final(self).text() == old(self).text(),
            final(self).overlay() == old(self).overlay(),
    {
        self.frame.begin(now)
    }

    /// Takes the surface's answer to a request for a target.
    ///
    /// A target makes the frame ready and comes back inside the frame's
    /// context. A stale or lost surface asks for one `Retry`: the caller
    /// configures the surface again with the configuration in force, asks
    /// again and reports again. Any other error, and any error of the second
    /// try, skips the frame: no context, nothing to encode.
    pub fn frame_acquired<T>(&mut self, outcome: Result<T, SurfaceError>) -> (next: AcquireStep<T>)
        ensures
            final(self).cycle().state() == step(
                old(self).cycle().state(),
                FrameEvent::Acquired(failure_of(outcome)),
            ).0,
            old(self).cycle().state() is Acquiring ==> next.action() == step(
                old(self).cycle().state(),
                FrameEvent::Acquired(failure_of(outcome)),
            ).1,
            !(old(self).cycle().state() is Acquiring) ==> next is Skip && *final(self)
                == *old(self),
            next matches AcquireStep::Ready(context) ==> outcome == Ok::<T, SurfaceError>(
                context.target(),
            ) && context.delta_time() == old(self).cycle().delta_time(),
            final(self).cycle().last_frame_time() == old(self).cycle().last_frame_time(),
            final(self).cycle().delta_time() == old(self).cycle().delta_time(),
            same_resources(*old(self), *final(self)),
            final(self).text() == old(self).text(),
            final(self).overlay() == old(self).overlay(),
    {
        self.frame.acquired(outcome)
    }

    /// Records the image pass for entry `pick` of the first pool. Without
    /// the pipeline, without a pool or without that entry nothing is
    /// recorded.
    fn render_image(&self, passes: &mut Vec<PassRecord>, pick: usize)
        ensures
            final(passes)@ == old(passes)@ + self.image_part(pick as int),
    {
        if self.pipelines.get(PipelineType::Basic2D).is_none() {
            assert(final(passes)@ =~= old(passes)@ + self.image_part(pick as int));
            return ;
        }
        if self.loaded_pools.len() == 0 || pick >= self.loaded_pools[IMAGE_POOL].count() {
            assert(passes@ =~= old(passes)@ + self.image_part(pick as int));
            return ;
        }
        passes.push(
            PassRecord {
                kind: PassKind::Image,
                load: LoadOp::Clear(Color { r: 0, g: 0, b: 0, a: 1000 }),
                draw: DrawCall::Quad {
                    pipeline: PipelineType::Basic2D,
                    pool: IMAGE_POOL,
                    texture: pick,
                    indices: QUAD_INDEX_COUNT,
                },
            },
        );
        assert(passes@ =~= old(passes)@ + self.image_part(pick as int));
    }

    /// Lays the text out and records the text pass over it. Without a text
    /// renderer nothing is recorded.
    fn display_text(&self, passes: &mut Vec<PassRecord>) -> (areas: Vec<TextArea>)
        requires
            self.wf(),
        ensures
            final(passes)@ == old(passes)@ + self.text_part(),
            areas@ == self.frame_areas(),
    {
        match &self.text_renderer {
            Some(text) => {
                let areas = text.layout();
                passes.push(
                    PassRecord {
                        kind: PassKind::Text,
                        load: LoadOp::Load,
                        draw: DrawCall::Text { areas: areas.len() },
                    },
                );
                assert(passes@ =~= old(passes)@ + self.text_part());
                assert(areas@ =~= self.frame_areas());
                areas
            },
            None => {
                assert(passes@ =~= old(passes)@ + self.text_part());
                Vec::new()
            },
        }
    }

    /// Takes what building the interface left behind and records the overlay
    /// pass. Without an overlay nothing is recorded.
    fn display_imgui(&mut self, passes: &mut Vec<PassRecord>, ui: UiFrame)
        ensures
            final(passes)@ == old(passes)@ + old(self).overlay_part(ui),
            final(self).overlay() is Some <==> old(self).overlay() is Some,
            final(self).overlay() matches Some(o) ==> tracked_overlay(
                old(self).overlay()->0,
                o,
                ui,
            ),
            same_resources(*old(self), *final(self)),
            final(self).text() == old(self).text(),
            final(self).cycle() == old(self).cycle(),
    {
        match &mut self.imgui_renderer {
            Some(overlay) => {
                let cursor_changed = overlay.track(ui);
                passes.push(
                    PassRecord {
                        kind: PassKind::Overlay,
                        load: LoadOp::Load,
                        draw: DrawCall::Interface { cursor_changed },
                    },
                );
                assert(passes@ =~= old(passes)@ + old(self).overlay_part(ui));
            },
            None => {
                assert(passes@ =~= old(passes)@ + old(self).overlay_part(ui));
            },
        }
    }

    /// Records the passes of the frame that is ready, in their fixed order:
    /// the image pass for entry `pick` of the first pool, the text pass, the
    /// overlay pass, each only where its resources are there. `ui` is what
    /// building the interface for this frame left behind.
    ///
    /// Where no frame is ready nothing is recorded and nothing changes.
    pub fn compose(&mut self, pick: usize, ui: UiFrame) -> (stream: CommandStream)
        requires
            old(self).wf(),
        ensures
            final(self).wf(),
            (final(self).cycle().state(), if old(self).cycle().state() == FrameState::Ready {
                FrameAction::Record
            } else {
                FrameAction::Refuse
            }) == step(old(self).cycle().state(), FrameEvent::Compose),
            old(self).cycle().state() == FrameState::Ready ==> {
                &&& stream.passes@ == old(self).frame_passes(pick as int, ui)
                &&& stream.text_areas@ == old(self).frame_areas()
                &&& final(self).overlay() is Some <==> old(self).overlay() is Some
                &&& final(self).overlay() matches Some(o) ==> tracked_overlay(
                    old(self).overlay()->0,
                    o,
                    ui,
                )
            },
            old(self).cycle().state() != FrameState::Ready ==> stream.passes@.len() == 0
                && stream.text_areas@.len() == 0 && *final(self) == *old(self),
            in_pass_order(stream.passes@),
            later_passes_load(stream.passes@),
            same_resources(*old(self), *final(self)),
            final(self).text() == old(self).text(),
            final(self).cycle().last_frame_time() == old(self).cycle().last_frame_time(),
            final(self).cycle().delta_time() == old(self).cycle().delta_time(),
    {
        let mut passes: Vec<PassRecord> = Vec::new();
        match self.frame.compose() {
            FrameAction::Record => {},
            _ => {
                return CommandStream { passes, text_areas: Vec::new() };
            },
        }
        self.render_image(&mut passes, pick);
        let text_areas = self.display_text(&mut passes);
        self.display_imgui(&mut passes, ui);
        proof {
            assert(passes@ =~= old(self).frame_passes(pick as int, ui));
            old(self).lemma_passes_in_order(pick as int, ui);
        }
        CommandStream { passes, text_areas }
    }

    /// Ends the frame of `context` with the passes of `stream`: hands back
    /// the target, the passes, and the operations that finish the frame, one
    /// submission and one presentation. Where no target is held the context
    /// is stale: it is dropped with the stream, and nothing changes.
    pub fn end_frame<T>(&mut self, context: FrameContext<T>, stream: CommandStream) -> (finished:
        Option<Submission<T>>)
        ensures
            final(self).cycle().state() == step(old(self).cycle().state(), FrameEvent::End).0,
            finished is Some <==> old(self).cycle().state().holds_target(),
            finished matches Some(submission) ==> {
                &&& submission.target == context.target()
                &&& submission.passes == stream.passes
                &&& submission.text_areas == stream.text_areas
                &&& submission.ops@ == end_ops()
            },
            finished is None ==> *final(self) == *old(self),
            final(self).cycle().last_frame_time() == old(self).cycle().last_frame_time(),
            final(self).cycle().delta_time() == old(self).cycle().delta_time(),
            same_resources(*old(self), *final(self)),
            final(self).text() == old(self).text(),
            final(self).overlay() == old(self).overlay(),
    {
        match self.frame.end(context) {
            Some((target, ops)) => Some(
                Submission { target, passes: stream.passes, text_areas: stream.text_areas, ops },
            ),
            None => None,
        }
    }

    /// Draws one frame into the target of `context`: picks an entry of the
    /// first pool, records the passes in their fixed order and ends the
    /// frame. `ui` is what building the interface for this frame left behind.
    ///
    /// Which entry is picked is left open; it is one of the pool. A frame
    /// whose passes were recorded before is ended with no further pass.
    /// Where no target is held the context is stale and nothing happens.
    pub fn handle_redraw<T>(&mut self, context: FrameContext<T>, ui: UiFrame) -> (finished: Option<
        Submission<T>,
    >)
        requires
            old(self).wf(),
        ensures
            final(self).wf(),
            final(self).cycle().state() == step(old(self).cycle().state(), FrameEvent::End).0,
            finished is Some <==> old(self).cycle().state().holds_target(),
            finished is None ==> *final(self) == *old(self),
            finished matches Some(submission) ==> {
                &&& submission.target == context.target()
                &&& submission.ops@ == end_ops()
                &&& in_pass_order(submission.passes@)
                &&& later_passes_load(submission.passes@)
                &&& drawn_texture(submission.passes@) matches Some(texture) ==> {
                    &&& old(self).pools().len() > 0
                    &&& texture < old(self).pools()[0].textures().len()
                }
                &&& old(self).cycle().state() == FrameState::Ready ==> {
                    &&& submission.passes@ == old(self).frame_passes(
                        match drawn_texture(submission.passes@) {
                            Some(texture) => texture as int,
                            None => 0,
                        },
                        ui,
                    )
                    &&& submission.text_areas@ == old(self).frame_areas()
                    &&& final(self).overlay() matches Some(o) ==> tracked_overlay(
                        old(self).overlay()->0,
                        o,
                        ui,
                    )
                }
                &&& old(self).cycle().state() == FrameState::Composing ==> submission.passes@.len()
                    == 0 && final(self).overlay() == old(self).overlay()
            },
            final(self).overlay() is Some <==> old(self).overlay() is Some,
            same_resources(*old(self), *final(self)),
            final(self).text() == old(self).text(),
            final(self).cycle().last_frame_time() == old(self).cycle().last_frame_time(),
            final(self).cycle().delta_time() == old(self).cycle().delta_time(),
    {
        let count: usize = if self.loaded_pools.len() > 0 {
            self.loaded_pools[IMAGE_POOL].count()
        } else {
            0
        };
        let pick: usize = if count > 0 {
            random_index(count)
        } else {
            0
        };
        let stream = self.compose(pick, ui);
        proof {
            old(self).lemma_drawn_texture(pick as int, ui);
        }
        self.end_frame(context, stream)
    }

    /// Gives the frame of `context` up: hands the target back for release,
    /// with nothing submitted or presented. Where no target is held the
    /// context is stale and nothing changes.
    pub fn discard_frame<T>(&mut self, context: FrameContext<T>) -> (released: Option<T>)
        ensures
            final(self).cycle().state() == step(old(self).cycle().state(), FrameEvent::Discard).0,
            released is Some <==> old(self).cycle().state().holds_target(),
            released matches Some(target) ==> target == context.target(),
            released is None ==> *final(self) == *old(self),
            final(self).cycle().last_frame_time() == old(self).cycle().last_frame_time(),
            final(self).cycle().delta_time() == old(self).cycle().delta_time(),
            same_resources(*old(self), *final(self)),
            final(self).text() == old(self).text(),
            final(self).overlay() == old(self).overlay(),
    {
        self.frame.discard(context)
    }

    /// The passes of a frame stand in pass order, and only the image pass
    /// clears.
    pub proof fn lemma_passes_in_order(self, pick: int, ui: UiFrame)
        ensures
            in_pass_order(self.frame_passes(pick, ui)),
            later_passes_load(self.frame_passes(pick, ui)),
    {
    }

    /// Without a pool a frame has no image pass: its passes are the text
    /// pass and the overlay pass, as far as those sub-renderers exist.
    pub proof fn lemma_no_pool_no_image_pass(self, pick: int, ui: UiFrame)
        requires
            self.pools().len() == 0,
        ensures
            self.frame_passes(pick, ui) == self.text_part() + self.overlay_part(ui),
            forall|i: int|
                0 <= i < self.frame_passes(pick, ui).len() ==> (#[trigger] self.frame_passes(
                    pick,
                    ui,
                )[i]).kind != PassKind::Image,
            self.text() is Some && self.overlay() is Some ==> self.frame_passes(pick, ui) == seq![
                text_pass(self.text()->0.blocks().len() as usize),
                overlay_pass(self.overlay()->0.last_cursor() != ui.cursor),
            ],
    {
        assert(self.frame_passes(pick, ui) =~= self.text_part() + self.overlay_part(ui));
    }

    /// With the pipeline, an entry to draw and both sub-renderers, a frame
    /// has its three passes: the image pass, then the text pass, then the
    /// overlay pass.
    pub proof fn lemma_three_passes(self, pick: int, ui: UiFrame)
        requires
            self.pipelines().entry(PipelineType::Basic2D) is Some,
            self.pools().len() > 0,
            0 <= pick < self.pools()[0].textures().len(),
            self.text() is Some,
            self.overlay() is Some,
        ensures
            self.frame_passes(pick, ui) == seq![
                image_pass(0, pick as usize),
                text_pass(self.text()->0.blocks().len() as usize),
                overlay_pass(self.overlay()->0.last_cursor() != ui.cursor),
            ],
    {
        assert(self.frame_passes(pick, ui) =~= seq![
            image_pass(0, pick as usize),
            text_pass(self.text()->0.blocks().len() as usize),
            overlay_pass(self.overlay()->0.last_cursor() != ui.cursor),
        ]);
    }

    /// The entry that the passes of a frame draw is the entry that was
    /// picked, and picking it again gives the same passes.
    pub proof fn lemma_drawn_texture(self, pick: int, ui: UiFrame)
        requires
            0 <= pick <= usize::MAX,
            self.pools().len() > 0 && self.pools()[0].textures().len() > 0 ==> pick
                < self.pools()[0].textures().len(),
        ensures
            drawn_texture(self.frame_passes(pick, ui)) matches Some(texture) ==> texture == pick
                && self.pools().len() > 0 && pick < self.pools()[0].textures().len(),
            self.frame_passes(pick, ui) == self.frame_passes(
                match drawn_texture(self.frame_passes(pick, ui)) {
                    Some(texture) => texture as int,
                    None => 0,
                },
                ui,
            ),
    {
        let passes = self.frame_passes(pick, ui);
        if self.image_part(pick).len() > 0 {
            assert(passes[0] == image_pass(0, pick as usize));
        } else {
            assert(self.image_part(0).len() == 0);
            if passes.len() > 0 {
                assert(passes[0].kind != PassKind::Image);
            }
        }
    }
}

impl<R, P, L> Renderer<R, P, L> {
    /// Why text cannot change now, if it cannot: a frame is in flight, or
    /// there is no text renderer.
    pub open spec fn text_refusal(&self) -> Option<TextError> {
        if !self.at_rest() {
            Some(TextError::FrameInFlight)
        } else if self.text() is None {
            Some(TextError::NoTextRenderer)
        } else {
            None
        }
    }

    /// `after` is this renderer with `block` stored under `id`.
    pub open spec fn with_text(&self, after: Self, id: Seq<char>, block: TextBlock) -> bool {
        &&& self.text() matches Some(before)
        &&& after.text() matches Some(text)
        &&& text.wf()
        &&& text.size() == before.size()
        &&& text.scale() == before.scale()
        &&& text.ids() == ids_after_insert(before.ids(), id)
        &&& text.blocks() == blocks_after_insert(before.ids(), before.blocks(), id, block)
    }

    /// Adds a block of text under a fresh identifier and returns the
    /// identifier. `font_size` is in logical units, `line_height` is the
    /// height of a line relative to the font size, in thousandths. The block
    /// is wrapped to the logical width of the viewport less the margin and
    /// has no lines until its shaping is recorded.
    ///
    /// The identifier is random. Should it be one that is taken, the block
    /// that has it is replaced. Nothing is added while a frame is in flight
    /// or without a text renderer.
    pub fn add_text(&mut self, text: &str, font_size: u32, line_height: u32) -> (added: Result<
        String,
        TextError,
    >)
        requires
            old(self).wf(),
        ensures
            final(self).wf(),
            match added {
                Ok(id) => {
                    &&& old(self).text_refusal() is None
                    &&& is_text_id(id@)
                    &&& old(self).with_text(
                        *final(self),
                        id@,
                        new_block(
                            text@,
                            font_size as int,
                            line_height as int,
                            old(self).text()->0.limit(),
                        ),
                    )
                },
                Err(e) => old(self).text_refusal() == Some(e) && *final(self) == *old(self),
            },
            same_resources(*old(self), *final(self)),
            final(self).overlay() == old(self).overlay(),
            final(self).cycle() == old(self).cycle(),
    {
        if !self.frame.get_state().is_at_rest() {
            return Err(TextError::FrameInFlight);
        }
        if self.text_renderer.is_none() {
            return Err(TextError::NoTextRenderer);
        }
        let id = fresh_text_id();
        let key = id.clone();
        match self.insert_text(id, text, font_size, line_height) {
            Ok(_) => Ok(key),
            Err(e) => Err(e),
        }
    }

    /// Stores a block of text under `id` and returns its index: last for a
    /// new identifier, the place of the block that is replaced for one that
    /// is taken. Nothing is stored while a frame is in flight or without a
    /// text renderer.
    pub fn insert_text(
        &mut self,
        id: String,
        text: &str,
        font_size: u32,
        line_height: u32,
    ) -> (stored: Result<usize, TextError>)
        requires
            old(self).wf(),
        ensures
            final(self).wf(),
            match stored {
                Ok(index) => {
                    &&& old(self).text_refusal() is None
                    &&& old(self).with_text(
                        *final(self),
                        id@,
                        new_block(
                            text@,
                            font_size as int,
                            line_height as int,
                            old(self).text()->0.limit(),
                        ),
                    )
                    &&& index < final(self).text()->0.ids().len()
                    &&& final(self).text()->0.ids()[index as int] == id@
                },
                Err(e) => old(self).text_refusal() == Some(e) && *final(self) == *old(self),
            },
            same_resources(*old(self), *final(self)),
            final(self).overlay() == old(self).overlay(),
            final(self).cycle() == old(self).cycle(),
    {
        if !self.frame.get_state().is_at_rest() {
            return Err(TextError::FrameInFlight);
        }
        match &mut self.text_renderer {
            Some(renderer) => Ok(renderer.insert(id, text, font_size, line_height)),
            None => Err(TextError::NoTextRenderer),
        }
    }

    /// Takes the outcome of shaping the block `id`: the width of each of its
    /// lines, in logical units. It is taken only if no line is wider than
    /// the block's width limit, so that no block ever holds a line wider
    /// than the viewport less the margin. Returns the index of the block.
    pub fn record_shaping(&mut self, id: &str, widths: Vec<u64>) -> (shaped: Result<
        usize,
        TextError,
    >)
        requires
            old(self).wf(),
        ensures
            final(self).wf(),
            match shaped {
                Ok(index) => {
                    &&& old(self).text_refusal() is None
                    &&& old(self).text() matches Some(before)
                    &&& final(self).text() matches Some(after)
                    &&& index < before.ids().len()
                    &&& before.ids()[index as int] == id@
                    &&& all_fit(widths@, before.limit())
                    &&& after.size() == before.size()
                    &&& after.scale() == before.scale()
                    &&& after.ids() == before.ids()
                    &&& after.blocks() == before.blocks().update(
                        index as int,
                        before.blocks()[index as int].shaped(widths@),
                    )
                },
                Err(e) => *final(self) == *old(self) && match old(self).text_refusal() {
                    Some(refusal) => e == refusal,
                    None => if old(self).text()->0.ids().contains(id@) {
                        e == TextError::LineTooWide && !all_fit(
                            widths@,
                            old(self).text()->0.limit(),
                        )
                    } else {
                        e == TextError::UnknownId
                    },
                },
            },
            same_resources(*old(self), *final(self)),
            final(self).overlay() == old(self).overlay(),
            final(self).cycle() == old(self).cycle(),
    {
        if !self.frame.get_state().is_at_rest() {
            return Err(TextError::FrameInFlight);
        }
        match &mut self.text_renderer {
            Some(renderer) => renderer.record_shaping(id, widths),
            None => Err(TextError::NoTextRenderer),
        }
    }

    /// The surface configuration in force.
    pub fn config(&self) -> (config: SurfaceConfiguration)
        ensures
            config == self.context()@,
    {
        self.context.config()
    }

    /// The shared layouts.
    pub fn get_layouts(&self) -> (layouts: &ResourceLayoutRegistry<L>)
        ensures
            *layouts == self.layouts(),
    {
        &self.layouts
    }

    /// The pipeline of `kind`, or `None` where it is missing.
    pub fn pipeline(&self, kind: PipelineType) -> (entry: Option<&PipelineEntry<P>>)
        ensures
            match entry {
                Some(e) => self.pipelines().entry(kind) == Some(*e),
                None => self.pipelines().entry(kind) is None,
            },
    {
        self.pipelines.get(kind)
    }

    /// The number of pools.
    pub fn pool_count(&self) -> (count: usize)
        ensures
            count == self.pools().len(),
    {
        self.loaded_pools.len()
    }

    /// The pool at `index`, or `None` where there is none.
    pub fn pool(&self, index: usize) -> (pool: Option<&NvTexturePool<R>>)
        ensures
            index < self.pools().len() ==> pool == Some(&self.pools()[index as int]),
            index >= self.pools().len() ==> pool is None,
    {
        if index < self.loaded_pools.len() {
            Some(&self.loaded_pools[index])
        } else {
            None
        }
    }

    /// The text sub-renderer, once it is created.
    pub fn text_renderer(&self) -> (text: Option<&TextRenderer>)
        ensures
            match text {
                Some(t) => self.text() == Some(*t),
                None => self.text() is None,
            },
    {
        self.text_renderer.as_ref()
    }

    /// The overlay sub-renderer, once it is created.
    pub fn imgui_renderer(&self) -> (overlay: Option<&ImguiRenderer>)
        ensures
            match overlay {
                Some(o) => self.overlay() == Some(*o),
                None => self.overlay() is None,
            },
    {
        self.imgui_renderer.as_ref()
    }

    /// Where the frame cycle stands.
    pub fn frame_state(&self) -> (state: FrameState)
        ensures
            state == self.cycle().state(),
    {
        self.frame.get_state()
    }

    /// Nanoseconds between the beginnings of the last two frames.
    pub fn delta_time(&self) -> (delta: u64)
        ensures
            delta == self.cycle().delta_time(),
    {
        self.frame.get_delta_time()
    }
}

/// The two renderers hold the same surface configuration, layouts,
/// pipelines and pools.
pub open spec fn same_resources<R, P, L>(
    before: Renderer<R, P, L>,
    after: Renderer<R, P, L>,
) -> bool {
    &&& after.context() == before.context()
    &&& after.layouts() == before.layouts()
    &&& after.pipelines() == before.pipelines()
    &&& after.pools() == before.pools()
}

/// `after` is `before` once it took the interface frame `ui`.
pub open spec fn tracked_overlay(before: ImguiRenderer, after: ImguiRenderer, ui: UiFrame) -> bool {
    &&& after.last_cursor() == ui.cursor
    &&& after.demo_open() == ui.demo_open
    &&& after.font_size() == before.font_size()
    &&& after.font_global_scale() == before.font_global_scale()
    &&& after.display_size() == before.display_size()
}

/// Why `install_pipeline` refuses, if it does: the first of a frame in
/// flight, a failed compilation and a stale format.
pub open spec fn install_outcome(at_rest: bool, compiled: bool, format_current: bool) -> Option<
    BuildError,
> {
    if !at_rest {
        Some(BuildError::FrameInFlight)
    } else if !compiled {
        Some(BuildError::Compilation)
    } else if !format_current {
        Some(BuildError::StaleFormat)
    } else {
        None
    }
}

/// `after` is `before` resized to `size` at `scale`: the same blocks under
/// the same identifiers, each wrapped to the new logical width less the
/// margin and without lines.
pub open spec fn resized_text(
    before: TextRenderer,
    after: TextRenderer,
    size: PhysicalSize,
    scale: ScaleFactor,
) -> bool {
    &&& after.wf()
    &&& after.size() == size
    &&& after.scale() == scale
    &&& after.limit() == wrap_width(size.width as int, scale.value())
    &&& after.ids() == before.ids()
    &&& after.blocks().len() == before.blocks().len()
    &&& forall|i: int|
        0 <= i < before.blocks().len() ==> #[trigger] after.blocks()[i]
            == before.blocks()[i].rewrapped(wrap_width(size.width as int, scale.value()))
}

/// `after` is `before` resized to `size` at `scale`: the logical display
/// size follows, the rest stays.
pub open spec fn resized_overlay(
    before: ImguiRenderer,
    after: ImguiRenderer,
    size: PhysicalSize,
    scale: ScaleFactor,
) -> bool {
    &&& after.display_size() == logical_size(size, scale.value())
    &&& after.font_size() == before.font_size()
    &&& after.font_global_scale() == before.font_global_scale()
    &&& after.demo_open() == before.demo_open()
    &&& after.last_cursor() == before.last_cursor()
}

} // verus!
