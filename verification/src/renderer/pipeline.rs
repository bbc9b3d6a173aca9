//! Draw pipelines by kind, each with what it was built against.

use vstd::prelude::*;
use crate::context::TextureFormat;
use crate::layout::LayoutTag;

verus! {

/// The kinds of pipeline.
#[derive(Hash, Eq, PartialEq, Clone, Copy, Debug, Structural)]
pub enum PipelineType {
    Basic2D,
    Basic3D,
}

/// The type of one vertex attribute.
#[derive(Clone, Copy, Debug, PartialEq, Eq, Structural)]
pub enum VertexFormat {
    Float32,
    Float32x2,
    Float32x3,
    Float32x4,
}

impl VertexFormat {
    /// The size of an attribute of this format, in bytes.
    pub open spec fn size(&self) -> int {
        match self {
            VertexFormat::Float32 => 4,
            VertexFormat::Float32x2 => 8,
            VertexFormat::Float32x3 => 12,
            VertexFormat::Float32x4 => 16,
        }
    }

    /// The size of an attribute of this format, in bytes.
    pub fn byte_size(&self) -> (size: u64)
        ensures
            size == self.size(),
    {
        match self {
            VertexFormat::Float32 => 4,
            VertexFormat::Float32x2 => 8,
            VertexFormat::Float32x3 => 12,
            VertexFormat::Float32x4 => 16,
        }
    }
}

/// Where one attribute lies inside a vertex.
#[derive(Clone, Copy, Debug, PartialEq, Eq, Structural)]
pub struct VertexAttribute {
    pub format: VertexFormat,
    pub offset: u64,
    pub shader_location: u32,
}

/// How the vertices of one buffer are laid out.
pub struct VertexBufferLayout {
    pub array_stride: u64,
    pub attributes: Vec<VertexAttribute>,
}

/// The bytes taken by the first `count` of `formats`.
pub open spec fn packed_size(formats: Seq<VertexFormat>, count: int) -> int
    decreases count,
{
    if count <= 0 {
        0
    } else {
        packed_size(formats, count - 1) + formats[count - 1].size()
    }
}

/// The attribute at `index` when `formats` lie one behind the other.
pub open spec fn packed_attribute(formats: Seq<VertexFormat>, index: int) -> VertexAttribute {
    VertexAttribute {
        format: formats[index],
        offset: packed_size(formats, index) as u64,
        shader_location: index as u32,
    }
}

/// The formats of the quad's vertices: a position and a texture coordinate.
pub open spec fn quad_formats() -> Seq<VertexFormat> {
    seq![VertexFormat::Float32x3, VertexFormat::Float32x2]
}

/// Indices drawn for the quad: two triangles.
pub const QUAD_INDEX_COUNT: u32 = 6;

impl VertexBufferLayout {
    /// The layout of vertices whose attributes lie one behind the other
    /// without gaps, at shader locations counted from zero. `None` where
    /// there are more attributes than shader locations can number.
    pub fn packed(formats: &Vec<VertexFormat>) -> (layout: Option<VertexBufferLayout>)
        ensures
            layout is Some <==> formats@.len() <= u32::MAX,
            layout matches Some(l) ==> l.array_stride == packed_size(
                formats@,
                formats@.len() as int,
            ) && l.attributes@.len() == formats@.len() && forall|i: int|
                0 <= i < formats@.len() ==> #[trigger] l.attributes@[i] == packed_attribute(
                    formats@,
                    i,
                ),
    {
        if formats.len() > u32::MAX as usize {
            return None;
        }
        let mut attributes: Vec<VertexAttribute> = Vec::new();
        let mut offset: u64 = 0;
        let mut i: usize = 0;
        while i < formats.len()
            invariant
                i <= formats@.len(),
                formats@.len() <= u32::MAX,
                offset == packed_size(formats@, i as int),
                offset <= 16 * i,
                attributes@.len() == i,
                forall|j: int|
                    0 <= j < i ==> #[trigger] attributes@[j] == packed_attribute(formats@, j),
            decreases formats@.len() - i,
        {
            let format = formats[i];
            attributes.push(VertexAttribute { format, offset, shader_location: i as u32 });
            offset = offset + format.byte_size();
            i += 1;
        }
        Some(VertexBufferLayout { array_stride: offset, attributes })
    }

    /// The layout of the quad's vertices: twenty bytes, the position at
    /// offset 0 and location 0, the texture coordinate at offset 12 and
    /// location 1.
    pub fn quad() -> (layout: VertexBufferLayout)
        ensures
            layout.array_stride == 20,
            layout.attributes@ == seq![
                VertexAttribute {
                    format: VertexFormat::Float32x3,
                    offset: 0,
                    shader_location: 0,
                },
                VertexAttribute {
                    format: VertexFormat::Float32x2,
                    offset: 12,
                    shader_location: 1,
                },
            ],
    {
        let mut attributes: Vec<VertexAttribute> = Vec::new();
        attributes.push(
            VertexAttribute { format: VertexFormat::Float32x3, offset: 0, shader_location: 0 },
        );
        attributes.push(
            VertexAttribute { format: VertexFormat::Float32x2, offset: 12, shader_location: 1 },
        );
        VertexBufferLayout { array_stride: 20, attributes }
    }
}

/// Why a pipeline is not in the registry after a build.
#[derive(Clone, Copy, Debug, PartialEq, Eq, Structural)]
pub enum BuildError {
    /// The device did not compile the pipeline.
    Compilation,
    /// The surface format changed since the build was described.
    StaleFormat,
    /// A frame is in flight; pipelines change between frames only.
    FrameInFlight,
}

/// What a pipeline is to be built against.
pub struct PipelineDescriptor {
    pub kind: PipelineType,
    /// The format of the color target: the surface's.
    pub format: TextureFormat,
    pub layouts: Vec<LayoutTag>,
    pub vertex_buffers: Vec<VertexBufferLayout>,
}

/// A compiled pipeline with what it was built against.
pub struct PipelineEntry<P> {
    pub kind: PipelineType,
    pub pipeline: P,
    pub format: TextureFormat,
    pub layouts: Vec<LayoutTag>,
}

/// The pipelines, at most one of each kind.
pub struct PipelineRegistry<P> {
    basic_2d: Option<PipelineEntry<P>>,
    basic_3d: Option<PipelineEntry<P>>,
}

impl<P> PipelineRegistry<P> {
    /// The entry of `kind`, if one was built.
    pub closed spec fn entry(&self, kind: PipelineType) -> Option<PipelineEntry<P>> {
        match kind {
            PipelineType::Basic2D => self.basic_2d,
            PipelineType::Basic3D => self.basic_3d,
        }
    }

    /// Every entry stands under its own kind.
    pub open spec fn wf(&self) -> bool {
        &&& self.entry(PipelineType::Basic2D) matches Some(e) ==> e.kind == PipelineType::Basic2D
        &&& self.entry(PipelineType::Basic3D) matches Some(e) ==> e.kind == PipelineType::Basic3D
    }

    /// Every entry was built against `format`.
    pub open spec fn built_for(&self, format: TextureFormat) -> bool {
        &&& self.entry(PipelineType::Basic2D) matches Some(e) ==> e.format == format
        &&& self.entry(PipelineType::Basic3D) matches Some(e) ==> e.format == format
    }

    /// A registry without pipelines.
    pub fn new() -> (registry: Self)
        ensures
            forall|kind: PipelineType| registry.entry(kind) is None,
            registry.wf(),
    {
        PipelineRegistry { basic_2d: None, basic_3d: None }
    }

    /// The entry of `kind`, or `None` where it is missing.
    pub fn get(&self, kind: PipelineType) -> (entry: Option<&PipelineEntry<P>>)
        ensures
            match entry {
                Some(e) => self.entry(kind) == Some(*e),
                None => self.entry(kind) is None,
            },
    {
        match kind {
            PipelineType::Basic2D => self.basic_2d.as_ref(),
            PipelineType::Basic3D => self.basic_3d.as_ref(),
        }
    }

    /// Puts `entry` under its kind and returns the entry that stood there.
    pub fn insert(&mut self, entry: PipelineEntry<P>) -> (replaced: Option<PipelineEntry<P>>)
        requires
            old(self).wf(),
        ensures
            final(self).wf(),
            replaced == old(self).entry(entry.kind),
            final(self).entry(entry.kind) == Some(entry),
            forall|kind: PipelineType|
                kind != entry.kind ==> final(self).entry(kind) == old(self).entry(kind),
    {
        match entry.kind {
            PipelineType::Basic2D => {
                let mut slot = Some(entry);
                std::mem::swap(&mut self.basic_2d, &mut slot);
                slot
            },
            PipelineType::Basic3D => {
                let mut slot = Some(entry);
                std::mem::swap(&mut self.basic_3d, &mut slot);
                slot
            },
        }
    }

    /// Drops every pipeline that was built against another format than
    /// `format`, and keeps the others.
    pub fn invalidate(&mut self, format: TextureFormat)
        requires
            old(self).wf(),
        ensures
            final(self).wf(),
            final(self).built_for(format),
            forall|kind: PipelineType|
                final(self).entry(kind) == match #[trigger] old(self).entry(kind) {
                    Some(e) => if e.format == format {
                        Some(e)
                    } else {
                        None
                    },
                    None => None,
                },
    {
        let keep_2d = match &self.basic_2d {
            Some(e) => e.format == format,
            None => true,
        };
        if !keep_2d {
            self.basic_2d = None;
        }
        let keep_3d = match &self.basic_3d {
            Some(e) => e.format == format,
            None => true,
        };
        if !keep_3d {
            self.basic_3d = None;
        }
    }
}

} // verus!
