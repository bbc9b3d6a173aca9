//! The resource layouts that pools and pipelines share.

use vstd::prelude::*;

verus! {

/// The shapes of resource sets that exist.
#[derive(Clone, Copy, Debug, PartialEq, Eq, Hash, Structural)]
pub enum LayoutTag {
    /// A sampled texture and the sampler it is read through.
    TextureSampler,
}

/// What a binding slot holds.
#[derive(Clone, Copy, Debug, PartialEq, Eq, Structural)]
pub enum BindingType {
    /// A two-dimensional texture of filterable floats, not multisampled.
    Texture,
    /// A filtering sampler.
    Sampler,
}

/// One slot of a layout. Every slot is visible to the fragment stage only.
#[derive(Clone, Copy, Debug, PartialEq, Eq, Structural)]
pub struct BindingEntry {
    pub binding: u32,
    pub ty: BindingType,
}

/// The slots of a layout, by binding number.
pub open spec fn entries_of(tag: LayoutTag) -> Seq<BindingEntry> {
    match tag {
        LayoutTag::TextureSampler => seq![
            BindingEntry { binding: 0, ty: BindingType::Texture },
            BindingEntry { binding: 1, ty: BindingType::Sampler },
        ],
    }
}

/// The slots of a layout, by binding number.
pub fn layout_entries(tag: LayoutTag) -> (entries: Vec<BindingEntry>)
    ensures
        entries@ == entries_of(tag),
{
    match tag {
        LayoutTag::TextureSampler => {
            let mut entries: Vec<BindingEntry> = Vec::new();
            entries.push(BindingEntry { binding: 0, ty: BindingType::Texture });
            entries.push(BindingEntry { binding: 1, ty: BindingType::Sampler });
            assert(entries@ =~= entries_of(tag));
            entries
        },
    }
}

/// The layouts, one per tag, made once and never changed: nothing here hands
/// out a mutable reference or replaces a layout.
pub struct ResourceLayoutRegistry<L> {
    texture_sampler: L,
}

impl<L> ResourceLayoutRegistry<L> {
    /// The layout under `tag`.
    pub closed spec fn layout(&self, tag: LayoutTag) -> L {
        match tag {
            LayoutTag::TextureSampler => self.texture_sampler,
        }
    }

    /// A registry of the layouts given.
    pub fn new(texture_sampler: L) -> (registry: Self)
        ensures
            registry.layout(LayoutTag::TextureSampler) == texture_sampler,
    {
        ResourceLayoutRegistry { texture_sampler }
    }

    /// The layout under `tag`.
    pub fn get(&self, tag: LayoutTag) -> (layout: &L)
        ensures
            *layout == self.layout(tag),
    {
        match tag {
            LayoutTag::TextureSampler => &self.texture_sampler,
        }
    }
}

} // verus!
