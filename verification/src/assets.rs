//! Named assets, the bundles that group them, and the pools of device
//! resources that are built from bundles.
//!
//! Decoding a file is not done here: a texture arrives as its size and the
//! length of its pixel data, four bytes to a pixel.

use vstd::prelude::*;
use crate::assets::manager::AssetBundle;
use crate::context::{TextureFormat, upload_format};
use crate::layout::LayoutTag;

pub mod manager;
pub mod model;

verus! {

/// What the assets of a bundle are.
#[derive(Clone, Copy, Debug, PartialEq, Eq, Structural)]
pub enum AssetType {
    Texture,
    Model,
}

/// Bytes in one pixel of an uploaded texture.
pub const BYTES_PER_PIXEL: u32 = 4;

/// How the pixels of one image are copied into a new texture. The texture is
/// two-dimensional, one layer deep, with one mip level and one sample, and as
/// large as the image.
#[derive(Clone, Copy, Debug, PartialEq, Eq, Structural)]
pub struct TextureUpload {
    pub format: TextureFormat,
    pub width: u32,
    pub height: u32,
    pub bytes_per_row: u32,
    pub rows_per_image: u32,
    pub byte_len: u64,
}

/// Why an image cannot be uploaded.
#[derive(Clone, Copy, Debug, PartialEq, Eq, Structural)]
pub enum UploadError {
    /// The image has no pixels.
    EmptyImage,
    /// A row of the image has more bytes than a copy can describe.
    RowTooLong,
    /// The pixel data is not four bytes for each pixel.
    WrongLength,
}

/// The upload of an image of `width` by `height` pixels whose data is
/// `data_len` bytes long, or the first reason against it.
pub open spec fn upload_of(width: u32, height: u32, data_len: usize) -> Result<
    TextureUpload,
    UploadError,
> {
    if width == 0 || height == 0 {
        Err(UploadError::EmptyImage)
    } else if 4 * width > u32::MAX {
        Err(UploadError::RowTooLong)
    } else if data_len != 4 * width * height {
        Err(UploadError::WrongLength)
    } else {
        Ok(
            TextureUpload {
                format: upload_format(),
                width,
                height,
                bytes_per_row: (4 * width) as u32,
                rows_per_image: height,
                byte_len: (4 * width * height) as u64,
            },
        )
    }
}

/// Describes the upload of one image, or says why it cannot be uploaded.
pub fn plan_upload(width: u32, height: u32, data_len: usize) -> (upload: Result<
    TextureUpload,
    UploadError,
>)
    ensures
        upload == upload_of(width, height, data_len),
{
    if width == 0 || height == 0 {
        return Err(UploadError::EmptyImage);
    }
    if width > u32::MAX / BYTES_PER_PIXEL {
        return Err(UploadError::RowTooLong);
    }
    let bytes_per_row: u32 = BYTES_PER_PIXEL * width;
    assert(bytes_per_row * height <= 0xffff_ffff * 0xffff_ffff) by (nonlinear_arith)
        requires
            bytes_per_row <= 0xffff_ffff,
            height <= 0xffff_ffff,
    ;
    assert(4 * width * height == bytes_per_row * height) by (nonlinear_arith)
        requires
            bytes_per_row == 4 * width,
    ;
    let byte_len: u64 = (bytes_per_row as u64) * (height as u64);
    if data_len as u64 != byte_len {
        return Err(UploadError::WrongLength);
    }
    Ok(
        TextureUpload {
            format: TextureFormat::Rgba8UnormSrgb,
            width,
            height,
            bytes_per_row,
            rows_per_image: height,
            byte_len,
        },
    )
}

/// One texture on the device: the resources made for it, the name of the
/// asset it came from, and its size.
pub struct NvTexture<R> {
    resource: R,
    name: String,
    width: u32,
    height: u32,
}

impl<R> NvTexture<R> {
    /// The device resources of the texture.
    pub closed spec fn resource(&self) -> R {
        self.resource
    }

    /// The name of the asset.
    pub closed spec fn name(&self) -> Seq<char> {
        self.name@
    }

    /// The size in pixels, width first.
    pub closed spec fn size(&self) -> (u32, u32) {
        (self.width, self.height)
    }

    /// The pool entry for the asset `texture_name`, uploaded as `upload`
    /// says into `resource`.
    pub fn from_name(texture_name: &str, upload: &TextureUpload, resource: R) -> (texture: Self)
        ensures
            texture.name() == texture_name@,
            texture.resource() == resource,
            texture.size() == (upload.width, upload.height),
    {
        NvTexture {
            resource,
            name: texture_name.to_owned(),
            width: upload.width,
            height: upload.height,
        }
    }

    /// The device resources of the texture.
    pub fn get_resource(&self) -> (resource: &R)
        ensures
            *resource == self.resource(),
    {
        &self.resource
    }

    /// The name of the asset.
    pub fn get_name(&self) -> (name: &str)
        ensures
            name@ == self.name(),
    {
        self.name.as_str()
    }

    /// The width in pixels.
    pub fn width(&self) -> (width: u32)
        ensures
            width == self.size().0,
    {
        self.width
    }

    /// The height in pixels.
    pub fn height(&self) -> (height: u32)
        ensures
            height == self.size().1,
    {
        self.height
    }
}

/// Why a pool was not built. Nothing of a pool exists unless all of it does.
#[derive(Clone, Copy, Debug, PartialEq, Eq, Structural)]
pub enum PoolError {
    /// The bundle does not hold textures.
    NotTextures,
    /// There is not one upload for each asset of the bundle.
    CountMismatch,
}

/// The textures of one bundle on the device, in the bundle's order, with the
/// layout that all their resource sets share.
pub struct NvTexturePool<R> {
    textures: Vec<NvTexture<R>>,
    layout: LayoutTag,
}

impl<R> NvTexturePool<R> {
    /// The entries, in the order of the bundle.
    pub closed spec fn textures(&self) -> Seq<NvTexture<R>> {
        self.textures@
    }

    /// The layout of every entry's resource set.
    pub closed spec fn layout(&self) -> LayoutTag {
        self.layout
    }

    /// A pool without entries.
    pub fn new(layout: LayoutTag) -> (pool: Self)
        ensures
            pool.textures().len() == 0,
            pool.layout() == layout,
    {
        NvTexturePool { textures: Vec::new(), layout }
    }

    /// Builds the pool of a bundle of textures from the uploads of its
    /// assets, given in the bundle's order. Entry `i` carries the name of
    /// asset `i` and the resources and size of upload `i`.
    pub fn build(
        layout: LayoutTag,
        bundle: &AssetBundle,
        uploads: Vec<(TextureUpload, R)>,
    ) -> (pool: Result<Self, PoolError>)
        ensures
            match pool {
                Ok(p) => {
                    &&& bundle.bundle_type == AssetType::Texture
                    &&& uploads@.len() == bundle.assets@.len()
                    &&& p.layout() == layout
                    &&& p.textures().len() == uploads@.len()
                    &&& forall|i: int|
                        0 <= i < uploads@.len() ==> {
                            &&& (#[trigger] p.textures()[i]).name() == bundle.names()[i]
                            &&& p.textures()[i].resource() == uploads@[i].1
                            &&& p.textures()[i].size() == (
                                uploads@[i].0.width,
                                uploads@[i].0.height,
                            )
                        }
                },
                Err(PoolError::NotTextures) => bundle.bundle_type != AssetType::Texture,
                Err(PoolError::CountMismatch) => bundle.bundle_type == AssetType::Texture
                    && uploads@.len() != bundle.assets@.len(),
            },
    {
        if bundle.bundle_type != AssetType::Texture {
            return Err(PoolError::NotTextures);
        }
        if uploads.len() != bundle.assets.len() {
            return Err(PoolError::CountMismatch);
        }
        let mut textures: Vec<NvTexture<R>> = Vec::new();
        for upload in it: uploads
            invariant
                it.seq() == uploads@,
                uploads@.len() == bundle.assets@.len(),
                textures@.len() == it.index(),
                forall|i: int|
                    0 <= i < textures@.len() ==> {
                        &&& (#[trigger] textures@[i]).name() == bundle.names()[i]
                        &&& textures@[i].resource() == uploads@[i].1
                        &&& textures@[i].size() == (uploads@[i].0.width, uploads@[i].0.height)
                    },
        {
            let name = bundle.assets[textures.len()].file_name.as_str();
            let (plan, resource) = upload;
            textures.push(NvTexture::from_name(name, &plan, resource));
        }
        Ok(NvTexturePool { textures, layout })
    }

    /// The number of entries.
    pub fn count(&self) -> (count: usize)
        ensures
            count == self.textures().len(),
    {
        self.textures.len()
    }

    /// The entry at `index`, or `None` where there is none.
    pub fn get(&self, index: usize) -> (entry: Option<&NvTexture<R>>)
        ensures
            index < self.textures().len() ==> entry == Some(&self.textures()[index as int]),
            index >= self.textures().len() ==> entry is None,
    {
        if index < self.textures.len() {
            Some(&self.textures[index])
        } else {
            None
        }
    }

    /// The layout of every entry's resource set.
    pub fn get_layout(&self) -> (layout: LayoutTag)
        ensures
            layout == self.layout(),
    {
        self.layout
    }

    /// Takes the entry at `index` out of the pool and hands it to the caller.
    /// Every later entry moves one index down.
    pub fn remove(&mut self, index: usize) -> (entry: Option<NvTexture<R>>)
        ensures
            final(self).layout() == old(self).layout(),
            index < old(self).textures().len() ==> entry == Some(
                old(self).textures()[index as int],
            ) && final(self).textures() == old(self).textures().remove(index as int),
            index >= old(self).textures().len() ==> entry is None && final(self).textures()
                == old(self).textures(),
    {
        if index < self.textures.len() {
            Some(self.textures.remove(index))
        } else {
            None
        }
    }
}

} // verus!
