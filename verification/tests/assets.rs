use nivalis::assets::manager::{AssetBundle, AssetManager};
use nivalis::assets::model::{NvModel, NvModelPool};
use nivalis::assets::{
    plan_upload, AssetType, NvTexture, NvTexturePool, PoolError, TextureUpload, UploadError,
    BYTES_PER_PIXEL,
};
use nivalis::context::TextureFormat;
use nivalis::layout::LayoutTag;

fn names(bundle: &AssetBundle) -> Vec<String> {
    bundle.assets.iter().map(|a| a.file_name.clone()).collect()
}

#[test]
fn new_bundle_is_empty() {
    let bundle = AssetBundle::new(AssetType::Texture, 3);
    assert!(bundle.assets.is_empty());
    assert_eq!(bundle.bundle_type, AssetType::Texture);
    assert_eq!(bundle.bundle_id, 3);
}

#[test]
fn register_returns_consecutive_indices() {
    let mut bundle = AssetBundle::new(AssetType::Texture, 0);
    assert_eq!(bundle.register("cat.png"), 0);
    assert_eq!(bundle.register("eyyab.webp"), 1);
    assert_eq!(bundle.register("idiot.png"), 2);
    assert_eq!(names(&bundle), vec!["cat.png", "eyyab.webp", "idiot.png"]);
}

#[test]
fn registered_assets_carry_the_bundle_id() {
    let mut bundle = AssetBundle::new(AssetType::Model, 7);
    bundle.register("a.gltf");
    bundle.register("b.gltf");
    assert!(bundle.assets.iter().all(|a| a.bundle_id == 7));
}

#[test]
fn register_accepts_the_same_name_twice() {
    let mut bundle = AssetBundle::new(AssetType::Texture, 0);
    assert_eq!(bundle.register("cat.png"), 0);
    assert_eq!(bundle.register("cat.png"), 1);
    assert_eq!(bundle.assets.len(), 2);
}

#[test]
fn unregister_shifts_later_assets_down() {
    let mut bundle = AssetBundle::new(AssetType::Texture, 0);
    bundle.register("a");
    bundle.register("b");
    bundle.register("c");
    bundle.unregister(0);
    assert_eq!(names(&bundle), vec!["b", "c"]);
    bundle.unregister(1);
    assert_eq!(names(&bundle), vec!["b"]);
    assert_eq!(bundle.register("d"), 1);
}

#[test]
fn create_bundle_numbers_bundles_in_order() {
    let mut manager = AssetManager::new();
    {
        let first = manager.create_bundle(AssetType::Texture);
        assert_eq!(first.bundle_id, 0);
        assert_eq!(first.bundle_type, AssetType::Texture);
        assert!(first.assets.is_empty());
        first.register("cat.png");
    }
    let second = manager.create_bundle(AssetType::Model);
    assert_eq!(second.bundle_id, 1);
    assert_eq!(second.bundle_type, AssetType::Model);
    assert!(second.assets.is_empty());
}

#[test]
fn upload_of_an_image_is_four_bytes_a_pixel() {
    assert_eq!(BYTES_PER_PIXEL, 4);
    assert_eq!(
        plan_upload(640, 480, 640 * 480 * 4),
        Ok(TextureUpload {
            format: TextureFormat::Rgba8UnormSrgb,
            width: 640,
            height: 480,
            bytes_per_row: 2560,
            rows_per_image: 480,
            byte_len: 1_228_800,
        })
    );
    assert_eq!(
        plan_upload(1, 1, 4),
        Ok(TextureUpload {
            format: TextureFormat::Rgba8UnormSrgb,
            width: 1,
            height: 1,
            bytes_per_row: 4,
            rows_per_image: 1,
            byte_len: 4,
        })
    );
}

#[test]
fn upload_of_an_empty_image_is_refused() {
    assert_eq!(plan_upload(0, 480, 0), Err(UploadError::EmptyImage));
    assert_eq!(plan_upload(640, 0, 0), Err(UploadError::EmptyImage));
    assert_eq!(plan_upload(0, 0, 16), Err(UploadError::EmptyImage));
}

#[test]
fn upload_of_a_too_wide_image_is_refused() {
    assert_eq!(
        plan_upload(u32::MAX / 4 + 1, 1, 4),
        Err(UploadError::RowTooLong)
    );
    assert_eq!(plan_upload(u32::MAX, 1, 0), Err(UploadError::RowTooLong));
    assert_eq!(
        plan_upload(u32::MAX / 4, 1, 1),
        Err(UploadError::WrongLength)
    );
}

#[test]
fn upload_with_the_wrong_data_length_is_refused() {
    assert_eq!(plan_upload(2, 2, 15), Err(UploadError::WrongLength));
    assert_eq!(plan_upload(2, 2, 17), Err(UploadError::WrongLength));
    assert_eq!(plan_upload(2, 2, 0), Err(UploadError::WrongLength));
    assert!(plan_upload(2, 2, 16).is_ok());
}

#[test]
fn texture_keeps_name_size_and_resource() {
    let upload = plan_upload(3, 5, 60).unwrap();
    let texture = NvTexture::from_name("cat.png", &upload, 42u32);
    assert_eq!(texture.get_name(), "cat.png");
    assert_eq!(texture.width(), 3);
    assert_eq!(texture.height(), 5);
    assert_eq!(*texture.get_resource(), 42);
}

fn three_textures() -> AssetBundle {
    let mut bundle = AssetBundle::new(AssetType::Texture, 0);
    bundle.register("cat.png");
    bundle.register("eyyab.webp");
    bundle.register("idiot.png");
    bundle
}

#[test]
fn pool_follows_the_order_of_the_bundle() {
    let bundle = three_textures();
    let uploads = vec![
        (plan_upload(1, 1, 4).unwrap(), 10u32),
        (plan_upload(2, 1, 8).unwrap(), 20u32),
        (plan_upload(3, 1, 12).unwrap(), 30u32),
    ];
    let pool = NvTexturePool::build(LayoutTag::TextureSampler, &bundle, uploads)
        .ok()
        .unwrap();
    assert_eq!(pool.count(), 3);
    assert_eq!(pool.get_layout(), LayoutTag::TextureSampler);
    let expected = [("cat.png", 1, 10), ("eyyab.webp", 2, 20), ("idiot.png", 3, 30)];
    for (i, (name, width, resource)) in expected.iter().enumerate() {
        let entry = pool.get(i).unwrap();
        assert_eq!(entry.get_name(), *name);
        assert_eq!(entry.width(), *width);
        assert_eq!(entry.height(), 1);
        assert_eq!(*entry.get_resource(), *resource);
    }
    assert!(pool.get(3).is_none());
}

#[test]
fn pool_of_an_empty_bundle_is_empty() {
    let bundle = AssetBundle::new(AssetType::Texture, 0);
    let pool = NvTexturePool::<u32>::build(LayoutTag::TextureSampler, &bundle, Vec::new())
        .ok()
        .unwrap();
    assert_eq!(pool.count(), 0);
    assert!(pool.get(0).is_none());
}

#[test]
fn pool_needs_one_upload_for_each_asset() {
    let bundle = three_textures();
    let uploads = vec![(plan_upload(1, 1, 4).unwrap(), 10u32)];
    assert_eq!(
        NvTexturePool::build(LayoutTag::TextureSampler, &bundle, uploads).err(),
        Some(PoolError::CountMismatch)
    );
    let none = AssetBundle::new(AssetType::Texture, 0);
    let uploads = vec![(plan_upload(1, 1, 4).unwrap(), 10u32)];
    assert_eq!(
        NvTexturePool::build(LayoutTag::TextureSampler, &none, uploads).err(),
        Some(PoolError::CountMismatch)
    );
}

#[test]
fn pool_is_not_built_from_models() {
    let mut bundle = AssetBundle::new(AssetType::Model, 0);
    bundle.register("scene.gltf");
    let uploads = vec![(plan_upload(1, 1, 4).unwrap(), 10u32)];
    assert_eq!(
        NvTexturePool::build(LayoutTag::TextureSampler, &bundle, uploads).err(),
        Some(PoolError::NotTextures)
    );
    assert_eq!(
        NvTexturePool::<u32>::build(LayoutTag::TextureSampler, &bundle, Vec::new()).err(),
        Some(PoolError::NotTextures)
    );
}

#[test]
fn removing_a_pool_entry_shifts_later_entries() {
    let bundle = three_textures();
    let uploads = vec![
        (plan_upload(1, 1, 4).unwrap(), 10u32),
        (plan_upload(2, 1, 8).unwrap(), 20u32),
        (plan_upload(3, 1, 12).unwrap(), 30u32),
    ];
    let mut pool = NvTexturePool::build(LayoutTag::TextureSampler, &bundle, uploads)
        .ok()
        .unwrap();
    let removed = pool.remove(0).unwrap();
    assert_eq!(removed.get_name(), "cat.png");
    assert_eq!(pool.count(), 2);
    assert_eq!(pool.get(0).unwrap().get_name(), "eyyab.webp");
    assert_eq!(pool.get(1).unwrap().get_name(), "idiot.png");
    assert!(pool.remove(2).is_none());
    assert_eq!(pool.count(), 2);
}

#[test]
fn new_pool_has_no_entries() {
    let pool = NvTexturePool::<u8>::new(LayoutTag::TextureSampler);
    assert_eq!(pool.count(), 0);
    assert!(pool.get(0).is_none());
}

#[test]
fn model_pool_holds_models() {
    let pool = NvModelPool {
        textures: vec![NvModel {
            buffers: vec![vec![1, 2, 3], vec![]],
        }],
        layout: LayoutTag::TextureSampler,
    };
    assert_eq!(pool.textures[0].buffers[0], vec![1, 2, 3]);
    assert_eq!(pool.textures[0].buffers.len(), 2);
}
