//! The ordered registry of asset names.

use vstd::prelude::*;
use crate::assets::AssetType;

verus! {

/// One named asset and the bundle it was registered in.
pub struct Asset {
    pub file_name: String,
    pub bundle_id: usize,
}

/// Assets of one type, in the order in which they were registered.
pub struct AssetBundle {
    pub assets: Vec<Asset>,
    pub bundle_type: AssetType,
    pub bundle_id: usize,
}

impl AssetBundle {
    /// The file names of the bundle, in registration order.
    pub open spec fn names(&self) -> Seq<Seq<char>> {
        Seq::new(self.assets@.len(), |i: int| self.assets@[i].file_name@)
    }

    /// Every asset carries the id of the bundle that holds it.
    pub open spec fn wf(&self) -> bool {
        forall|i: int|
            0 <= i < self.assets@.len() ==> (#[trigger] self.assets@[i]).bundle_id
                == self.bundle_id
    }

    /// An empty bundle.
    pub fn new(bundle_type: AssetType, bundle_id: usize) -> (bundle: Self)
        ensures
            bundle.assets@.len() == 0,
            bundle.bundle_type == bundle_type,
            bundle.bundle_id == bundle_id,
            bundle.wf(),
    {
        AssetBundle { assets: Vec::new(), bundle_type, bundle_id }
    }

    /// Appends an asset and returns its index, which is the number of assets
    /// registered before it.
    pub fn register(&mut self, asset_name: &str) -> (asset_id: usize)
        requires
            old(self).wf(),
        ensures
            asset_id == old(self).assets@.len(),
            final(self).names() == old(self).names().push(asset_name@),
            final(self).assets@.len() == old(self).assets@.len() + 1,
            forall|i: int|
                0 <= i < old(self).assets@.len() ==> final(self).assets@[i] == old(self).assets@[i],
            final(self).bundle_type == old(self).bundle_type,
            final(self).bundle_id == old(self).bundle_id,
            final(self).wf(),
    {
        let asset_id = self.assets.len();
        self.assets.push(Asset { file_name: asset_name.to_owned(), bundle_id: self.bundle_id });
        assert(self.names() =~= old(self).names().push(asset_name@));
        asset_id
    }

    /// Removes the asset at `id`; every later asset moves one index down.
    pub fn unregister(&mut self, id: usize)
        requires
            old(self).wf(),
            id < old(self).assets@.len(),
        ensures
            final(self).assets@ == old(self).assets@.remove(id as int),
            final(self).names() == old(self).names().remove(id as int),
            final(self).bundle_type == old(self).bundle_type,
            final(self).bundle_id == old(self).bundle_id,
            final(self).wf(),
    {
        let _ = self.assets.remove(id);
        assert(self.names() =~= old(self).names().remove(id as int));
    }
}

/// Owns every bundle; a bundle's id is its index here.
pub struct AssetManager {
    asset_bundles: Vec<AssetBundle>,
}

impl AssetManager {
    /// The bundles, in creation order.
    pub closed spec fn bundles(&self) -> Seq<AssetBundle> {
        self.asset_bundles@
    }

    /// Bundle `i` has id `i`.
    pub open spec fn wf(&self) -> bool {
        forall|i: int|
            0 <= i < self.bundles().len() ==> (#[trigger] self.bundles()[i]).bundle_id == i
    }

    /// A manager without bundles.
    pub fn new() -> (manager: AssetManager)
        ensures
            manager.bundles().len() == 0,
            manager.wf(),
    {
        AssetManager { asset_bundles: Vec::new() }
    }

    /// Creates an empty bundle of the given type, with the next free id, and
    /// hands it out for filling.
    pub fn create_bundle(&mut self, pool_type: AssetType) -> (bundle: &mut AssetBundle)
        requires
            old(self).wf(),
        ensures
            bundle.assets@.len() == 0,
            bundle.bundle_type == pool_type,
            bundle.bundle_id == old(self).bundles().len(),
            bundle.wf(),
            final(self).bundles() == old(self).bundles().push(*final(bundle)),
    {
        let id = self.asset_bundles.len();
        self.asset_bundles.push(AssetBundle::new(pool_type, id));
        &mut self.asset_bundles[id]
    }
}

} // verus!
