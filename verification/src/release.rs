//! Releases as the feed hands them over, and the search for the asset that
//! holds the build for a platform.

use vstd::prelude::*;
use crate::model;
use crate::model::{AssetView, ReleaseView};
use crate::platform::ArchiveFormat;

verus! {

/// A downloadable file of a release.
#[derive(Debug, PartialEq, Eq)]
pub struct Asset {
    pub name: String,
    pub download_url: String,
}

/// A published release.
#[derive(Debug, PartialEq, Eq)]
pub struct Release {
    pub version: String,
    pub assets: Vec<Asset>,
}

impl View for Asset {
    type V = AssetView;

    open spec fn view(&self) -> AssetView {
        AssetView { name: self.name@, download_url: self.download_url@ }
    }
}

impl View for Release {
    type V = ReleaseView;

    open spec fn view(&self) -> ReleaseView {
        ReleaseView { version: self.version@, assets: assets_view(self.assets@) }
    }
}

/// The assets of a release as the model sees them, in the same order.
pub open spec fn assets_view(assets: Seq<Asset>) -> Seq<AssetView> {
    Seq::new(assets.len(), |i: int| assets[i]@)
}

/// The name of the asset that holds the build with the given suffix.
pub fn asset_name(suffix: &str, format: ArchiveFormat) -> (name: String)
    ensures
        name@ == model::asset_name(suffix@, format),
{
    let mut name = "curry-language-server-".to_owned();
    name.append(suffix);
    name.append(format.extension());
    name
}

/// The directory into which a version is extracted.
pub fn version_dir(version: &str) -> (directory: String)
    ensures
        directory@ == model::version_dir(version@),
{
    let mut directory = "curry-language-server-".to_owned();
    directory.append(version);
    directory
}

impl Release {
    /// The position of the first asset that bears exactly the given name.
    pub fn find_asset(&self, name: &String) -> (found: Option<usize>)
        ensures
            match found {
                Some(i) => {
                    &&& i < self.assets.len()
                    &&& self.assets[i as int].name@ == name@
                    &&& forall|j: int| 0 <= j < i ==> self.assets[j].name@ != name@
                    &&& model::find_asset(self@.assets, name@) == Some(self.assets[i as int]@)
                },
                None => {
                    &&& forall|j: int| 0 <= j < self.assets.len() ==> self.assets[j].name@ != name@
                    &&& model::find_asset(self@.assets, name@) is None
                },
            },
    {
        let ghost all = self@.assets;
        let mut i: usize = 0;
        assert(all.skip(0) =~= all);
        while i < self.assets.len()
            invariant
                i <= self.assets.len(),
                all == assets_view(self.assets@),
                forall|j: int| 0 <= j < i ==> self.assets[j].name@ != name@,
                model::find_asset(all, name@) == model::find_asset(all.skip(i as int), name@),
            decreases self.assets.len() - i,
        {
            proof {
                let rest = all.skip(i as int);
                assert(rest[0] == self.assets[i as int]@);
                assert(rest.drop_first() =~= all.skip(i + 1));
            }
            if self.assets[i].name == *name {
                return Some(i);
            }
            i += 1;
        }
        assert(all.skip(i as int).len() == 0);
        None
    }
}

} // verus!
