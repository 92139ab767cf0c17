//! Releases, their assets, and exact asset-name matching.

use vstd::prelude::*;

verus! {

/// One downloadable file attached to a release.
pub struct AssetDescriptor {
    /// The asset's file name, matched byte-for-byte against the expected name.
    pub name: String,
    /// Where the asset can be fetched from.
    pub download_url: String,
}

/// A published release: a version string and its attached assets, in the
/// order the release source lists them.
pub struct ReleaseDescriptor {
    pub version: String,
    pub assets: Vec<AssetDescriptor>,
}

/// Whether some asset carries exactly the name `name`.
pub open spec fn has_asset(assets: Seq<AssetDescriptor>, name: Seq<char>) -> bool {
    exists|i: int| 0 <= i < assets.len() && assets[i].name@ == name
}

/// Index of the first asset named exactly `name`, if any.
pub fn find_asset(assets: &Vec<AssetDescriptor>, name: &String) -> (r: Option<usize>)
    ensures
        match r {
            Some(i) => i < assets@.len() && assets@[i as int].name@ == name@ && (forall|j: int|
                0 <= j < i ==> assets@[j].name@ != name@),
            None => !has_asset(assets@, name@),
        },
{
    let mut i: usize = 0;
    while i < assets.len()
        invariant
            i <= assets@.len(),
            forall|j: int| 0 <= j < i ==> assets@[j].name@ != name@,
        decreases assets@.len() - i,
    {
        if assets[i].name == *name {
            return Some(i);
        }
        i += 1;
    }
    None
}

} // verus!
