//! Releases of the tool and selection of the platform's asset.

use vstd::prelude::*;

verus! {

/// One downloadable file attached to a release.
pub struct Asset {
    pub name: String,
    pub download_url: String,
}

/// A tagged, versioned publication of the tool with its downloadable assets.
///
/// Produced by the host's release-index lookup; immutable once fetched.
pub struct Release {
    pub version: String,
    pub assets: Vec<Asset>,
}

/// Some asset in the list carries exactly the expected file name.
pub open spec fn has_asset(assets: Seq<Asset>, name: Seq<char>) -> bool {
    exists|i: int| 0 <= i < assets.len() && assets[i].name@ == name
}

/// Position `i` holds the first asset whose name is exactly `name`.
pub open spec fn is_first_asset_match(assets: Seq<Asset>, name: Seq<char>, i: int) -> bool {
    &&& 0 <= i < assets.len()
    &&& assets[i].name@ == name
    &&& forall|j: int| 0 <= j < i ==> assets[j].name@ != name
}

/// Picks the first asset whose name equals `expected`, by exact string
/// comparison; reports `None` when no asset matches.
pub fn select_asset(assets: &Vec<Asset>, expected: &String) -> (r: Option<usize>)
    ensures
        match r {
            Some(i) => is_first_asset_match(assets@, expected@, i as int),
            None => !has_asset(assets@, expected@),
        },
{
    let mut i: usize = 0;
    while i < assets.len()
        invariant
            i <= assets@.len(),
            forall|j: int| 0 <= j < i ==> assets@[j].name@ != expected@,
        decreases assets@.len() - i,
    {
        if assets[i].name == *expected {
            return Some(i);
        }
        i += 1;
    }
    None
}

} // verus!
