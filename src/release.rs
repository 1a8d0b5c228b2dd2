//! Release metadata, asset lookup and install paths.
use vstd::prelude::*;

verus! {

/// One named downloadable file attached to a release.
#[derive(Clone, Debug)]
pub struct Asset {
    pub name: String,
    pub download_url: String,
}

/// A versioned publication of downloadable assets.
#[derive(Clone, Debug)]
pub struct Release {
    pub version: String,
    pub assets: Vec<Asset>,
}

/// Whether some asset is named `name`.
pub open spec fn has_asset(assets: Seq<Asset>, name: Seq<char>) -> bool {
    exists|i: int| 0 <= i < assets.len() && (#[trigger] assets[i]).name@ == name
}

/// The file name under which version `version` of `tool` is installed.
pub open spec fn install_path_of(tool: Seq<char>, version: Seq<char>) -> Seq<char> {
    tool + "_"@ + version
}

/// The index of the first asset named `name`; meaningful where
/// `has_asset(assets, name)`.
pub open spec fn first_named(assets: Seq<Asset>, name: Seq<char>) -> int {
    choose|i: int|
        0 <= i < assets.len() && (#[trigger] assets[i]).name@ == name && forall|j: int|
            0 <= j < i ==> (#[trigger] assets[j]).name@ != name
}

/// The download address of the first asset named `name`.
pub open spec fn url_of(assets: Seq<Asset>, name: Seq<char>) -> Seq<char> {
    assets[first_named(assets, name)].download_url@
}

/// Finds the first asset whose name equals `name` exactly.
pub fn find_asset(assets: &Vec<Asset>, name: &String) -> (r: Option<usize>)
    ensures
        r is None <==> !has_asset(assets@, name@),
        r matches Some(i) ==> i < assets@.len() && assets@[i as int].name@ == name@
            && forall|j: int| 0 <= j < i ==> (#[trigger] assets@[j]).name@ != name@,
        r matches Some(i) ==> i == first_named(assets@, name@),
{
    let mut i: usize = 0;
    while i < assets.len()
        invariant
            i <= assets@.len(),
            forall|j: int| 0 <= j < i ==> (#[trigger] assets@[j]).name@ != name@,
        decreases assets@.len() - i,
    {
        if assets[i].name == *name {
            proof {
                let k = first_named(assets@, name@);
                assert(0 <= k < assets@.len() && assets@[k].name@ == name@ && forall|j: int|
                    0 <= j < k ==> (#[trigger] assets@[j]).name@ != name@);
                if k < i {
                    assert(assets@[k].name@ != name@);
                } else if k > i {
                    assert(assets@[i as int].name@ != name@);
                }
            }
            return Some(i);
        }
        i = i + 1;
    }
    None
}

/// Builds the file name `<tool>_<version>` under which a version is installed.
pub fn install_path_for(tool: &str, version: &str) -> (r: String)
    ensures
        r@ == install_path_of(tool@, version@),
{
    proof {
        reveal_strlit("_");
    }
    let mut r = String::from_str(tool);
    r.append("_");
    r.append(version);
    r
}

} // verus!
