//! GitHub releases and the choice of the asset to download from one.
use vstd::prelude::*;
use crate::text::{chars_equal, chars_of, contains_chars, contains_seq, ends_with_chars, ends_with_seq};

verus! {

/// A GitHub release: its tag and downloadable assets.
pub struct Release {
    pub tag_name: String,
    pub assets: Vec<Asset>,
}

/// A downloadable asset of a release.
pub struct Asset {
    pub name: String,
    pub browser_download_url: String,
}

/// Whether `i` is the first index of `assets` that `p` accepts.
pub open spec fn is_first_match(assets: Seq<Asset>, p: spec_fn(Asset) -> bool, i: int) -> bool {
    &&& 0 <= i < assets.len()
    &&& p(assets[i])
    &&& forall|j: int| 0 <= j < i ==> !p(#[trigger] assets[j])
}

/// Whether an asset is named `name`.
pub open spec fn named(name: Seq<char>) -> spec_fn(Asset) -> bool {
    |a: Asset| a.name@ == name
}

/// Whether an asset is the Windows shared FFmpeg build archive.
pub open spec fn is_shared_build(a: Asset) -> bool {
    contains_seq(a.name@, "win64-lgpl-shared"@) && ends_with_seq(a.name@, ".zip"@)
}

/// The first asset named `name`, if any.
pub fn find_asset_named<'a>(release: &'a Release, name: &str) -> (r: Option<&'a Asset>)
    ensures
        match r {
            Some(a) => exists|i: int|
                is_first_match(release.assets@, named(name@), i) && *a == release.assets@[i],
            None => forall|i: int|
                0 <= i < release.assets@.len() ==> !named(name@)(#[trigger] release.assets@[i]),
        },
{
    let target = chars_of(name);
    let mut i: usize = 0;
    while i < release.assets.len()
        invariant
            i <= release.assets.len(),
            target@ == name@,
            forall|j: int| 0 <= j < i ==> !named(name@)(#[trigger] release.assets@[j]),
        decreases release.assets.len() - i,
    {
        let a = &release.assets[i];
        if chars_equal(&chars_of(a.name.as_str()), &target) {
            assert(is_first_match(release.assets@, named(name@), i as int));
            return Some(a);
        }
        i = i + 1;
    }
    None
}

/// The first asset that is the Windows shared FFmpeg build, if any.
pub fn find_shared_build_asset<'a>(release: &'a Release) -> (r: Option<&'a Asset>)
    ensures
        match r {
            Some(a) => exists|i: int|
                is_first_match(release.assets@, |a: Asset| is_shared_build(a), i) && *a
                    == release.assets@[i],
            None => forall|i: int|
                0 <= i < release.assets@.len() ==> !is_shared_build(#[trigger] release.assets@[i]),
        },
{
    let mut i: usize = 0;
    while i < release.assets.len()
        invariant
            i <= release.assets.len(),
            forall|j: int| 0 <= j < i ==> !is_shared_build(#[trigger] release.assets@[j]),
        decreases release.assets.len() - i,
    {
        let a = &release.assets[i];
        let v = chars_of(a.name.as_str());
        if contains_chars(&v, "win64-lgpl-shared") && ends_with_chars(&v, ".zip") {
            assert(is_first_match(release.assets@, |a: Asset| is_shared_build(a), i as int));
            return Some(a);
        }
        i = i + 1;
    }
    None
}

} // verus!
