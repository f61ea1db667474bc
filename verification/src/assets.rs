//! Choosing the Windows binary among the assets of a release, and its
//! checksum companion.
use vstd::prelude::*;

use crate::github::ReleaseAsset;
use crate::text::{
    ascii_lower, concat2, contains, ends_with, has_infix, has_suffix, is_ascii_text, lowercase_of,
    str_eq, to_lowercase,
};

verus! {

/// Checksum files are never installed.
pub open spec fn is_checksum_name(n: Seq<char>) -> bool {
    has_suffix(n, ".sha256"@) || has_suffix(n, ".sha256sum"@) || has_suffix(n, ".md5"@)
}

/// Points for the file type of a lower-cased asset name.
pub open spec fn extension_score(n: Seq<char>) -> int {
    if has_suffix(n, ".exe"@) {
        4
    } else if has_suffix(n, ".msi"@) {
        3
    } else if has_suffix(n, ".zip"@) {
        2
    } else {
        0
    }
}

/// Points for the platform words of a lower-cased asset name.
pub open spec fn platform_score(n: Seq<char>) -> int {
    (if has_infix(n, "windows"@) || has_infix(n, "win"@) {
        6int
    } else {
        0int
    }) + (if has_infix(n, "x86_64"@) || has_infix(n, "x64"@) || has_infix(n, "amd64"@) {
        8int
    } else {
        0int
    }) + (if has_infix(n, "linux"@) || has_infix(n, "darwin"@) || has_infix(n, "macos"@)
        || has_infix(n, "mac-"@) {
        -20int
    } else {
        0int
    })
}

/// How much a lower-cased asset name looks like a Windows binary.
pub open spec fn name_score(n: Seq<char>) -> int {
    extension_score(n) + platform_score(n)
}

/// The score of an asset, computed on its lower-cased name.
pub open spec fn asset_score(a: ReleaseAsset) -> int {
    name_score(lowercase_of(a.name@))
}

/// An asset that may be installed: not a checksum and scoring above -10.
pub open spec fn is_candidate(a: ReleaseAsset) -> bool {
    !is_checksum_name(a.name@) && asset_score(a) > -10
}

/// Index of the candidate with the highest score, the last one among equals
/// (the element that `Iterator::max_by_key` returns).
pub open spec fn best_asset(assets: Seq<ReleaseAsset>) -> Option<int>
    decreases assets.len(),
{
    if assets.len() == 0 {
        None
    } else {
        let i = assets.len() - 1;
        let b = best_asset(assets.subrange(0, i));
        if is_candidate(assets[i]) && (b is None || asset_score(assets[i]) >= asset_score(
            assets[b->0],
        )) {
            Some(i)
        } else {
            b
        }
    }
}

/// What the choice is: a candidate that no candidate outscores, and that
/// every later candidate scores strictly below; none only when no asset is
/// a candidate.
pub open spec fn is_best_choice(assets: Seq<ReleaseAsset>, r: Option<int>) -> bool {
    match r {
        Some(i) => {
            &&& 0 <= i < assets.len()
            &&& is_candidate(assets[i])
            &&& forall|j: int|
                0 <= j < assets.len() && is_candidate(#[trigger] assets[j]) ==> asset_score(
                    assets[j],
                ) <= asset_score(assets[i])
            &&& forall|j: int|
                i < j < assets.len() && is_candidate(#[trigger] assets[j]) ==> asset_score(
                    assets[j],
                ) < asset_score(assets[i])
        },
        None => forall|j: int| 0 <= j < assets.len() ==> !is_candidate(#[trigger] assets[j]),
    }
}

/// The chosen asset is the highest-scoring candidate, the last among equals,
/// and there is none exactly when no asset is a candidate.
pub proof fn lemma_best_asset_is_best(assets: Seq<ReleaseAsset>)
    ensures
        is_best_choice(assets, best_asset(assets)),
    decreases assets.len(),
{
    if assets.len() > 0 {
        let i = assets.len() - 1;
        let prefix = assets.subrange(0, i);
        lemma_best_asset_is_best(prefix);
        assert forall|j: int| 0 <= j < i implies #[trigger] prefix[j] == assets[j] by {}
        let b = best_asset(prefix);
        if is_candidate(assets[i]) && (b is None || asset_score(assets[i]) >= asset_score(
            assets[b->0],
        )) {
            assert(best_asset(assets) == Some(i));
            assert forall|j: int|
                0 <= j < assets.len() && is_candidate(#[trigger] assets[j]) implies asset_score(
                assets[j],
            ) <= asset_score(assets[i]) by {
                if j < i {
                    assert(is_candidate(prefix[j]));
                }
            }
        } else {
            assert(best_asset(assets) == b);
            match b {
                Some(k) => {
                    assert forall|j: int|
                        0 <= j < assets.len() && is_candidate(#[trigger] assets[j]) implies asset_score(
                        assets[j],
                    ) <= asset_score(assets[k]) by {
                        if j < i {
                            assert(is_candidate(prefix[j]));
                        }
                    }
                    assert forall|j: int|
                        k < j < assets.len() && is_candidate(#[trigger] assets[j]) implies asset_score(
                        assets[j],
                    ) < asset_score(assets[k]) by {
                        if j < i {
                            assert(is_candidate(prefix[j]));
                        }
                    }
                },
                None => {
                    assert forall|j: int| 0 <= j < assets.len() implies !is_candidate(
                        #[trigger] assets[j],
                    ) by {
                        if j < i {
                            assert(!is_candidate(prefix[j]));
                        }
                    }
                },
            }
        }
    }
}

/// A copy of an asset.
pub fn copy_asset(a: &ReleaseAsset) -> (r: ReleaseAsset)
    ensures
        r == *a,
{
    ReleaseAsset {
        name: a.name.clone(),
        browser_download_url: a.browser_download_url.clone(),
        size: a.size,
    }
}

/// Whether a name ends like a checksum file.
pub fn is_checksum(n: &str) -> (r: bool)
    ensures
        r == is_checksum_name(n@),
{
    ends_with(n, ".sha256") || ends_with(n, ".sha256sum") || ends_with(n, ".md5")
}

/// The score of a lower-cased asset name.
pub fn score_name(n: &str) -> (s: i32)
    ensures
        s as int == name_score(n@),
{
    let mut score: i32 = 0;
    if ends_with(n, ".exe") {
        score = score + 4;
    } else if ends_with(n, ".msi") {
        score = score + 3;
    } else if ends_with(n, ".zip") {
        score = score + 2;
    }
    if contains(n, "windows") || contains(n, "win") {
        score = score + 6;
    }
    if contains(n, "x86_64") || contains(n, "x64") || contains(n, "amd64") {
        score = score + 8;
    }
    if contains(n, "linux") || contains(n, "darwin") || contains(n, "macos") || contains(
        n,
        "mac-",
    ) {
        score = score - 20;
    }
    score
}

/// For a name in ASCII that is not a checksum file, the score is that of
/// its ASCII lowercase.
pub open spec fn ascii_scored(a: ReleaseAsset) -> bool {
    !is_checksum_name(a.name@) && is_ascii_text(a.name@) ==> asset_score(a) == name_score(
        ascii_lower(a.name@),
    )
}

/// Index of the asset to install (see `best_asset`); the names in ASCII are
/// scored on their ASCII lowercase.
pub fn pick_windows_asset_index(assets: &[ReleaseAsset]) -> (r: Option<usize>)
    ensures
        match r {
            Some(i) => best_asset(assets@) == Some(i as int),
            None => best_asset(assets@) is None,
        },
        forall|j: int| 0 <= j < assets@.len() ==> ascii_scored(#[trigger] assets@[j]),
{
    let mut best: Option<usize> = None;
    let mut best_score: i32 = 0;
    let mut i: usize = 0;
    while i < assets.len()
        invariant
            i <= assets.len(),
            match best {
                Some(b) => best_asset(assets@.subrange(0, i as int)) == Some(b as int) && b < i
                    && best_score as int == asset_score(assets@[b as int]),
                None => best_asset(assets@.subrange(0, i as int)) is None,
            },
            forall|j: int| 0 <= j < i ==> ascii_scored(#[trigger] assets@[j]),
        decreases assets.len() - i,
    {
        let ghost prefix = assets@.subrange(0, i + 1);
        assert(prefix.subrange(0, i as int) =~= assets@.subrange(0, i as int));
        assert(prefix[i as int] == assets@[i as int]);
        let a = &assets[i];
        if !is_checksum(a.name.as_str()) {
            let lower = to_lowercase(a.name.as_str());
            let score = score_name(lower.as_str());
            if score > -10 {
                let better = match best {
                    None => true,
                    Some(_) => score >= best_score,
                };
                if better {
                    best = Some(i);
                    best_score = score;
                }
            }
        }
        i = i + 1;
    }
    assert(assets@.subrange(0, assets.len() as int) =~= assets@);
    best
}

/// The asset to install from a release (`None` when nothing qualifies);
/// the names in ASCII are scored on their ASCII lowercase.
pub fn pick_windows_asset(assets: &[ReleaseAsset]) -> (r: Option<&ReleaseAsset>)
    ensures
        match best_asset(assets@) {
            Some(i) => r == Some(&assets@[i]),
            None => r is None,
        },
        forall|j: int| 0 <= j < assets@.len() ==> ascii_scored(#[trigger] assets@[j]),
{
    proof {
        lemma_best_asset_is_best(assets@);
    }
    match pick_windows_asset_index(assets) {
        Some(i) => Some(&assets[i]),
        None => None,
    }
}

/// `n` is the name of a checksum file for the asset called `asset`.
pub open spec fn is_checksum_for(n: Seq<char>, asset: Seq<char>) -> bool {
    n == asset + ".sha256"@ || n == asset + ".sha256sum"@
}

/// Finds the checksum file (`<asset>.sha256` or `<asset>.sha256sum`) of an asset.
pub fn find_checksum_asset(assets: &[ReleaseAsset], asset: &str) -> (r: Option<usize>)
    ensures
        match r {
            Some(j) => j < assets@.len() && is_checksum_for(assets@[j as int].name@, asset@)
                && forall|k: int|
                0 <= k < j ==> !is_checksum_for(#[trigger] assets@[k].name@, asset@),
            None => forall|k: int|
                0 <= k < assets@.len() ==> !is_checksum_for(#[trigger] assets@[k].name@, asset@),
        },
{
    let a = concat2(asset, ".sha256");
    let b = concat2(asset, ".sha256sum");
    let mut i: usize = 0;
    while i < assets.len()
        invariant
            i <= assets.len(),
            a@ == asset@ + ".sha256"@,
            b@ == asset@ + ".sha256sum"@,
            forall|k: int| 0 <= k < i ==> !is_checksum_for(#[trigger] assets@[k].name@, asset@),
        decreases assets.len() - i,
    {
        let n = assets[i].name.as_str();
        if str_eq(n, a.as_str()) || str_eq(n, b.as_str()) {
            return Some(i);
        }
        i = i + 1;
    }
    None
}


/// The flags a name is scored on besides the x86-64 words: its file type
/// and its Windows and other-platform words.
pub open spec fn same_other_words(a: Seq<char>, b: Seq<char>) -> bool {
    &&& has_suffix(a, ".exe"@) == has_suffix(b, ".exe"@)
    &&& has_suffix(a, ".msi"@) == has_suffix(b, ".msi"@)
    &&& has_suffix(a, ".zip"@) == has_suffix(b, ".zip"@)
    &&& (has_infix(a, "windows"@) || has_infix(a, "win"@)) == (has_infix(b, "windows"@) || has_infix(
        b,
        "win"@,
    ))
    &&& (has_infix(a, "linux"@) || has_infix(a, "darwin"@) || has_infix(a, "macos"@) || has_infix(
        a,
        "mac-"@,
    )) == (has_infix(b, "linux"@) || has_infix(b, "darwin"@) || has_infix(b, "macos"@)
        || has_infix(b, "mac-"@))
}

/// Each of `x86_64`, `x64` and `amd64` marks an x86-64 build: of two names
/// alike in everything else, the one with such a word scores exactly 8
/// more than the one without.
pub proof fn law_x86_64_words_add_eight(a: Seq<char>, b: Seq<char>)
    requires
        same_other_words(a, b),
        has_infix(a, "x86_64"@) || has_infix(a, "x64"@) || has_infix(a, "amd64"@),
        !has_infix(b, "x86_64"@) && !has_infix(b, "x64"@) && !has_infix(b, "amd64"@),
    ensures
        name_score(a) == name_score(b) + 8,
{
}

/// The points of a lower-cased name: 4, 3 or 2 for an `.exe`, `.msi` or
/// `.zip` file, 6 for a Windows word, 8 for an x86-64 word (`x86_64`, `x64`
/// or `amd64`), and 20 less for another platform's word; an asset is a
/// candidate above -10.
pub proof fn law_name_score_points(n: Seq<char>)
    ensures
        name_score(n) == (if has_suffix(n, ".exe"@) {
            4int
        } else if has_suffix(n, ".msi"@) {
            3int
        } else if has_suffix(n, ".zip"@) {
            2int
        } else {
            0int
        }) + (if has_infix(n, "windows"@) || has_infix(n, "win"@) {
            6int
        } else {
            0int
        }) + (if has_infix(n, "amd64"@) || has_infix(n, "x86_64"@) || has_infix(n, "x64"@) {
            8int
        } else {
            0int
        }) - (if has_infix(n, "linux"@) || has_infix(n, "darwin"@) || has_infix(n, "macos"@)
            || has_infix(n, "mac-"@) {
            20int
        } else {
            0int
        }),
{
}

} // verus!
