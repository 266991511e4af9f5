//! Which asset of a release fits a platform.

use vstd::prelude::*;
use crate::release::asset_views;
use crate::release::AssetView;
use crate::release::GitHubAsset;
use crate::text::chars_of;
use crate::text::contains;
use crate::text::contains_text;
use crate::text::ends_with;

verus! {

/// What a platform identifier holds where the platform is like Windows.
pub const WINDOWS_MARK: &'static str = "windows";

/// Whether a platform is like Windows.
pub open spec fn is_windows_like(target: Seq<char>) -> bool {
    contains_text(target, WINDOWS_MARK@)
}

/// The file-name suffixes that are accepted for a platform, the preferred
/// one first.
pub open spec fn accepted_suffixes(target: Seq<char>) -> Seq<Seq<char>> {
    if is_windows_like(target) {
        seq![".exe.zst"@, ".exe.zip"@, ".exe.tar.gz"@]
    } else {
        seq![".zst"@, ".tar.gz"@]
    }
}

/// An asset fits a platform and a suffix where its name holds the platform
/// identifier somewhere and ends with the suffix.
pub open spec fn fits(asset: AssetView, target: Seq<char>, suffix: Seq<char>) -> bool {
    contains_text(asset.name, target) && suffix.is_suffix_of(asset.name)
}

/// The place of the first asset at or after `from` that fits.
pub open spec fn first_fit(
    assets: Seq<AssetView>,
    target: Seq<char>,
    suffix: Seq<char>,
    from: int,
) -> Option<int>
    decreases assets.len() - from,
{
    if from < 0 || from >= assets.len() {
        None
    } else if fits(assets[from], target, suffix) {
        Some(from)
    } else {
        first_fit(assets, target, suffix, from + 1)
    }
}

/// The place of the asset to take, going through the suffixes from `rank`
/// on: the first asset that fits the first suffix that any asset fits.
pub open spec fn choice_from(
    assets: Seq<AssetView>,
    target: Seq<char>,
    suffixes: Seq<Seq<char>>,
    rank: int,
) -> Option<int>
    decreases suffixes.len() - rank,
{
    if rank < 0 || rank >= suffixes.len() {
        None
    } else {
        match first_fit(assets, target, suffixes[rank], 0) {
            Some(place) => Some(place),
            None => choice_from(assets, target, suffixes, rank + 1),
        }
    }
}

/// The place of the asset that fits a platform best, if any fits.
pub open spec fn suitable_place(assets: Seq<AssetView>, target: Seq<char>) -> Option<int> {
    choice_from(assets, target, accepted_suffixes(target), 0)
}

/// What `first_fit` finds is the first asset that fits; where it finds
/// nothing, no asset from `from` on fits.
pub proof fn lemma_first_fit(assets: Seq<AssetView>, target: Seq<char>, suffix: Seq<char>, from: int)
    requires
        0 <= from,
    ensures
        match first_fit(assets, target, suffix, from) {
            Some(place) => from <= place < assets.len() && fits(assets[place], target, suffix)
                && forall|k: int| from <= k < place ==> !fits(#[trigger] assets[k], target, suffix),
            None => forall|k: int|
                from <= k < assets.len() ==> !fits(#[trigger] assets[k], target, suffix),
        },
    decreases assets.len() - from,
{
    if from < assets.len() && !fits(assets[from], target, suffix) {
        lemma_first_fit(assets, target, suffix, from + 1);
    }
}

/// What `choice_from` finds fits a suffix that no asset fits a better one
/// than, and is the first asset to fit that suffix; where it finds nothing, no
/// asset fits any suffix from `rank` on.
pub proof fn lemma_choice_from(
    assets: Seq<AssetView>,
    target: Seq<char>,
    suffixes: Seq<Seq<char>>,
    rank: int,
)
    requires
        0 <= rank,
    ensures
        match choice_from(assets, target, suffixes, rank) {
            Some(place) => exists|best: int|
                rank <= best < suffixes.len() && first_fit(assets, target, #[trigger] suffixes[best], 0)
                    == Some(place) && forall|better: int|
                    rank <= better < best ==> first_fit(
                        assets,
                        target,
                        #[trigger] suffixes[better],
                        0,
                    ) is None,
            None => forall|any: int|
                rank <= any < suffixes.len() ==> first_fit(assets, target, #[trigger] suffixes[any], 0)
                    is None,
        },
    decreases suffixes.len() - rank,
{
    if rank < suffixes.len() && first_fit(assets, target, suffixes[rank], 0) is None {
        lemma_choice_from(assets, target, suffixes, rank + 1);
    }
}

/// The texts of a list of suffixes.
spec fn suffix_texts(suffixes: Seq<&'static str>) -> Seq<Seq<char>> {
    suffixes.map_values(|suffix: &'static str| suffix@)
}

/// Picks the asset of a release that fits a platform best. The suffixes
/// accepted for the platform are tried in their order; for each, the assets
/// are gone through in their order, and the first whose name holds the
/// platform identifier and ends with the suffix is taken. Where no asset's
/// name holds the platform identifier, none is taken.
pub fn find_suitable_asset<'a>(assets: &'a [GitHubAsset], target_triple: &str) -> (found: Option<
    &'a GitHubAsset,
>)
    ensures
        match suitable_place(asset_views(assets@), target_triple@) {
            Some(place) => 0 <= place < assets@.len() && found == Some(&assets@[place]),
            None => found is None,
        },
        (forall|k: int|
            0 <= k < assets@.len() ==> !contains_text(
                (#[trigger] assets@[k]).name@,
                target_triple@,
            )) ==> found is None,
{
    let target = chars_of(target_triple);
    let mark = chars_of(WINDOWS_MARK);
    let suffixes: Vec<&'static str> = if contains(target.as_slice(), mark.as_slice()) {
        vec![".exe.zst", ".exe.zip", ".exe.tar.gz"]
    } else {
        vec![".zst", ".tar.gz"]
    };
    let ghost views = asset_views(assets@);
    let ghost accepted = accepted_suffixes(target_triple@);
    let mut rank: usize = 0;
    while rank < suffixes.len()
        invariant
            rank <= suffixes.len(),
            target@ == target_triple@,
            views == asset_views(assets@),
            accepted == accepted_suffixes(target_triple@),
            suffix_texts(suffixes@) == accepted,
            accepted.len() == suffixes.len(),
            suitable_place(views, target_triple@) == choice_from(
                views,
                target_triple@,
                accepted,
                rank as int,
            ),
            forall|earlier: int, k: int|
                0 <= earlier < rank && 0 <= k < views.len() ==> !fits(
                    #[trigger] views[k],
                    target_triple@,
                    #[trigger] accepted[earlier],
                ),
        decreases suffixes.len() - rank,
    {
        let suffix = chars_of(suffixes[rank]);
        let mut place: usize = 0;
        while place < assets.len()
            invariant
                place <= assets.len(),
                rank < suffixes.len(),
                target@ == target_triple@,
                views == asset_views(assets@),
                accepted.len() == suffixes.len(),
                suffix@ == accepted[rank as int],
                suitable_place(views, target_triple@) == choice_from(
                    views,
                    target_triple@,
                    accepted,
                    rank as int,
                ),
                first_fit(views, target_triple@, suffix@, 0) == first_fit(
                    views,
                    target_triple@,
                    suffix@,
                    place as int,
                ),
                forall|k: int|
                    0 <= k < place ==> !fits(#[trigger] views[k], target_triple@, suffix@),
            decreases assets.len() - place,
        {
            let name = chars_of(assets[place].name.as_str());
            if contains(name.as_slice(), target.as_slice()) && ends_with(
                name.as_slice(),
                suffix.as_slice(),
            ) {
                return Some(&assets[place]);
            }
            place = place + 1;
        }
        rank = rank + 1;
    }
    None
}

} // verus!
