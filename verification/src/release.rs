//! Releases and their assets: what a source lists, what the library makes of
//! it, and the ranked listing of all that the sources hold.

use vstd::prelude::*;
use crate::error::UpdateError;
use crate::source::label_of;
use crate::source::primary_source;
use crate::source::secondary_source;
use crate::source::source_choice;
use crate::source::Source;
use crate::text::text_of;
use crate::time::Timestamp;
use crate::version::stands_before;
use vstd::set_lib::lemma_int_range;
use vstd::set_lib::lemma_subset_equality;
use vstd::set_lib::set_int_range;
use crate::text::text_less;
use crate::version::listed_before;
use crate::version::semver_less;
use crate::version::semver_valid;
use crate::version::normalized_version;
use crate::version::parse_version_from_tag;

verus! {

/// One downloadable file of a release.
#[derive(Debug, Clone)]
pub struct GitHubAsset {
    /// File name as published; it tells the platform and the archive format.
    pub name: String,
    /// Where the file is fetched from.
    pub browser_download_url: String,
    /// Length in bytes, as the source states it.
    pub size: u64,
}

/// What an asset holds.
pub struct AssetView {
    pub name: Seq<char>,
    pub browser_download_url: Seq<char>,
    pub size: u64,
}

impl View for GitHubAsset {
    type V = AssetView;

    open spec fn view(&self) -> AssetView {
        AssetView {
            name: self.name@,
            browser_download_url: self.browser_download_url@,
            size: self.size,
        }
    }
}

/// What a list of assets holds.
pub open spec fn asset_views(assets: Seq<GitHubAsset>) -> Seq<AssetView> {
    assets.map_values(|asset: GitHubAsset| asset@)
}

/// One entry of a source's release list, as the source states it.
#[derive(Debug, Clone)]
pub struct GitHubRelease {
    pub tag_name: String,
    pub name: String,
    pub body: String,
    pub draft: bool,
    pub prerelease: bool,
    pub published_at: Timestamp,
    pub assets: Vec<GitHubAsset>,
}

/// What an entry of a source's release list holds.
pub struct ListedReleaseView {
    pub tag_name: Seq<char>,
    pub name: Seq<char>,
    pub body: Seq<char>,
    pub draft: bool,
    pub prerelease: bool,
    pub published_at: Timestamp,
    pub assets: Seq<AssetView>,
}

impl View for GitHubRelease {
    type V = ListedReleaseView;

    open spec fn view(&self) -> ListedReleaseView {
        ListedReleaseView {
            tag_name: self.tag_name@,
            name: self.name@,
            body: self.body@,
            draft: self.draft,
            prerelease: self.prerelease,
            published_at: self.published_at,
            assets: asset_views(self.assets@),
        }
    }
}

/// What a release list of a source holds.
pub open spec fn listed_views(listed: Seq<GitHubRelease>) -> Seq<ListedReleaseView> {
    listed.map_values(|entry: GitHubRelease| entry@)
}

/// One published version of the tool.
#[derive(Debug, Clone)]
pub struct Release {
    /// The version that the release's tag stands for; not every version is a
    /// semantic version.
    pub version: String,
    /// The source that lists the release, as `owner/project`.
    pub repo: String,
    pub is_prerelease: bool,
    pub published_at: Timestamp,
    /// The assets in the order in which the source lists them.
    pub assets: Vec<GitHubAsset>,
    /// The release's description.
    pub body: String,
}

/// What a release holds.
pub struct ReleaseView {
    pub version: Seq<char>,
    pub repo: Seq<char>,
    pub is_prerelease: bool,
    pub published_at: Timestamp,
    pub assets: Seq<AssetView>,
    pub body: Seq<char>,
}

impl View for Release {
    type V = ReleaseView;

    open spec fn view(&self) -> ReleaseView {
        ReleaseView {
            version: self.version@,
            repo: self.repo@,
            is_prerelease: self.is_prerelease,
            published_at: self.published_at,
            assets: asset_views(self.assets@),
            body: self.body@,
        }
    }
}

/// What a list of releases holds.
pub open spec fn release_views(releases: Seq<Release>) -> Seq<ReleaseView> {
    releases.map_values(|release: Release| release@)
}

/// The release that an entry of a source's list stands for: its tag turned
/// into a version, the source's label beside it, the rest as listed.
pub open spec fn release_of(listed: ListedReleaseView, repo: Seq<char>) -> ReleaseView {
    ReleaseView {
        version: normalized_version(listed.tag_name),
        repo,
        is_prerelease: listed.prerelease,
        published_at: listed.published_at,
        assets: listed.assets,
        body: listed.body,
    }
}

/// The releases that a source's list stands for, in the list's order.
pub open spec fn releases_of(listed: Seq<ListedReleaseView>, repo: Seq<char>) -> Seq<
    ReleaseView,
> {
    listed.map_values(|entry: ListedReleaseView| release_of(entry, repo))
}

/// Makes a release of an entry of a source's list.
pub fn to_release(listed: GitHubRelease, repo: &str) -> (release: Release)
    ensures
        release@ == release_of(listed@, repo@),
{
    Release {
        version: parse_version_from_tag(listed.tag_name.as_str()),
        repo: repo.to_owned(),
        is_prerelease: listed.prerelease,
        published_at: listed.published_at,
        assets: listed.assets,
        body: listed.body,
    }
}

/// In `releases`, the one at `first` stands before the one at `second` by
/// its version.
pub open spec fn outranks(releases: Seq<ReleaseView>, first: int, second: int) -> bool {
    listed_before(releases[first].version, releases[second].version)
}

/// `output` is `input` ranked, and `origin` tells for each place of `output`
/// the place in `input` that its release comes from: every release of
/// `input` stands in `output` once; no release stands after one that it
/// outranks; and of two releases neither of which outranks the other, the
/// one that came first in `input` stands first.
pub open spec fn is_ranking(
    input: Seq<ReleaseView>,
    output: Seq<ReleaseView>,
    origin: Seq<int>,
) -> bool {
    &&& output.len() == input.len()
    &&& origin.len() == input.len()
    &&& forall|k: int|
        0 <= k < origin.len() ==> 0 <= #[trigger] origin[k] < input.len() && output[k]
            == input[origin[k]]
    &&& forall|a: int, b: int|
        0 <= a < b < origin.len() ==> #[trigger] origin[a] != #[trigger] origin[b]
    &&& forall|a: int, b: int| 0 <= a < b < output.len() ==> !#[trigger] outranks(output, b, a)
    &&& forall|a: int, b: int|
        0 <= a < b < output.len() && origin[b] < origin[a] ==> #[trigger] outranks(output, a, b)
}

/// `output` is `input` ranked.
pub open spec fn ranks(input: Seq<ReleaseView>, output: Seq<ReleaseView>) -> bool {
    exists|origin: Seq<int>| is_ranking(input, output, origin)
}

/// In a ranked listing the semantic versions stand first, from the highest
/// down, and the other versions stand behind them, from the lexically
/// greatest down.
pub proof fn lemma_ranked_order(input: Seq<ReleaseView>, output: Seq<ReleaseView>)
    requires
        ranks(input, output),
    ensures
        forall|a: int, b: int|
            0 <= a < b < output.len() && semver_valid((#[trigger] output[b]).version)
                ==> semver_valid((#[trigger] output[a]).version),
        forall|a: int, b: int|
            0 <= a < b < output.len() && semver_valid((#[trigger] output[a]).version)
                && semver_valid((#[trigger] output[b]).version) ==> !semver_less(
                output[a].version,
                output[b].version,
            ),
        forall|a: int, b: int|
            0 <= a < b < output.len() && !semver_valid((#[trigger] output[a]).version)
                && !semver_valid((#[trigger] output[b]).version) ==> !text_less(
                output[a].version,
                output[b].version,
            ),
{
    let origin = choose|origin: Seq<int>| is_ranking(input, output, origin);
    assert forall|a: int, b: int| 0 <= a < b < output.len() implies !listed_before(
        (#[trigger] output[b]).version,
        (#[trigger] output[a]).version,
    ) by {
        assert(!outranks(output, b, a));
    }
}

/// The release at place `k` of `input` stands somewhere in `output`.
pub open spec fn is_kept(
    input: Seq<ReleaseView>,
    output: Seq<ReleaseView>,
    origin: Seq<int>,
    k: int,
) -> bool {
    exists|place: int|
        0 <= place < output.len() && #[trigger] origin[place] == k && output[place] == input[k]
}

/// A ranked listing holds every release of its input: each has a place in
/// the output, and no two share one.
pub proof fn lemma_ranking_keeps_every_release(
    input: Seq<ReleaseView>,
    output: Seq<ReleaseView>,
    origin: Seq<int>,
)
    requires
        is_ranking(input, output, origin),
    ensures
        forall|k: int| 0 <= k < input.len() ==> #[trigger] is_kept(input, output, origin, k),
{
    let count = input.len() as int;
    let places = origin.to_set();
    let all = set_int_range(0, count);
    origin.unique_seq_to_set();
    lemma_int_range(0, count);
    lemma_subset_equality(places, all);
    assert forall|k: int| 0 <= k < input.len() implies #[trigger] is_kept(
        input,
        output,
        origin,
        k,
    ) by {
        assert(places.contains(k));
    }
}

/// The state of the sort: the first `sorted` places of `current` hold the
/// first `sorted` releases of `input`, ranked; the rest is as in `input`.
spec fn ranked_prefix(
    input: Seq<Release>,
    current: Seq<Release>,
    origin: Seq<int>,
    sorted: int,
) -> bool {
    &&& current.len() == input.len()
    &&& origin.len() == input.len()
    &&& 0 <= sorted <= input.len()
    &&& forall|k: int|
        0 <= k < origin.len() ==> 0 <= #[trigger] origin[k] < input.len() && current[k]
            == input[origin[k]]
    &&& forall|k: int| sorted <= k < origin.len() ==> #[trigger] origin[k] == k
    &&& forall|k: int| 0 <= k < sorted ==> #[trigger] origin[k] < sorted
    &&& forall|a: int, b: int|
        0 <= a < b < origin.len() ==> #[trigger] origin[a] != #[trigger] origin[b]
    &&& forall|a: int, b: int|
        0 <= a < b < sorted ==> !#[trigger] outranks(release_views(current), b, a)
    &&& forall|a: int, b: int|
        0 <= a < b < sorted && origin[b] < origin[a] ==> #[trigger] outranks(
            release_views(current),
            a,
            b,
        )
}

/// The place in a sequence that the release at `place` had before the one at
/// `from` was moved down to `to`.
spec fn place_before_move(place: int, from: int, to: int) -> int {
    if place < to {
        place
    } else if place == to {
        from
    } else if place <= from {
        place - 1
    } else {
        place
    }
}

/// Moving the first release beyond the ranked prefix down to the place that
/// the scan found for it leaves a ranked prefix that is longer by one.
proof fn lemma_move_extends_ranking(
    input: Seq<Release>,
    current: Seq<Release>,
    origin: Seq<int>,
    from: int,
    to: int,
)
    requires
        ranked_prefix(input, current, origin, from),
        0 <= to <= from < current.len(),
        forall|k: int|
            to <= k < from ==> #[trigger] outranks(release_views(current), from, k) && !outranks(
                release_views(current),
                k,
                from,
            ),
        to > 0 ==> !outranks(release_views(current), from, to - 1),
        to > 0 ==> forall|other: Seq<char>|
            listed_before(current[from].version@, other) ==> #[trigger] listed_before(
                current[to - 1].version@,
                other,
            ),
    ensures
        ranked_prefix(
            input,
            current.remove(from).insert(to, current[from]),
            origin.remove(from).insert(to, from),
            from + 1,
        ),
{
    let moved = current.remove(from).insert(to, current[from]);
    let moved_origin = origin.remove(from).insert(to, from);
    let before = release_views(current);
    let after = release_views(moved);
    assert forall|k: int| 0 <= k < moved.len() implies moved[k] == current[place_before_move(
        k,
        from,
        to,
    )] && #[trigger] moved_origin[k] == origin[place_before_move(k, from, to)] by {}
    assert forall|a: int, b: int| 0 <= a < b < from + 1 implies !#[trigger] outranks(
        after,
        b,
        a,
    ) by {
        let old_a = place_before_move(a, from, to);
        let old_b = place_before_move(b, from, to);
        if b == to {
            if a < to - 1 {
                assert(!outranks(before, to - 1, a));
            }
        } else if a == to {
            assert(outranks(before, from, old_b));
        } else {
            assert(!outranks(before, old_b, old_a));
        }
    }
    assert forall|a: int, b: int|
        0 <= a < b < from + 1 && moved_origin[b] < moved_origin[a] implies #[trigger] outranks(
        after,
        a,
        b,
    ) by {
        let old_a = place_before_move(a, from, to);
        let old_b = place_before_move(b, from, to);
        if a == to {
            assert(outranks(before, from, old_b));
        } else if b != to {
            assert(outranks(before, old_a, old_b));
        }
    }
}

/// Ranks releases in place: semantic versions first, the highest at the
/// head; then the other versions, the lexically greatest at their head.
/// Releases that the order does not tell apart keep their order.
pub fn sort_releases(releases: &mut Vec<Release>)
    ensures
        ranks(release_views(old(releases)@), release_views(final(releases)@)),
{
    let ghost input = releases@;
    let ghost mut origin: Seq<int> = Seq::new(releases@.len(), |k: int| k);
    let count = releases.len();
    let mut next: usize = 0;
    while next < count
        invariant
            count == input.len(),
            ranked_prefix(input, releases@, origin, next as int),
        decreases count - next,
    {
        let mut place: usize = next;
        loop
            invariant
                count == input.len(),
                releases@.len() == count,
                place <= next < count,
                forall|k: int|
                    place <= k < next ==> #[trigger] outranks(
                        release_views(releases@),
                        next as int,
                        k,
                    ) && !outranks(release_views(releases@), k, next as int),
            ensures
                place > 0 ==> !outranks(release_views(releases@), next as int, place - 1),
                place > 0 ==> forall|other: Seq<char>|
                    listed_before(releases@[next as int].version@, other) ==> #[trigger] listed_before(
                        releases@[place - 1].version@,
                        other,
                    ),
            decreases place,
        {
            if place == 0 {
                break ;
            }
            if !stands_before(
                releases[next].version.as_str(),
                releases[place - 1].version.as_str(),
            ) {
                break ;
            }
            place = place - 1;
        }
        proof {
            lemma_move_extends_ranking(input, releases@, origin, next as int, place as int);
            origin = origin.remove(next as int).insert(place as int, next as int);
        }
        let moved = releases.remove(next);
        releases.insert(place, moved);
        next = next + 1;
    }
    assert(is_ranking(release_views(input), release_views(releases@), origin));
}

/// What a source's answer holds: its list, or nothing where the source
/// could not be asked.
pub open spec fn answer_views(answer: Option<Vec<GitHubRelease>>) -> Option<
    Seq<ListedReleaseView>,
> {
    match answer {
        Some(listed) => Some(listed_views(listed@)),
        None => None,
    }
}

/// The releases to rank, or why there are none.
pub open spec fn found_releases(all: Seq<ReleaseView>) -> Result<Seq<ReleaseView>, UpdateError> {
    if all.len() == 0 {
        Err(UpdateError::NoReleasesFound)
    } else {
        Ok(all)
    }
}

/// The releases that the two sources hold together, the primary's first,
/// before they are ranked. The primary source may have failed: it then adds
/// nothing. The second source is the one that the caller names, else the
/// fallback; a name that is no source is refused. Where the second source is
/// the primary itself it is not asked again; else its failure is the
/// listing's failure. A listing without releases is a failure too.
pub open spec fn gathered(
    repo_override: Option<Seq<char>>,
    primary: Option<Seq<ListedReleaseView>>,
    secondary: Option<Seq<ListedReleaseView>>,
) -> Result<Seq<ReleaseView>, UpdateError> {
    let from_primary = match primary {
        Some(listed) => releases_of(listed, label_of(primary_source())),
        None => Seq::empty(),
    };
    match source_choice(repo_override) {
        Err(e) => Err(e),
        Ok(second) => if second == primary_source() {
            found_releases(from_primary)
        } else {
            match secondary {
                Some(listed) => found_releases(from_primary + releases_of(listed, label_of(second))),
                None => Err(UpdateError::FetchError),
            }
        },
    }
}

/// Adds to `all` the releases that a source's list stands for.
fn append_releases(all: &mut Vec<Release>, listed: Vec<GitHubRelease>, repo: &str)
    ensures
        release_views(final(all)@) == release_views(old(all)@) + releases_of(
            listed_views(listed@),
            repo@,
        ),
{
    let ghost start = all@;
    let ghost entries = listed@;
    for entry in it: listed
        invariant
            it.seq() == entries,
            release_views(all@) == release_views(start) + releases_of(
                listed_views(entries.take(it.index() as int)),
                repo@,
            ),
    {
        let ghost before = all@;
        all.push(to_release(entry, repo));
        assert(release_views(all@) =~= release_views(before).push(all@.last()@));
    }
}

/// Lists the releases of the primary source and of a second one, ranked.
/// `primary` and `secondary` are what the two sources answered when asked for
/// their releases, `None` where a source could not be asked or answered with
/// a failure; `secondary` is not looked at where the second source is the
/// primary one.
pub fn list_releases(
    repo_override: Option<&str>,
    primary: Option<Vec<GitHubRelease>>,
    secondary: Option<Vec<GitHubRelease>>,
) -> (listing: Result<Vec<Release>, UpdateError>)
    ensures
        match gathered(text_of(repo_override), answer_views(primary), answer_views(secondary)) {
            Ok(all) => listing matches Ok(ranked) && ranks(all, release_views(ranked@)),
            Err(e) => listing matches Err(refusal) && refusal == e,
        },
{
    let mut all: Vec<Release> = Vec::new();
    if let Some(listed) = primary {
        append_releases(&mut all, listed, Source::primary().label().as_str());
    }
    let second = match secondary_source(repo_override) {
        Ok(source) => source,
        Err(e) => {
            return Err(e);
        },
    };
    if !second.is_primary() {
        match secondary {
            Some(listed) => {
                append_releases(&mut all, listed, second.label().as_str());
            },
            None => {
                return Err(UpdateError::FetchError);
            },
        }
    }
    if all.len() == 0 {
        return Err(UpdateError::NoReleasesFound);
    }
    sort_releases(&mut all);
    Ok(all)
}

} // verus!
