//! A listing made up for trying the tool out without a source: three
//! releases of the primary project and a prerelease of the fallback.

use vstd::prelude::*;
use crate::release::release_views;
use crate::release::AssetView;
use crate::release::GitHubAsset;
use crate::release::Release;
use crate::release::ReleaseView;
use crate::time::Timestamp;
use crate::time::SECONDS_PER_DAY;

verus! {

/// The Linux asset of a made-up release of the primary project.
pub open spec fn mock_linux_asset(download_url: Seq<char>) -> AssetView {
    AssetView {
        name: "codex-x86_64-unknown-linux-musl.zst"@,
        browser_download_url: download_url,
        size: 8_000_000,
    }
}

/// The made-up listing as of `now`: the latest stable release of one day
/// ago with assets for Linux and macOS, a prerelease of the fallback project
/// of two days ago, the previous stable release of five days ago with an
/// asset for Linux, and an older one of ten days ago.
pub open spec fn mock_listing(now: Timestamp) -> Seq<ReleaseView> {
    seq![
        ReleaseView {
            version: "0.28.0"@,
            repo: "openai/codex"@,
            is_prerelease: false,
            published_at: now.earlier_by_days(1),
            assets: seq![
                mock_linux_asset(
                    "https://github.com/openai/codex/releases/download/rust-v0.28.0/codex-x86_64-unknown-linux-musl.zst"@,
                ),
                AssetView {
                    name: "codex-aarch64-apple-darwin.zst"@,
                    browser_download_url: "https://github.com/openai/codex/releases/download/rust-v0.28.0/codex-aarch64-apple-darwin.zst"@,
                    size: 6_000_000,
                },
            ],
            body: "Latest stable release"@,
        },
        ReleaseView {
            version: "0.27.1-beta-auto-switch-auth"@,
            repo: "iainlowe/codex"@,
            is_prerelease: true,
            published_at: now.earlier_by_days(2),
            assets: Seq::empty(),
            body: "Beta release with auto switching"@,
        },
        ReleaseView {
            version: "0.27.0"@,
            repo: "openai/codex"@,
            is_prerelease: false,
            published_at: now.earlier_by_days(5),
            assets: seq![
                mock_linux_asset(
                    "https://github.com/openai/codex/releases/download/rust-v0.27.0/codex-x86_64-unknown-linux-musl.zst"@,
                ),
            ],
            body: "Previous stable release"@,
        },
        ReleaseView {
            version: "0.26.0"@,
            repo: "openai/codex"@,
            is_prerelease: false,
            published_at: now.earlier_by_days(10),
            assets: Seq::empty(),
            body: "Older stable release"@,
        },
    ]
}

/// Makes a release out of its parts.
fn mock_release(
    version: &str,
    repo: &str,
    is_prerelease: bool,
    published_at: Timestamp,
    assets: Vec<GitHubAsset>,
    body: &str,
) -> (release: Release)
    ensures
        release.version@ == version@,
        release.repo@ == repo@,
        release.is_prerelease == is_prerelease,
        release.published_at == published_at,
        release.assets == assets,
        release.body@ == body@,
{
    Release {
        version: version.to_owned(),
        repo: repo.to_owned(),
        is_prerelease,
        published_at,
        assets,
        body: body.to_owned(),
    }
}

/// Makes an asset out of its parts.
fn mock_asset(name: &str, download_url: &str, size: u64) -> (asset: GitHubAsset)
    ensures
        asset@ == (AssetView { name: name@, browser_download_url: download_url@, size }),
{
    GitHubAsset { name: name.to_owned(), browser_download_url: download_url.to_owned(), size }
}

/// The made-up listing as of `now`.
pub fn get_mock_releases(now: Timestamp) -> (releases: Vec<Release>)
    requires
        i64::MIN <= now.secs - 10 * SECONDS_PER_DAY,
    ensures
        release_views(releases@) == mock_listing(now),
{
    let mut latest_assets: Vec<GitHubAsset> = Vec::new();
    latest_assets.push(
        mock_asset(
            "codex-x86_64-unknown-linux-musl.zst",
            "https://github.com/openai/codex/releases/download/rust-v0.28.0/codex-x86_64-unknown-linux-musl.zst",
            8_000_000,
        ),
    );
    latest_assets.push(
        mock_asset(
            "codex-aarch64-apple-darwin.zst",
            "https://github.com/openai/codex/releases/download/rust-v0.28.0/codex-aarch64-apple-darwin.zst",
            6_000_000,
        ),
    );
    let mut previous_assets: Vec<GitHubAsset> = Vec::new();
    previous_assets.push(
        mock_asset(
            "codex-x86_64-unknown-linux-musl.zst",
            "https://github.com/openai/codex/releases/download/rust-v0.27.0/codex-x86_64-unknown-linux-musl.zst",
            8_000_000,
        ),
    );
    let mut releases: Vec<Release> = Vec::new();
    releases.push(
        mock_release(
            "0.28.0",
            "openai/codex",
            false,
            now.days_earlier(1),
            latest_assets,
            "Latest stable release",
        ),
    );
    releases.push(
        mock_release(
            "0.27.1-beta-auto-switch-auth",
            "iainlowe/codex",
            true,
            now.days_earlier(2),
            Vec::new(),
            "Beta release with auto switching",
        ),
    );
    releases.push(
        mock_release(
            "0.27.0",
            "openai/codex",
            false,
            now.days_earlier(5),
            previous_assets,
            "Previous stable release",
        ),
    );
    releases.push(
        mock_release(
            "0.26.0",
            "openai/codex",
            false,
            now.days_earlier(10),
            Vec::new(),
            "Older stable release",
        ),
    );
    proof {
        let views = release_views(releases@);
        let wanted = mock_listing(now);
        assert(views[0].assets =~= wanted[0].assets);
        assert(views[2].assets =~= wanted[2].assets);
        assert(views[3].assets =~= wanted[3].assets);
    }
    releases
}

} // verus!
