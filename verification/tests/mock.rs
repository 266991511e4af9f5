use self_update::mock::get_mock_releases;
use self_update::time::Timestamp;

#[test]
fn the_made_up_listing_has_its_four_releases() {
    let now = Timestamp { secs: 1_757_000_000, nanos: 123 };
    let releases = get_mock_releases(now);
    let seen: Vec<(&str, &str, bool, i64, usize, &str)> = releases
        .iter()
        .map(|release| {
            (
                release.version.as_str(),
                release.repo.as_str(),
                release.is_prerelease,
                release.published_at.secs,
                release.assets.len(),
                release.body.as_str(),
            )
        })
        .collect();
    assert_eq!(
        seen,
        vec![
            ("0.28.0", "openai/codex", false, 1_757_000_000 - 86_400, 2, "Latest stable release"),
            (
                "0.27.1-beta-auto-switch-auth",
                "iainlowe/codex",
                true,
                1_757_000_000 - 2 * 86_400,
                0,
                "Beta release with auto switching"
            ),
            ("0.27.0", "openai/codex", false, 1_757_000_000 - 5 * 86_400, 1, "Previous stable release"),
            ("0.26.0", "openai/codex", false, 1_757_000_000 - 10 * 86_400, 0, "Older stable release"),
        ]
    );
    assert!(releases.iter().all(|release| release.published_at.nanos == 123));
}

#[test]
fn the_made_up_assets_are_named_for_their_platforms() {
    let releases = get_mock_releases(Timestamp { secs: 864_000, nanos: 0 });
    let latest = &releases[0].assets;
    assert_eq!(latest[0].name, "codex-x86_64-unknown-linux-musl.zst");
    assert_eq!(
        latest[0].browser_download_url,
        "https://github.com/openai/codex/releases/download/rust-v0.28.0/codex-x86_64-unknown-linux-musl.zst"
    );
    assert_eq!(latest[0].size, 8_000_000);
    assert_eq!(latest[1].name, "codex-aarch64-apple-darwin.zst");
    assert_eq!(
        latest[1].browser_download_url,
        "https://github.com/openai/codex/releases/download/rust-v0.28.0/codex-aarch64-apple-darwin.zst"
    );
    assert_eq!(latest[1].size, 6_000_000);
    let previous = &releases[2].assets;
    assert_eq!(previous[0].name, "codex-x86_64-unknown-linux-musl.zst");
    assert_eq!(
        previous[0].browser_download_url,
        "https://github.com/openai/codex/releases/download/rust-v0.27.0/codex-x86_64-unknown-linux-musl.zst"
    );
    assert_eq!(previous[0].size, 8_000_000);
    assert_eq!(releases[3].published_at.secs, 0);
}
