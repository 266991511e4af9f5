use self_update::error::UpdateError;
use self_update::release::list_releases;
use self_update::release::sort_releases;
use self_update::release::to_release;
use self_update::release::GitHubAsset;
use self_update::release::GitHubRelease;
use self_update::release::Release;
use self_update::time::Timestamp;
use self_update::version::compare_versions;
use self_update::version::listing_order;
use self_update::version::stands_before;
use std::cmp::Ordering;

fn listed(tag: &str) -> GitHubRelease {
    GitHubRelease {
        tag_name: tag.to_string(),
        name: format!("Release {tag}"),
        body: format!("Notes of {tag}"),
        draft: false,
        prerelease: false,
        published_at: Timestamp { secs: 1_700_000_000, nanos: 0 },
        assets: Vec::new(),
    }
}

fn release(version: &str, repo: &str) -> Release {
    Release {
        version: version.to_string(),
        repo: repo.to_string(),
        is_prerelease: false,
        published_at: Timestamp { secs: 0, nanos: 0 },
        assets: Vec::new(),
        body: String::new(),
    }
}

fn versions(releases: &[Release]) -> Vec<&str> {
    releases.iter().map(|release| release.version.as_str()).collect()
}

#[test]
fn valid_versions_come_first_and_descend() {
    let mut releases: Vec<Release> = ["0.26.0", "0.28.0", "not-a-version", "0.27.0"]
        .iter()
        .map(|version| release(version, "openai/codex"))
        .collect();
    sort_releases(&mut releases);
    assert_eq!(
        versions(&releases),
        vec!["0.28.0", "0.27.0", "0.26.0", "not-a-version"]
    );
}

#[test]
fn other_versions_follow_in_reverse_lexical_order() {
    let mut releases: Vec<Release> = ["apple", "1.0", "1.0.0", "zebra", "", "1.0.0-rc.1", "mango"]
        .iter()
        .map(|version| release(version, "a/b"))
        .collect();
    sort_releases(&mut releases);
    assert_eq!(
        versions(&releases),
        vec!["1.0.0", "1.0.0-rc.1", "zebra", "mango", "apple", "1.0", ""]
    );
}

#[test]
fn semantic_order_is_not_the_order_of_the_text() {
    let mut releases: Vec<Release> = ["1.5.0", "1.19.0", "1.19.0-pre.8", "1.19.0-pre.12"]
        .iter()
        .map(|version| release(version, "a/b"))
        .collect();
    sort_releases(&mut releases);
    assert_eq!(
        versions(&releases),
        vec!["1.19.0", "1.19.0-pre.12", "1.19.0-pre.8", "1.5.0"]
    );
}

#[test]
fn equal_versions_keep_their_order() {
    let mut releases = vec![
        release("junk", "first/one"),
        release("1.0.0", "first/one"),
        release("1.0.0", "second/one"),
        release("junk", "second/one"),
        release("2.0.0", "third/one"),
        release("1.0.0", "third/one"),
    ];
    sort_releases(&mut releases);
    let order: Vec<(&str, &str)> = releases
        .iter()
        .map(|release| (release.version.as_str(), release.repo.as_str()))
        .collect();
    assert_eq!(
        order,
        vec![
            ("2.0.0", "third/one"),
            ("1.0.0", "first/one"),
            ("1.0.0", "second/one"),
            ("1.0.0", "third/one"),
            ("junk", "first/one"),
            ("junk", "second/one"),
        ]
    );
}

#[test]
fn sorting_nothing_or_one_release() {
    let mut none: Vec<Release> = Vec::new();
    sort_releases(&mut none);
    assert!(none.is_empty());
    let mut one = vec![release("0.1.0", "a/b")];
    sort_releases(&mut one);
    assert_eq!(versions(&one), vec!["0.1.0"]);
}

#[test]
fn versions_compare_as_the_listing_ranks_them() {
    assert_eq!(compare_versions("0.28.0", "0.27.0"), Ordering::Less);
    assert_eq!(compare_versions("0.27.0", "0.28.0"), Ordering::Greater);
    assert_eq!(compare_versions("0.27.0", "0.27.0"), Ordering::Equal);
    assert_eq!(compare_versions("0.0.1", "zzz"), Ordering::Less);
    assert_eq!(compare_versions("zzz", "0.0.1"), Ordering::Greater);
    assert_eq!(compare_versions("b", "a"), Ordering::Less);
    assert_eq!(compare_versions("a", "b"), Ordering::Greater);
    assert_eq!(compare_versions("a", "ab"), Ordering::Greater);
    assert_eq!(compare_versions("same", "same"), Ordering::Equal);
    assert_eq!(compare_versions("1.0.0-alpha", "1.0.0"), Ordering::Greater);
    assert!(stands_before("0.28.0", "0.27.0"));
    assert!(!stands_before("0.27.0", "0.28.0"));
    assert!(!stands_before("x", "x"));
}

#[test]
fn the_kind_of_version_decides_before_the_order_within_it() {
    for within in [Ordering::Less, Ordering::Equal, Ordering::Greater] {
        assert_eq!(listing_order(true, false, within), Ordering::Less);
        assert_eq!(listing_order(false, true, within), Ordering::Greater);
        assert_eq!(listing_order(true, true, within), within);
        assert_eq!(listing_order(false, false, within), within);
    }
}

#[test]
fn a_listed_entry_becomes_a_release() {
    let assets = vec![GitHubAsset {
        name: "codex-x86_64-unknown-linux-musl.zst".to_string(),
        browser_download_url: "https://example.com/codex.zst".to_string(),
        size: 42,
    }];
    let entry = GitHubRelease {
        tag_name: "rust-v0.27.0".to_string(),
        name: "0.27.0".to_string(),
        body: "what changed".to_string(),
        draft: false,
        prerelease: true,
        published_at: Timestamp { secs: 1_757_000_000, nanos: 5 },
        assets,
    };
    let release = to_release(entry, "openai/codex");
    assert_eq!(release.version, "0.27.0");
    assert_eq!(release.repo, "openai/codex");
    assert!(release.is_prerelease);
    assert_eq!(release.published_at, Timestamp { secs: 1_757_000_000, nanos: 5 });
    assert_eq!(release.body, "what changed");
    assert_eq!(release.assets.len(), 1);
    assert_eq!(release.assets[0].name, "codex-x86_64-unknown-linux-musl.zst");
    assert_eq!(release.assets[0].browser_download_url, "https://example.com/codex.zst");
    assert_eq!(release.assets[0].size, 42);
}

#[test]
fn both_sources_are_merged_and_ranked() {
    let primary = vec![listed("rust-v0.26.0"), listed("rust-v0.28.0")];
    let secondary = vec![listed("v0.27.0")];
    let listing = list_releases(None, Some(primary), Some(secondary)).unwrap();
    let seen: Vec<(&str, &str)> = listing
        .iter()
        .map(|release| (release.version.as_str(), release.repo.as_str()))
        .collect();
    assert_eq!(
        seen,
        vec![
            ("0.28.0", "openai/codex"),
            ("0.27.0", "iainlowe/codex"),
            ("0.26.0", "openai/codex"),
        ]
    );
}

#[test]
fn the_primary_source_is_not_listed_twice() {
    let primary = vec![listed("rust-v0.26.0"), listed("rust-v0.28.0")];
    let again = vec![listed("rust-v0.26.0"), listed("rust-v0.28.0")];
    let listing = list_releases(Some("openai/codex"), Some(primary), Some(again)).unwrap();
    assert_eq!(versions(&listing), vec!["0.28.0", "0.26.0"]);
    assert!(listing.iter().all(|release| release.repo == "openai/codex"));

    let primary = vec![listed("rust-v0.26.0")];
    let listing = list_releases(Some("openai/codex"), Some(primary), None).unwrap();
    assert_eq!(versions(&listing), vec!["0.26.0"]);
}

#[test]
fn a_named_source_labels_its_releases() {
    let listing = list_releases(
        Some("someone/fork"),
        Some(vec![listed("rust-v1.0.0")]),
        Some(vec![listed("v1.1.0"), listed("nightly")]),
    )
    .unwrap();
    let seen: Vec<(&str, &str)> = listing
        .iter()
        .map(|release| (release.version.as_str(), release.repo.as_str()))
        .collect();
    assert_eq!(
        seen,
        vec![
            ("1.1.0", "someone/fork"),
            ("1.0.0", "openai/codex"),
            ("nightly", "someone/fork"),
        ]
    );
}

#[test]
fn a_failing_primary_source_is_passed_over() {
    let listing = list_releases(None, None, Some(vec![listed("v0.27.0")])).unwrap();
    assert_eq!(versions(&listing), vec!["0.27.0"]);
    assert_eq!(listing[0].repo, "iainlowe/codex");
}

#[test]
fn a_failing_secondary_source_fails_the_listing() {
    let listing = list_releases(None, Some(vec![listed("rust-v0.28.0")]), None);
    assert_eq!(listing.err(), Some(UpdateError::FetchError));
}

#[test]
fn a_listing_without_releases_is_a_failure() {
    assert_eq!(
        list_releases(None, Some(Vec::new()), Some(Vec::new())).err(),
        Some(UpdateError::NoReleasesFound)
    );
    assert_eq!(
        list_releases(None, None, Some(Vec::new())).err(),
        Some(UpdateError::NoReleasesFound)
    );
    assert_eq!(
        list_releases(Some("openai/codex"), None, Some(vec![listed("v1.0.0")])).err(),
        Some(UpdateError::NoReleasesFound)
    );
}

#[test]
fn a_malformed_override_is_refused_before_anything_else() {
    assert_eq!(
        list_releases(Some("no-slash"), Some(vec![listed("v1.0.0")]), None).err(),
        Some(UpdateError::InvalidSourceFormat)
    );
    assert_eq!(
        list_releases(Some("a/b/c"), None, None).err(),
        Some(UpdateError::InvalidSourceFormat)
    );
    assert_eq!(
        list_releases(Some("owner/"), Some(Vec::new()), Some(Vec::new())).err(),
        Some(UpdateError::InvalidSourceFormat)
    );
}

fn ordering_by_the_crates(a: &str, b: &str) -> Ordering {
    match (semver::Version::parse(a), semver::Version::parse(b)) {
        (Ok(v_a), Ok(v_b)) => v_b.cmp(&v_a),
        (Ok(_), Err(_)) => Ordering::Less,
        (Err(_), Ok(_)) => Ordering::Greater,
        (Err(_), Err(_)) => a.cmp(b).reverse(),
    }
}

const SAMPLE_VERSIONS: [&str; 24] = [
    "1.0.0",
    "1.0.0-alpha",
    "1.0.0-alpha.1",
    "1.0.0-alpha.beta",
    "1.0.0-beta.2",
    "1.0.0-beta.11",
    "1.0.0-rc.1",
    "1.0.0+build",
    "1.0.0+build.2",
    "1.0.0-rc.1+build",
    "10.0.0",
    "2.0.0",
    "0.27.1-beta-auto-switch-auth",
    "01.0.0",
    "1.0",
    "1",
    "",
    "v1.0.0",
    "zzz",
    "nightly",
    "Nightly",
    "1.0.0 ",
    "ünïcode",
    "18446744073709551616.0.0",
];

#[test]
fn versions_compare_as_the_crates_compare_them() {
    for a in SAMPLE_VERSIONS {
        for b in SAMPLE_VERSIONS {
            assert_eq!(compare_versions(a, b), ordering_by_the_crates(a, b), "{a:?} {b:?}");
            assert_eq!(
                stands_before(a, b),
                ordering_by_the_crates(a, b) == Ordering::Less,
                "{a:?} {b:?}"
            );
        }
    }
}

#[test]
fn sorting_agrees_with_a_stable_sort_by_the_same_order() {
    let mut seed: u64 = 0x2545_f491_4f6c_dd1d;
    for round in 0..40 {
        let mut releases: Vec<Release> = Vec::new();
        let count = round % 17;
        for place in 0..count {
            seed ^= seed << 13;
            seed ^= seed >> 7;
            seed ^= seed << 17;
            let version = SAMPLE_VERSIONS[(seed % 24) as usize];
            releases.push(release(version, &format!("source/{place}")));
        }
        let mut expected: Vec<(String, String)> = releases
            .iter()
            .map(|release| (release.version.clone(), release.repo.clone()))
            .collect();
        expected.sort_by(|a, b| ordering_by_the_crates(&a.0, &b.0));
        sort_releases(&mut releases);
        let sorted: Vec<(String, String)> = releases
            .iter()
            .map(|release| (release.version.clone(), release.repo.clone()))
            .collect();
        assert_eq!(sorted, expected);
    }
}
