use self_update::listing::format_release;
use self_update::listing::listing_heading;
use self_update::listing::release_line;
use self_update::listing::release_status;
use self_update::listing::render_releases_list;
use self_update::listing::status_color;
use self_update::listing::ReleaseStatus;
use self_update::release::Release;
use self_update::time::Timestamp;

fn release(version: &str, repo: &str, is_prerelease: bool, secs: i64) -> Release {
    Release {
        version: version.to_string(),
        repo: repo.to_string(),
        is_prerelease,
        published_at: Timestamp { secs, nanos: 0 },
        assets: Vec::new(),
        body: String::new(),
    }
}

#[test]
fn status_tells_prerelease_newer_current_and_older() {
    let current = "0.27.0";
    assert_eq!(
        release_status(&release("0.28.0", "a/b", false, 0), current),
        ReleaseStatus::Newer
    );
    assert_eq!(
        release_status(&release("0.27.0", "a/b", false, 0), current),
        ReleaseStatus::Current
    );
    assert_eq!(
        release_status(&release("0.26.0", "a/b", false, 0), current),
        ReleaseStatus::Older
    );
    assert_eq!(
        release_status(&release("0.28.0", "a/b", true, 0), current),
        ReleaseStatus::Prerelease
    );
    assert_eq!(
        release_status(&release("0.27.0", "a/b", true, 0), current),
        ReleaseStatus::Prerelease
    );
    assert_eq!(
        release_status(&release("nightly", "a/b", false, 0), current),
        ReleaseStatus::Older
    );
    assert_eq!(
        release_status(&release("nightly", "a/b", false, 0), "nightly"),
        ReleaseStatus::Current
    );
}

#[test]
fn each_status_has_its_colour() {
    assert_eq!(status_color(ReleaseStatus::Prerelease), "\x1b[33m");
    assert_eq!(status_color(ReleaseStatus::Newer), "\x1b[32m");
    assert_eq!(status_color(ReleaseStatus::Current), "\x1b[36m");
    assert_eq!(status_color(ReleaseStatus::Older), "\x1b[37m");
}

#[test]
fn a_line_holds_version_source_and_date() {
    let stable = release("0.28.0", "openai/codex", false, 0);
    assert_eq!(
        release_line(&stable, "0.27.0", "2025-09-01"),
        "\x1b[32mv0.28.0 - openai/codex - 2025-09-01\x1b[0m"
    );
    let beta = release("0.27.1-beta", "iainlowe/codex", true, 0);
    assert_eq!(
        release_line(&beta, "0.27.0", "2025-08-31"),
        "\x1b[33mv0.27.1-beta (prerelease) - iainlowe/codex - 2025-08-31\x1b[0m"
    );
}

#[test]
fn the_date_is_that_of_the_moment_of_publication() {
    let at_epoch = release("0.27.0", "openai/codex", false, 0);
    assert_eq!(
        format_release(&at_epoch, "0.27.0").unwrap(),
        "\x1b[36mv0.27.0 - openai/codex - 1970-01-01\x1b[0m"
    );
    let last_second = release("0.26.0", "openai/codex", false, 1_431_734_399);
    assert_eq!(
        format_release(&last_second, "0.27.0").unwrap(),
        "\x1b[37mv0.26.0 - openai/codex - 2015-05-15\x1b[0m"
    );
    let next_day = release("0.26.0", "openai/codex", false, 1_431_734_400);
    assert_eq!(
        format_release(&next_day, "0.27.0").unwrap(),
        "\x1b[37mv0.26.0 - openai/codex - 2015-05-16\x1b[0m"
    );
    let before_epoch = release("0.26.0", "openai/codex", false, -1);
    assert_eq!(
        format_release(&before_epoch, "0.27.0").unwrap(),
        "\x1b[37mv0.26.0 - openai/codex - 1969-12-31\x1b[0m"
    );
}

#[test]
fn a_moment_without_a_date_has_no_line() {
    let too_late = release("0.26.0", "openai/codex", false, i64::MAX);
    assert_eq!(format_release(&too_late, "0.27.0"), None);
    let mut bad_nanos = release("0.26.0", "openai/codex", false, 0);
    bad_nanos.published_at.nanos = 2_000_000_000;
    assert_eq!(format_release(&bad_nanos, "0.27.0"), None);
    assert_eq!(
        render_releases_list(&[release("0.28.0", "a/b", false, 0), too_late], "0.27.0"),
        None
    );
}

#[test]
fn the_heading_names_the_running_version() {
    assert_eq!(
        listing_heading("0.27.0"),
        "Available releases (current: 0.27.0):\n"
    );
}

#[test]
fn the_listing_is_the_heading_and_a_line_for_each_release() {
    let releases = vec![
        release("0.28.0", "openai/codex", false, 1_756_684_800),
        release("0.27.1-beta-auto-switch-auth", "iainlowe/codex", true, 1_756_598_400),
        release("0.27.0", "openai/codex", false, 1_756_339_200),
        release("0.26.0", "openai/codex", false, 1_755_907_200),
    ];
    let lines = render_releases_list(&releases, "0.27.0").unwrap();
    assert_eq!(
        lines,
        vec![
            "Available releases (current: 0.27.0):\n",
            "\x1b[32mv0.28.0 - openai/codex - 2025-09-01\x1b[0m",
            "\x1b[33mv0.27.1-beta-auto-switch-auth (prerelease) - iainlowe/codex - 2025-08-31\x1b[0m",
            "\x1b[36mv0.27.0 - openai/codex - 2025-08-28\x1b[0m",
            "\x1b[37mv0.26.0 - openai/codex - 2025-08-23\x1b[0m",
        ]
    );
    assert_eq!(
        render_releases_list(&[], "1.0.0").unwrap(),
        vec!["Available releases (current: 1.0.0):\n"]
    );
}
