//! The release listing as text: one line for each release, coloured by how
//! the release stands to the version that runs.

use vstd::prelude::*;
use crate::release::release_views;
use crate::release::Release;
use crate::release::ReleaseView;
use crate::text::same_str;
use crate::time::utc_date;
use crate::time::utc_date_text;
use crate::version::is_newer_version;
use crate::version::newer_than;

verus! {

/// Colour of a prerelease: yellow.
pub const PRERELEASE_COLOR: &'static str = "\x1b[33m";

/// Colour of a stable release that is newer than the running version: green.
pub const NEWER_COLOR: &'static str = "\x1b[32m";

/// Colour of the running version: cyan.
pub const CURRENT_COLOR: &'static str = "\x1b[36m";

/// Colour of the other releases: white.
pub const OLDER_COLOR: &'static str = "\x1b[37m";

/// What ends the colour of a line.
pub const COLOR_RESET: &'static str = "\x1b[0m";

/// What marks a prerelease behind its version.
pub const PRERELEASE_TAG: &'static str = " (prerelease)";

/// What stands before the version in a line.
pub const VERSION_MARK: &'static str = "v";

/// What stands between the parts of a line.
pub const LINE_SEPARATOR: &'static str = " - ";

/// How the heading begins.
pub const HEADING_START: &'static str = "Available releases (current: ";

/// How the heading ends; the line break leaves an empty line under it.
pub const HEADING_END: &'static str = "):\n";

/// How a release stands to the running version.
#[derive(Debug, Clone, Copy, PartialEq, Eq, Structural)]
pub enum ReleaseStatus {
    Prerelease,
    Newer,
    Current,
    Older,
}

/// How a release stands to the running version: a prerelease is that and no
/// more; a stable release is newer where its version is, current where its
/// version is that of the running one, older else.
pub open spec fn status_of(release: ReleaseView, current: Seq<char>) -> ReleaseStatus {
    if release.is_prerelease {
        ReleaseStatus::Prerelease
    } else if newer_than(release.version, current) {
        ReleaseStatus::Newer
    } else if release.version == current {
        ReleaseStatus::Current
    } else {
        ReleaseStatus::Older
    }
}

/// The colour of a status.
pub open spec fn color_of(status: ReleaseStatus) -> Seq<char> {
    match status {
        ReleaseStatus::Prerelease => PRERELEASE_COLOR@,
        ReleaseStatus::Newer => NEWER_COLOR@,
        ReleaseStatus::Current => CURRENT_COLOR@,
        ReleaseStatus::Older => OLDER_COLOR@,
    }
}

/// The line of a release: in its colour, the version behind a `v`, the
/// prerelease mark where it is one, the source and the date of publication.
pub open spec fn line_of(release: ReleaseView, current: Seq<char>, date: Seq<char>) -> Seq<char> {
    color_of(status_of(release, current)) + VERSION_MARK@ + release.version + (
    if release.is_prerelease {
        PRERELEASE_TAG@
    } else {
        Seq::empty()
    }) + LINE_SEPARATOR@ + release.repo + LINE_SEPARATOR@ + date + COLOR_RESET@
}

/// The heading of a listing.
pub open spec fn heading_of(current: Seq<char>) -> Seq<char> {
    HEADING_START@ + current + HEADING_END@
}

/// Tells how a release stands to the running version.
pub fn release_status(release: &Release, current_version: &str) -> (status: ReleaseStatus)
    ensures
        status == status_of(release@, current_version@),
{
    if release.is_prerelease {
        ReleaseStatus::Prerelease
    } else if is_newer_version(release.version.as_str(), current_version) {
        ReleaseStatus::Newer
    } else if same_str(release.version.as_str(), current_version) {
        ReleaseStatus::Current
    } else {
        ReleaseStatus::Older
    }
}

/// The colour of a status, as the escape sequence that a terminal takes.
pub fn status_color(status: ReleaseStatus) -> (color: &'static str)
    ensures
        color@ == color_of(status),
{
    match status {
        ReleaseStatus::Prerelease => PRERELEASE_COLOR,
        ReleaseStatus::Newer => NEWER_COLOR,
        ReleaseStatus::Current => CURRENT_COLOR,
        ReleaseStatus::Older => OLDER_COLOR,
    }
}

/// Writes the line of a release, given the date of its publication as text.
pub fn release_line(release: &Release, current_version: &str, date: &str) -> (line: String)
    ensures
        line@ == line_of(release@, current_version@, date@),
{
    let mut line = status_color(release_status(release, current_version)).to_owned();
    line.append(VERSION_MARK);
    line.append(release.version.as_str());
    if release.is_prerelease {
        line.append(PRERELEASE_TAG);
    }
    line.append(LINE_SEPARATOR);
    line.append(release.repo.as_str());
    line.append(LINE_SEPARATOR);
    line.append(date);
    line.append(COLOR_RESET);
    line
}

/// The calendar date on which a release was published, where its moment of
/// publication has one.
pub open spec fn date_of(release: ReleaseView) -> Option<Seq<char>> {
    utc_date_text(release.published_at.secs as int, release.published_at.nanos as int)
}

/// The line of a release with the date of its publication. There is none
/// where the moment of publication has no calendar date.
pub open spec fn dated_line_of(release: ReleaseView, current: Seq<char>) -> Option<Seq<char>> {
    match date_of(release) {
        Some(date) => Some(line_of(release, current, date)),
        None => None,
    }
}

/// What a line that may be absent holds.
pub open spec fn line_view(line: Option<String>) -> Option<Seq<char>> {
    match line {
        Some(text) => Some(text@),
        None => None,
    }
}

/// Writes the line of a release.
pub fn format_release(release: &Release, current_version: &str) -> (line: Option<String>)
    ensures
        line_view(line) == dated_line_of(release@, current_version@),
{
    match utc_date(release.published_at) {
        Some(date) => Some(release_line(release, current_version, date.as_str())),
        None => None,
    }
}

/// Writes the heading of a listing.
pub fn listing_heading(current_version: &str) -> (heading: String)
    ensures
        heading@ == heading_of(current_version@),
{
    let mut heading = HEADING_START.to_owned();
    heading.append(current_version);
    heading.append(HEADING_END);
    heading
}

/// Whether every release of a list was published at a moment that has a
/// calendar date.
pub open spec fn all_dated(releases: Seq<ReleaseView>) -> bool {
    forall|k: int| 0 <= k < releases.len() ==> date_of(#[trigger] releases[k]) is Some
}

/// The lines of a listing are the heading and, in the order of the releases,
/// the line of each.
pub open spec fn is_listing(
    releases: Seq<ReleaseView>,
    current: Seq<char>,
    lines: Seq<String>,
) -> bool {
    &&& lines.len() == releases.len() + 1
    &&& lines[0]@ == heading_of(current)
    &&& forall|k: int|
        0 <= k < releases.len() ==> dated_line_of(#[trigger] releases[k], current) == Some(
            lines[k + 1]@,
        )
}

/// Writes the listing of releases for a terminal: the heading, then one line
/// for each release in the order given. There is no listing where a release
/// was published at a moment that has no calendar date.
pub fn render_releases_list(releases: &[Release], current_version: &str) -> (listing: Option<
    Vec<String>,
>)
    ensures
        listing is Some <==> all_dated(release_views(releases@)),
        listing matches Some(lines) ==> is_listing(
            release_views(releases@),
            current_version@,
            lines@,
        ),
{
    let ghost views = release_views(releases@);
    let mut lines: Vec<String> = Vec::new();
    lines.push(listing_heading(current_version));
    let mut at: usize = 0;
    while at < releases.len()
        invariant
            at <= releases.len(),
            views == release_views(releases@),
            lines@.len() == at + 1,
            lines@[0]@ == heading_of(current_version@),
            forall|k: int|
                0 <= k < at ==> dated_line_of(#[trigger] views[k], current_version@) == Some(
                    lines@[k + 1]@,
                ),
        decreases releases.len() - at,
    {
        assert(views[at as int] == releases@[at as int]@);
        match format_release(&releases[at], current_version) {
            Some(line) => {
                lines.push(line);
            },
            None => {
                return None;
            },
        }
        at = at + 1;
    }
    Some(lines)
}

} // verus!
