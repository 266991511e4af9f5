//! The usage limit: when it was hit, and whether enough time has passed to
//! try the limited service again. The moment is kept in a marker file under
//! the tool's home directory. The tracker names that file and judges what was
//! read from it; reading and writing it is the caller's part.

use std::path::Path;
use std::path::PathBuf;
use vstd::prelude::*;

verus! {

/// A path of the file system, `std::path::Path`: carried, never looked into.
#[verifier::external_type_specification]
#[verifier::external_body]
pub struct ExPath(Path);

/// An owned path, `std::path::PathBuf`: carried, never looked into.
#[verifier::external_type_specification]
#[verifier::external_body]
pub struct ExPathBuf(PathBuf);

/// Seconds after which a limit that was hit is no longer taken to hold: five
/// hours.
pub const LIMIT_RETRY_DELAY_SECS: u64 = 5 * 60 * 60;

/// Name of the marker file under the home directory.
pub const LIMIT_FILE_NAME: &'static str = "limit";

/// What the marker file holds.
#[derive(Debug, Clone, Copy, PartialEq, Eq, Structural)]
pub struct LimitState {
    /// When the limit was hit, in seconds since the start of 1970.
    pub hit_at: u64,
}

/// What reading the marker file gave.
#[derive(Debug, Clone, Copy, PartialEq, Eq, Structural)]
pub enum LimitRecord {
    /// There is no marker file.
    Absent,
    /// The marker file holds this state.
    Recorded(LimitState),
    /// The marker file is there, but it cannot be read or holds no state.
    Unreadable,
}

/// The seconds that a reading of the clock counts as. A clock that stands
/// before the start of 1970 gives no reading and counts as zero.
pub open spec fn clock_seconds(now: Option<u64>) -> u64 {
    match now {
        Some(seconds) => seconds,
        None => 0,
    }
}

/// Whether the limited service may be tried again: always, unless a limit is
/// on record that was hit less than five hours ago.
pub open spec fn may_retry(record: LimitRecord, now: Option<u64>) -> bool {
    match record {
        LimitRecord::Recorded(state) => clock_seconds(now) >= state.hit_at
            + LIMIT_RETRY_DELAY_SECS,
        _ => true,
    }
}

/// Appends a file name to a directory with `std::path::Path::join`. How a
/// directory and a name make a path differs from one platform to the next,
/// so the contract says nothing of the path that comes back.
#[verifier::external_body]
fn join_path(directory: &Path, file_name: &str) -> (joined: PathBuf) {
    directory.join(file_name)
}

/// Keeps track of a usage limit through a marker file.
#[derive(Debug)]
pub struct LimitTracker {
    limit_file: PathBuf,
}

impl LimitTracker {
    /// A tracker whose marker file is `limit` under the home directory: the
    /// path that the platform makes of the two. The tracker is the one that
    /// `with_limit_file` makes for that path.
    pub fn new(codex_home: &Path) -> (tracker: Self) {
        Self::with_limit_file(join_path(codex_home, LIMIT_FILE_NAME))
    }

    /// A tracker for a given marker file.
    pub fn with_limit_file(limit_file: PathBuf) -> (tracker: Self)
        ensures
            tracker.marker() == limit_file,
    {
        LimitTracker { limit_file }
    }

    /// The marker file that the tracker names.
    pub closed spec fn marker(&self) -> PathBuf {
        self.limit_file
    }

    /// The marker file.
    pub fn limit_file(&self) -> (path: &PathBuf)
        ensures
            *path == self.marker(),
    {
        &self.limit_file
    }

    /// The state to write to the marker file when the limit is hit now. A
    /// clock that gives no reading leaves nothing to write.
    pub fn record_limit_hit(&self, now: Option<u64>) -> (state: Option<LimitState>)
        ensures
            state == match now {
                Some(seconds) => Some(LimitState { hit_at: seconds }),
                None => None,
            },
    {
        match now {
            Some(seconds) => Some(LimitState { hit_at: seconds }),
            None => None,
        }
    }

    /// Whether enough time has passed since the limit was hit to try the
    /// limited service again.
    pub fn should_retry_chatgpt(&self, record: &LimitRecord, now: Option<u64>) -> (retry: bool)
        ensures
            retry == may_retry(*record, now),
    {
        match record {
            LimitRecord::Recorded(state) => {
                let seconds = match now {
                    Some(seconds) => seconds,
                    None => 0,
                };
                seconds >= LIMIT_RETRY_DELAY_SECS && seconds - LIMIT_RETRY_DELAY_SECS
                    >= state.hit_at
            },
            _ => true,
        }
    }

    /// Whether a limit is on record that still holds.
    pub fn has_active_limit(&self, record: &LimitRecord, now: Option<u64>) -> (active: bool)
        ensures
            active == !may_retry(*record, now),
    {
        !self.should_retry_chatgpt(record, now)
    }
}

/// A limit that was just put on record holds; it holds until five hours have
/// passed and not after; and without a readable record no limit holds.
pub proof fn lemma_limit_holds_for_the_delay(hit_at: u64, now: u64)
    ensures
        !may_retry(LimitRecord::Recorded(LimitState { hit_at }), Some(hit_at)),
        may_retry(LimitRecord::Recorded(LimitState { hit_at }), Some(now)) <==> now - hit_at
            >= LIMIT_RETRY_DELAY_SECS,
        may_retry(LimitRecord::Absent, Some(now)),
        may_retry(LimitRecord::Unreadable, Some(now)),
{
}

} // verus!
