//! Putting the new executable in the place of the running one. The work on
//! the file system is the caller's; this module says which step comes next,
//! and what the failure of a step means.

use vstd::prelude::*;
use crate::error::UpdateError;

verus! {

/// Extension of the temporary file beside the running executable.
pub const TEMP_EXTENSION: &'static str = "tmp";

/// Extension of the backup of the running executable.
pub const BACKUP_EXTENSION: &'static str = "old";

/// Permission bits of the new executable: read and execute for everyone,
/// write for the owner.
pub const EXECUTABLE_MODE: u32 = 0o755;

/// The bits that let owner, group and others execute a file.
pub const EXECUTE_BITS: u32 = 0o111;

/// The kind of host that the tool runs on.
#[derive(Debug, Clone, Copy, PartialEq, Eq, Structural)]
pub enum HostKind {
    /// A running executable's file can be replaced by renaming another file
    /// onto its path.
    PosixLike,
    /// A running executable's file cannot be overwritten, but it can be
    /// renamed.
    WindowsLike,
}

/// One step of a replacement.
#[derive(Debug, Clone, Copy, PartialEq, Eq, Structural)]
pub enum ReplaceAction {
    /// Write the new executable to the temporary file.
    WriteTemp,
    /// Set the permission bits of the temporary file.
    SetPermissions { mode: u32 },
    /// Rename the running executable to the backup path.
    MoveCurrentToBackup,
    /// Rename the temporary file to the path of the running executable.
    MoveTempToCurrent,
    /// Delete the backup.
    RemoveBackup,
}

/// A step, and whether the replacement depends on it.
#[derive(Debug, Clone, Copy, PartialEq, Eq, Structural)]
pub struct PlannedStep {
    pub action: ReplaceAction,
    /// The failure of a required step ends the replacement; the failure of
    /// another is passed over.
    pub required: bool,
}

/// Where a replacement stands.
#[derive(Debug, Clone, Copy, PartialEq, Eq, Structural)]
pub enum ReplaceProgress {
    /// The caller performs step number `step` and reports how it went.
    Perform { step: usize, action: ReplaceAction },
    /// The new executable is in place.
    Succeeded,
    /// The replacement has ended without success.
    Failed { error: UpdateError },
}

/// The steps of a replacement, in their order. Everywhere the new
/// executable is first written to a temporary file. On a host like POSIX the
/// file is made executable and renamed onto the running executable. On a host
/// like Windows the running executable is moved out of the way first, and the
/// backup is deleted at the end if it can be.
pub open spec fn plan_of(host: HostKind) -> Seq<PlannedStep> {
    match host {
        HostKind::PosixLike => seq![
            PlannedStep { action: ReplaceAction::WriteTemp, required: true },
            PlannedStep {
                action: ReplaceAction::SetPermissions { mode: EXECUTABLE_MODE },
                required: true,
            },
            PlannedStep { action: ReplaceAction::MoveTempToCurrent, required: true },
        ],
        HostKind::WindowsLike => seq![
            PlannedStep { action: ReplaceAction::WriteTemp, required: true },
            PlannedStep { action: ReplaceAction::MoveCurrentToBackup, required: true },
            PlannedStep { action: ReplaceAction::MoveTempToCurrent, required: true },
            PlannedStep { action: ReplaceAction::RemoveBackup, required: false },
        ],
    }
}

/// Where a replacement stands before its step number `step`.
pub open spec fn progress_at(host: HostKind, step: int) -> ReplaceProgress {
    if 0 <= step < plan_of(host).len() {
        ReplaceProgress::Perform { step: step as usize, action: plan_of(host)[step].action }
    } else {
        ReplaceProgress::Succeeded
    }
}

/// Where a replacement stands after its step number `step` has succeeded or
/// failed. A required step that failed ends it, and so does a step that the
/// plan does not hold.
pub open spec fn progress_after(host: HostKind, step: int, succeeded: bool) -> ReplaceProgress {
    if !(0 <= step < plan_of(host).len()) || (!succeeded && plan_of(host)[step].required) {
        ReplaceProgress::Failed { error: UpdateError::ReplaceError }
    } else {
        progress_at(host, step + 1)
    }
}

/// The steps of a replacement on a host.
pub fn replacement_plan(host: HostKind) -> (plan: Vec<PlannedStep>)
    ensures
        plan@ == plan_of(host),
{
    let mut plan: Vec<PlannedStep> = Vec::new();
    plan.push(PlannedStep { action: ReplaceAction::WriteTemp, required: true });
    match host {
        HostKind::PosixLike => {
            plan.push(
                PlannedStep {
                    action: ReplaceAction::SetPermissions { mode: EXECUTABLE_MODE },
                    required: true,
                },
            );
            plan.push(PlannedStep { action: ReplaceAction::MoveTempToCurrent, required: true });
        },
        HostKind::WindowsLike => {
            plan.push(PlannedStep { action: ReplaceAction::MoveCurrentToBackup, required: true });
            plan.push(PlannedStep { action: ReplaceAction::MoveTempToCurrent, required: true });
            plan.push(PlannedStep { action: ReplaceAction::RemoveBackup, required: false });
        },
    }
    plan
}

/// Starts a replacement: tells its first step.
pub fn begin_replacement(host: HostKind) -> (progress: ReplaceProgress)
    ensures
        progress == progress_at(host, 0),
{
    let plan = replacement_plan(host);
    ReplaceProgress::Perform { step: 0, action: plan[0].action }
}

/// Goes on with a replacement after the caller has performed its step number
/// `step`: tells the next step, or how the replacement ended.
pub fn continue_replacement(host: HostKind, step: usize, succeeded: bool) -> (progress:
    ReplaceProgress)
    ensures
        progress == progress_after(host, step as int, succeeded),
{
    let plan = replacement_plan(host);
    if step >= plan.len() || (!succeeded && plan[step].required) {
        ReplaceProgress::Failed { error: UpdateError::ReplaceError }
    } else if step + 1 < plan.len() {
        ReplaceProgress::Perform { step: step + 1, action: plan[step + 1].action }
    } else {
        ReplaceProgress::Succeeded
    }
}

/// How a replacement runs from step number `step` on, where `outcomes` tells
/// of each step whether it succeeds: the actions that are performed, and
/// whether the new executable ends up in place.
pub open spec fn run_from(host: HostKind, outcomes: Seq<bool>, step: int) -> (Seq<ReplaceAction>, bool)
    decreases plan_of(host).len() - step,
{
    if step < 0 || step >= plan_of(host).len() || step >= outcomes.len() {
        (Seq::empty(), step >= plan_of(host).len())
    } else {
        match progress_after(host, step, outcomes[step]) {
            ReplaceProgress::Failed { .. } => (seq![plan_of(host)[step].action], false),
            _ => {
                let rest = run_from(host, outcomes, step + 1);
                (seq![plan_of(host)[step].action] + rest.0, rest.1)
            },
        }
    }
}

/// On a host like POSIX the new executable is written to the temporary
/// file, made executable for owner, group and others, and renamed straight
/// onto the running executable. The replacement succeeds where these three
/// steps do; the file is renamed only after the two steps before it have
/// succeeded; and nothing is moved out of the way or deleted.
pub proof fn lemma_posix_replacement_is_direct(outcomes: Seq<bool>)
    requires
        outcomes.len() >= plan_of(HostKind::PosixLike).len(),
    ensures
        run_from(HostKind::PosixLike, outcomes, 0).1 <==> outcomes[0] && outcomes[1]
            && outcomes[2],
        run_from(HostKind::PosixLike, outcomes, 0).1 ==> run_from(
            HostKind::PosixLike,
            outcomes,
            0,
        ).0 == seq![
            ReplaceAction::WriteTemp,
            ReplaceAction::SetPermissions { mode: EXECUTABLE_MODE },
            ReplaceAction::MoveTempToCurrent,
        ],
        run_from(HostKind::PosixLike, outcomes, 0).0.contains(ReplaceAction::MoveTempToCurrent)
            ==> outcomes[0] && outcomes[1],
        !run_from(HostKind::PosixLike, outcomes, 0).0.contains(ReplaceAction::MoveCurrentToBackup),
        !run_from(HostKind::PosixLike, outcomes, 0).0.contains(ReplaceAction::RemoveBackup),
        EXECUTABLE_MODE & EXECUTE_BITS == EXECUTE_BITS,
{
    reveal_with_fuel(run_from, 5);
    assert(0o755u32 & 0o111u32 == 0o111u32) by (bit_vector);
}

/// On a host like Windows the running executable is moved to the backup
/// path before the new one takes its place: the temporary file is renamed
/// only after that move has succeeded. The replacement succeeds where the
/// file is written and the two renames succeed; whether the backup can be
/// deleted at the end makes no difference.
pub proof fn lemma_windows_replacement_backs_up(outcomes: Seq<bool>)
    requires
        outcomes.len() >= plan_of(HostKind::WindowsLike).len(),
    ensures
        run_from(HostKind::WindowsLike, outcomes, 0).1 <==> outcomes[0] && outcomes[1]
            && outcomes[2],
        run_from(HostKind::WindowsLike, outcomes, 0).1 ==> run_from(
            HostKind::WindowsLike,
            outcomes,
            0,
        ).0 == seq![
            ReplaceAction::WriteTemp,
            ReplaceAction::MoveCurrentToBackup,
            ReplaceAction::MoveTempToCurrent,
            ReplaceAction::RemoveBackup,
        ],
        run_from(HostKind::WindowsLike, outcomes, 0).0.contains(ReplaceAction::MoveTempToCurrent)
            ==> outcomes[0] && outcomes[1],
{
    reveal_with_fuel(run_from, 6);
}

/// The failure of a required step ends the replacement there: no later step
/// is performed.
pub proof fn lemma_required_failure_is_final(host: HostKind, step: int, succeeded: bool)
    requires
        0 <= step < plan_of(host).len(),
    ensures
        (progress_after(host, step, succeeded) is Failed) <==> (!succeeded && plan_of(
            host,
        )[step].required),
        progress_after(host, step, succeeded) is Succeeded ==> step + 1 == plan_of(host).len(),
        progress_after(host, step, succeeded) matches ReplaceProgress::Perform { step: next, action }
            ==> next == step + 1 && action == plan_of(host)[step + 1].action,
{
}

} // verus!
