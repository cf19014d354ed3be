//! The decision logic of hook installation.
//!
//! Installing a hook alternates between outside work (checking the file
//! system, prompting the user, writing the script, setting permissions) and
//! decisions. The decisions live here as a state machine: the driver performs
//! the command that the current state asks for and feeds the result back as an
//! event. Every transition is stated in full, so the guarantees below (no
//! install outside a git repository, no write without consent) are proved
//! rather than hoped for.

use vstd::prelude::*;
use crate::hook::GitHook;

verus! {

/// How an installation attempt ended.
#[derive(Clone, Copy, Debug, PartialEq, Eq, Structural)]
pub enum InstallOutcome {
    /// The hook script was written and marked executable.
    Installed,
    /// The script was written, but its permissions could not be set; the
    /// user has to mark it executable by hand.
    InstalledNoPerms,
    /// The user declined the prompt; nothing was written.
    Declined,
    /// The working directory is not a git repository.
    NotAGitRepo,
    /// The `.git/hooks` directory is missing.
    MissingHookDir,
    /// Writing the script itself failed.
    WriteFailed,
}

/// Where an installation attempt stands.
#[derive(Clone, Copy, Debug, PartialEq, Eq, Structural)]
pub enum InstallState {
    /// Nothing is known yet; the repository check comes first.
    Start,
    /// The directory is a git repository; the target file must be examined.
    RepoKnown,
    /// The hook file already exists; the user must approve an overwrite.
    AwaitingOverwrite,
    /// The hook file is new; the user must approve the write.
    AwaitingConsent,
    /// The user approved; the script may be written.
    Approved,
    /// The script is on disk; its permissions must be set.
    Written,
    /// The attempt is over.
    Finished(InstallOutcome),
}

/// What the driver learned from its last piece of outside work.
#[derive(Clone, Copy, Debug, PartialEq, Eq, Structural)]
pub enum InstallEvent {
    /// Whether the working directory is a git repository.
    RepoChecked(bool),
    /// Whether the target hook file and its directory exist.
    TargetChecked { file_exists: bool, dir_exists: bool },
    /// The user's answer to the pending prompt; a failed prompt counts as no.
    Answered(bool),
    /// Whether writing the script succeeded.
    WriteDone(bool),
    /// Whether setting the script's permissions succeeded.
    PermsSet(bool),
}

/// The outside work a state asks of the driver.
#[derive(Clone, Copy, Debug, PartialEq, Eq, Structural)]
pub enum InstallCmd {
    /// Look for a `.git` entry in the working directory.
    CheckRepo,
    /// Look for the target hook file and the hooks directory.
    CheckTarget,
    /// Ask whether the existing hook file may be overwritten.
    AskOverwrite,
    /// Ask whether the new hook file may be written.
    AskWrite,
    /// Write the hook script to the target path.
    DoWrite,
    /// Mark the written script as executable.
    SetPerms,
    /// Nothing is left to do.
    Stop,
}

/// The full transition table. An event that does not answer the current
/// state's command leaves the state as it is.
pub open spec fn spec_step(s: InstallState, e: InstallEvent) -> InstallState {
    match (s, e) {
        (InstallState::Start, InstallEvent::RepoChecked(true)) => InstallState::RepoKnown,
        (InstallState::Start, InstallEvent::RepoChecked(false)) => InstallState::Finished(
            InstallOutcome::NotAGitRepo,
        ),
        (
            InstallState::RepoKnown,
            InstallEvent::TargetChecked { file_exists: true, dir_exists: _ },
        ) => InstallState::AwaitingOverwrite,
        (
            InstallState::RepoKnown,
            InstallEvent::TargetChecked { file_exists: false, dir_exists: true },
        ) => InstallState::AwaitingConsent,
        (
            InstallState::RepoKnown,
            InstallEvent::TargetChecked { file_exists: false, dir_exists: false },
        ) => InstallState::Finished(InstallOutcome::MissingHookDir),
        (InstallState::AwaitingOverwrite, InstallEvent::Answered(true)) => InstallState::Approved,
        (InstallState::AwaitingOverwrite, InstallEvent::Answered(false)) => InstallState::Finished(
            InstallOutcome::Declined,
        ),
        (InstallState::AwaitingConsent, InstallEvent::Answered(true)) => InstallState::Approved,
        (InstallState::AwaitingConsent, InstallEvent::Answered(false)) => InstallState::Finished(
            InstallOutcome::Declined,
        ),
        (InstallState::Approved, InstallEvent::WriteDone(true)) => InstallState::Written,
        (InstallState::Approved, InstallEvent::WriteDone(false)) => InstallState::Finished(
            InstallOutcome::WriteFailed,
        ),
        (InstallState::Written, InstallEvent::PermsSet(true)) => InstallState::Finished(
            InstallOutcome::Installed,
        ),
        (InstallState::Written, InstallEvent::PermsSet(false)) => InstallState::Finished(
            InstallOutcome::InstalledNoPerms,
        ),
        _ => s,
    }
}

/// The command each state asks for.
pub open spec fn spec_cmd(s: InstallState) -> InstallCmd {
    match s {
        InstallState::Start => InstallCmd::CheckRepo,
        InstallState::RepoKnown => InstallCmd::CheckTarget,
        InstallState::AwaitingOverwrite => InstallCmd::AskOverwrite,
        InstallState::AwaitingConsent => InstallCmd::AskWrite,
        InstallState::Approved => InstallCmd::DoWrite,
        InstallState::Written => InstallCmd::SetPerms,
        InstallState::Finished(_) => InstallCmd::Stop,
    }
}

/// Advance the installation by one observed event.
pub fn install_step(s: &InstallState, e: &InstallEvent) -> (n: InstallState)
    ensures
        n == spec_step(*s, *e),
{
    match (s, e) {
        (InstallState::Start, InstallEvent::RepoChecked(true)) => InstallState::RepoKnown,
        (InstallState::Start, InstallEvent::RepoChecked(false)) => InstallState::Finished(
            InstallOutcome::NotAGitRepo,
        ),
        (InstallState::RepoKnown, InstallEvent::TargetChecked { file_exists, dir_exists }) => {
            if *file_exists {
                InstallState::AwaitingOverwrite
            } else if *dir_exists {
                InstallState::AwaitingConsent
            } else {
                InstallState::Finished(InstallOutcome::MissingHookDir)
            }
        },
        (InstallState::AwaitingOverwrite, InstallEvent::Answered(yes)) => {
            if *yes {
                InstallState::Approved
            } else {
                InstallState::Finished(InstallOutcome::Declined)
            }
        },
        (InstallState::AwaitingConsent, InstallEvent::Answered(yes)) => {
            if *yes {
                InstallState::Approved
            } else {
                InstallState::Finished(InstallOutcome::Declined)
            }
        },
        (InstallState::Approved, InstallEvent::WriteDone(ok)) => {
            if *ok {
                InstallState::Written
            } else {
                InstallState::Finished(InstallOutcome::WriteFailed)
            }
        },
        (InstallState::Written, InstallEvent::PermsSet(ok)) => {
            if *ok {
                InstallState::Finished(InstallOutcome::Installed)
            } else {
                InstallState::Finished(InstallOutcome::InstalledNoPerms)
            }
        },
        _ => *s,
    }
}

/// The outside work the current state asks for.
pub fn next_cmd(s: &InstallState) -> (c: InstallCmd)
    ensures
        c == spec_cmd(*s),
{
    match s {
        InstallState::Start => InstallCmd::CheckRepo,
        InstallState::RepoKnown => InstallCmd::CheckTarget,
        InstallState::AwaitingOverwrite => InstallCmd::AskOverwrite,
        InstallState::AwaitingConsent => InstallCmd::AskWrite,
        InstallState::Approved => InstallCmd::DoWrite,
        InstallState::Written => InstallCmd::SetPerms,
        InstallState::Finished(_) => InstallCmd::Stop,
    }
}

/// The installed hook's path relative to the repository root.
pub fn install_target_path(hook: &GitHook) -> (p: String)
    requires
        *hook == GitHook::CommitMsg,
    ensures
        p@ == ".git/hooks/"@ + hook.spec_name(),
{
    let dir = String::from_str(".git/hooks/");
    dir.concat(hook.as_str())
}

/// The state after a whole run: `s0` advanced by each event in turn.
pub open spec fn spec_run(s0: InstallState, events: Seq<InstallEvent>) -> InstallState
    decreases events.len(),
{
    if events.len() == 0 {
        s0
    } else {
        spec_run(spec_step(s0, events[0]), events.skip(1))
    }
}

/// Installation refuses to run outside a git-tracked directory: as soon as
/// the repository check comes back negative the attempt is finished with
/// `NotAGitRepo`, a finished attempt never changes state again, and no
/// finished attempt asks for any further work — in particular no write.
pub proof fn lemma_refuses_outside_git_repo()
    ensures
        spec_step(InstallState::Start, InstallEvent::RepoChecked(false)) == InstallState::Finished(
            InstallOutcome::NotAGitRepo,
        ),
        forall|e: InstallEvent|
            spec_step(InstallState::Finished(InstallOutcome::NotAGitRepo), e)
                == InstallState::Finished(InstallOutcome::NotAGitRepo),
        spec_cmd(InstallState::Finished(InstallOutcome::NotAGitRepo)) == InstallCmd::Stop,
{
}

/// Re-running installation over an existing hook file prompts before any
/// overwrite, and declining leaves the file unchanged: an existing target
/// leads to the overwrite prompt, a declined prompt finishes the attempt,
/// and a write is only ever commanded in the state reached by an approving
/// answer — so no run that lacks one touches the file.
pub proof fn lemma_decline_leaves_file_unchanged()
    ensures
        forall|dir: bool|
            spec_step(
                InstallState::RepoKnown,
                InstallEvent::TargetChecked { file_exists: true, dir_exists: dir },
            ) == InstallState::AwaitingOverwrite,
        spec_cmd(InstallState::AwaitingOverwrite) == InstallCmd::AskOverwrite,
        spec_step(InstallState::AwaitingOverwrite, InstallEvent::Answered(false))
            == InstallState::Finished(InstallOutcome::Declined),
        spec_cmd(InstallState::Finished(InstallOutcome::Declined)) == InstallCmd::Stop,
        forall|s: InstallState, e: InstallEvent|
            #[trigger] spec_step(s, e) == InstallState::Approved && s != InstallState::Approved
                ==> e == InstallEvent::Answered(true) && (s == InstallState::AwaitingOverwrite || s
                == InstallState::AwaitingConsent),
        forall|s: InstallState|
            spec_cmd(s) == InstallCmd::DoWrite ==> s == InstallState::Approved,
{
}

/// A run that starts outside a git repository stays refused whatever
/// happens afterwards, so no such run ever commands a write.
pub proof fn lemma_run_refused_outside_git_repo(events: Seq<InstallEvent>)
    ensures
        spec_run(spec_step(InstallState::Start, InstallEvent::RepoChecked(false)), events)
            == InstallState::Finished(InstallOutcome::NotAGitRepo),
        spec_cmd(
            spec_run(spec_step(InstallState::Start, InstallEvent::RepoChecked(false)), events),
        ) == InstallCmd::Stop,
    decreases events.len(),
{
    if events.len() > 0 {
        lemma_run_refused_outside_git_repo(events.skip(1));
    }
}

/// A run in which the user never answers a prompt with yes never reaches
/// the writing state, so it never commands a write: without consent the
/// hook file stays as it was.
pub proof fn lemma_run_without_consent_never_writes(s0: InstallState, events: Seq<InstallEvent>)
    requires
        s0 != InstallState::Approved,
        forall|k: int| 0 <= k < events.len() ==> events[k] != InstallEvent::Answered(true),
    ensures
        spec_run(s0, events) != InstallState::Approved,
        spec_cmd(spec_run(s0, events)) != InstallCmd::DoWrite,
    decreases events.len(),
{
    if events.len() > 0 {
        lemma_run_without_consent_never_writes(spec_step(s0, events[0]), events.skip(1));
    }
}

} // verus!
