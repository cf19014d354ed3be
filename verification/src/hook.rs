//! The git hooks this toolkit can install, and the check that a directory is
//! a git repository.

use vstd::prelude::*;

verus! {

/// Command-line arguments for the `hook` subcommand: which hook to install.
pub struct HookCli {
    pub hook: GitHook,
}

/// A git hook this toolkit knows about.
///
/// Only `commit-msg` (shortcode spell-checking) is implemented; `pre-commit`
/// is reserved.
#[derive(Clone, Copy, Debug, PartialEq, Eq, Structural)]
pub enum GitHook {
    CommitMsg,
    PreCommit,
}

impl GitHook {
    /// The hook's file name, as git expects it under `.git/hooks`.
    pub open spec fn spec_name(&self) -> Seq<char> {
        match self {
            GitHook::CommitMsg => "commit-msg"@,
            GitHook::PreCommit => "pre-commit"@,
        }
    }

    pub fn as_str(&self) -> (s: &'static str)
        ensures
            s@ == self.spec_name(),
    {
        match self {
            GitHook::CommitMsg => "commit-msg",
            GitHook::PreCommit => "pre-commit",
        }
    }

    /// The hook's path relative to the hooks directory: just its file name.
    pub fn as_path(&self) -> (p: String)
        ensures
            p@ == self.spec_name(),
    {
        String::from_str(self.as_str())
    }
}

/// A directory is a git repository exactly when it has an entry named `.git`.
///
/// `entries` are the names found in the directory; the caller lists them.
pub fn check_is_git_repo(entries: &Vec<String>) -> (b: bool)
    ensures
        b == exists|i: int| 0 <= i < entries@.len() && entries@[i]@ == ".git"@,
{
    let mut k: usize = 0;
    let marker = String::from_str(".git");
    while k < entries.len()
        invariant
            0 <= k <= entries@.len(),
            marker@ == ".git"@,
            forall|i: int| 0 <= i < k ==> entries@[i]@ != ".git"@,
        decreases entries@.len() - k,
    {
        if entries[k] == marker {
            return true;
        }
        k += 1;
    }
    false
}

} // verus!
