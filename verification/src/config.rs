//! What a run is told at start-up.

use vstd::prelude::*;

verus! {

/// Whether untracked entries are only reported or also deleted.
#[derive(Clone, Copy, Debug, PartialEq, Eq, Structural)]
pub enum RunMode {
    /// Report what would be deleted, and delete nothing.
    DryRun,
    /// Report each untracked entry and delete it.
    RealRun,
}

impl RunMode {
    /// The mode that the command line asks for: a real run where the flag
    /// is given, else a dry run.
    pub fn from_flag(given: bool) -> (mode: RunMode)
        ensures
            mode == (if given { RunMode::RealRun } else { RunMode::DryRun }),
    {
        if given {
            RunMode::RealRun
        } else {
            RunMode::DryRun
        }
    }
}

/// The fixed places and the account of an installation. Paths may start with
/// `~` or `~user`, which is resolved to a home directory when the path is
/// needed.
#[derive(Clone, Debug, PartialEq, Eq)]
pub struct Config {
    /// The unprivileged account that the run switches to.
    pub account: String,
    /// The lock file that the build orchestrator holds while it builds.
    pub lock_file: String,
    /// The directory that holds one build directory for each package.
    pub repository: String,
}

/// The mathematical value of a [`Config`].
pub struct ConfigView {
    pub account: Seq<char>,
    pub lock_file: Seq<char>,
    pub repository: Seq<char>,
}

impl View for Config {
    type V = ConfigView;

    open spec fn view(&self) -> ConfigView {
        ConfigView {
            account: self.account@,
            lock_file: self.lock_file@,
            repository: self.repository@,
        }
    }
}

/// The account of the standard installation.
pub const ACCOUNT: &'static str = "lilydjwg";

/// The lock file of the standard installation.
pub const LOCK_FILE: &'static str = "~lilydjwg/.lilac/.lock";

/// The repository of the standard installation.
pub const REPOSITORY: &'static str = "~lilydjwg/archgitrepo";

impl Default for Config {
    /// The standard installation.
    fn default() -> (config: Config)
        ensures
            config@ == (ConfigView {
                account: ACCOUNT@,
                lock_file: LOCK_FILE@,
                repository: REPOSITORY@,
            }),
    {
        Config {
            account: ACCOUNT.to_owned(),
            lock_file: LOCK_FILE.to_owned(),
            repository: REPOSITORY.to_owned(),
        }
    }
}

} // verus!
