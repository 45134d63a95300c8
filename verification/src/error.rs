//! The error taxonomy: one tagged kind per stage that can fail, each carrying
//! the path it was attempted on, so a caller can report which stage failed
//! without inspecting internals.

use vstd::prelude::*;

verus! {

/// The two advisory-lock modes a caller can request.
#[derive(Clone, Copy, Debug, PartialEq, Eq, Structural)]
pub enum LockMode {
    /// At most one holder, excluding all shared and exclusive holders.
    Exclusive,
    /// Arbitrarily many concurrent holders, excluding any exclusive holder.
    Shared,
}

/// Everything that can go wrong while creating a handle or acquiring a lock.
/// Every fallible step surfaces its failure immediately under its own kind;
/// there is no local recovery or retry.
#[derive(Debug)]
pub enum Error {
    /// The OS declined or failed the lock request itself (not merely blocked).
    AcquireLock { path: String, mode: LockMode, message: String },
    /// The parent directory for the lock file could not be created.
    CreateDir { path: String, message: String },
    /// The supplied lock name was empty or all-whitespace.
    EmptyName,
    /// The worker running the blocking acquisition did not complete normally.
    JoinBlocking { message: String },
    /// The lock file itself could not be opened or created.
    OpenLockFile { path: String, message: String },
}

/// The wording of a lock mode as it appears in error reports.
pub fn mode_label(mode: LockMode) -> (r: &'static str)
    ensures
        mode is Exclusive ==> r@ == "exclusive"@,
        mode is Shared ==> r@ == "shared"@,
{
    match mode {
        LockMode::Exclusive => "exclusive",
        LockMode::Shared => "shared",
    }
}

} // verus!
