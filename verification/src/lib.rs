//! Named, cross-process lock coordination built on per-name lock files.
//!
//! The library holds the deciding parts of the scheme: turning a user-chosen
//! name into a filesystem-safe lock-file path, selecting the base directory,
//! and attributing each failure of the acquisition sequence to the stage that
//! caused it. The surrounding process performs the directory, file and OS
//! advisory-lock calls and feeds their outcomes back into these functions; the
//! acquisition itself blocks until the OS grants the lock, with no timeout and
//! no retry.

use vstd::prelude::*;

mod error;
mod name;

pub use crate::error::Error;
pub use crate::error::LockMode;
pub use crate::error::mode_label;
pub use crate::name::char_utf8_len;
pub use crate::name::is_allowed_char;
pub use crate::name::is_space_char;
pub use crate::name::lemma_sanitize_all_allowed;
pub use crate::name::lemma_sanitize_fixes_allowed;
pub use crate::name::lemma_sanitize_idempotent;
pub use crate::name::lemma_sanitize_unit_length;
pub use crate::name::sanitize;
pub use crate::name::sanitize_units;
pub use crate::name::spec_sanitize;
pub use crate::name::spec_trimmed_empty;
pub use crate::name::spec_utf8_len;
pub use crate::name::trimmed_empty;

verus! {

use vstd::string::StringExecFns;

/// The file name derived from a lock name: the sanitized name with the
/// `.lock` suffix appended.
pub open spec fn spec_lock_file_name(name: Seq<char>) -> Seq<char> {
    spec_sanitize(name) + ".lock"@
}

/// The full lock-file path: `<base_dir>/<sanitized name>.lock`.
pub open spec fn spec_lock_file_path(base_dir: Seq<char>, name: Seq<char>) -> Seq<char> {
    base_dir + "/"@ + spec_lock_file_name(name)
}

/// A named, cross-process lock handle. It owns the derived lock-file path and
/// nothing else: no file is opened and no OS resource is held until a lock is
/// requested, and the same handle can issue any number of requests.
#[derive(Debug, Clone)]
pub struct XProcessLock {
    base_dir: String,
    file_name: String,
}

/// The stages of the acquisition sequence, in the order they run: ensure the
/// parent directory exists, open the lock file, then request the OS lock.
#[derive(Clone, Copy, Debug, PartialEq, Eq, Structural)]
pub enum AcquireStage {
    /// Create the lock file's parent directory and all missing ancestors.
    EnsureDir,
    /// Open the lock file itself, creating it if missing.
    OpenFile,
    /// Request the OS advisory lock in the chosen mode, blocking until granted.
    AcquireOsLock,
}

/// How the lock file must be opened: read and write access (write access is
/// required for locking on some platforms), create-if-missing, and never
/// truncating, since pre-existing content must be preserved.
pub struct OpenPlan {
    pub read: bool,
    pub write: bool,
    pub create: bool,
    pub truncate: bool,
}

/// The one way the lock file is ever opened.
pub fn open_plan() -> (p: OpenPlan)
    ensures
        p.read,
        p.write,
        p.create,
        !p.truncate,
{
    OpenPlan { read: true, write: true, create: true, truncate: false }
}

/// The stage that follows a successful stage, or `None` after the last: the
/// sequence is fixed, with no retry and no skipped step.
pub fn next_stage(stage: AcquireStage) -> (r: Option<AcquireStage>)
    ensures
        stage is EnsureDir ==> r == Some(AcquireStage::OpenFile),
        stage is OpenFile ==> r == Some(AcquireStage::AcquireOsLock),
        stage is AcquireOsLock ==> r is None,
{
    match stage {
        AcquireStage::EnsureDir => Some(AcquireStage::OpenFile),
        AcquireStage::OpenFile => Some(AcquireStage::AcquireOsLock),
        AcquireStage::AcquireOsLock => None,
    }
}

impl XProcessLock {
    /// The directory the lock file lives in.
    pub closed spec fn spec_parent(&self) -> Seq<char> {
        self.base_dir@
    }

    /// The full path of the lock file.
    pub closed spec fn spec_path(&self) -> Seq<char> {
        self.base_dir@ + "/"@ + self.file_name@
    }

    /// Create a lock handle identified by `name`, placing its lock file under
    /// `base_dir`. Fails exactly when `name` is empty or all-whitespace; the
    /// trimming is only for that emptiness check, the derived file name keeps
    /// the whitespace (sanitized to underscores).
    pub fn create(name: &str, base_dir: &str) -> (r: Result<XProcessLock, Error>)
        ensures
            r is Err <==> spec_trimmed_empty(name@),
            r matches Err(e) ==> e is EmptyName,
            r matches Ok(l) ==> l.spec_parent() == base_dir@ && l.spec_path()
                == spec_lock_file_path(base_dir@, name@),
    {
        if trimmed_empty(name) {
            return Err(Error::EmptyName);
        }
        let file_name = sanitize(name).concat(".lock");
        Ok(XProcessLock { base_dir: base_dir.to_owned(), file_name })
    }

    /// The full lock-file path, recomputed from the handle's parts.
    pub fn lock_file_path(&self) -> (r: String)
        ensures
            r@ == self.spec_path(),
    {
        let mut p = self.base_dir.clone();
        p.append("/");
        p.append(self.file_name.as_str());
        p
    }

    /// The directory that must exist before the lock file can be opened.
    pub fn parent_dir(&self) -> (r: &str)
        ensures
            r@ == self.spec_parent(),
    {
        self.base_dir.as_str()
    }

    /// Attribute a failure of the acquisition sequence to the stage it arose
    /// in: a tagged error carrying the path the stage was attempted on and,
    /// for the lock request itself, the requested mode.
    pub fn stage_failure(&self, stage: AcquireStage, mode: LockMode, message: String) -> (e: Error)
        ensures
            stage is EnsureDir ==> (e matches Error::CreateDir { path, message: m } && path@
                == self.spec_parent() && m@ == message@),
            stage is OpenFile ==> (e matches Error::OpenLockFile { path, message: m } && path@
                == self.spec_path() && m@ == message@),
            stage is AcquireOsLock ==> (e matches Error::AcquireLock { path, mode: md, message: m }
                && path@ == self.spec_path() && md == mode && m@ == message@),
    {
        match stage {
            AcquireStage::EnsureDir => Error::CreateDir { path: self.base_dir.clone(), message },
            AcquireStage::OpenFile => Error::OpenLockFile { path: self.lock_file_path(), message },
            AcquireStage::AcquireOsLock => Error::AcquireLock {
                path: self.lock_file_path(),
                mode,
                message,
            },
        }
    }
}

/// The base directory under which lock files live: an override, when one is
/// configured and non-empty, is used verbatim (no sanitization, no
/// normalization); otherwise the platform temporary directory with an
/// `xprocess-lock` subdirectory.
pub fn resolve_base_dir(override_dir: Option<&str>, temp_dir: &str) -> (r: String)
    ensures
        match override_dir {
            Some(d) => if d@.len() > 0 {
                r@ == d@
            } else {
                r@ == temp_dir@ + "/xprocess-lock"@
            },
            None => r@ == temp_dir@ + "/xprocess-lock"@,
        },
{
    match override_dir {
        Some(d) => if !d.is_empty() {
            d.to_owned()
        } else {
            temp_dir.to_owned().concat("/xprocess-lock")
        },
        None => temp_dir.to_owned().concat("/xprocess-lock"),
    }
}

} // verus!
