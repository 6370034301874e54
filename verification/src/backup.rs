//! The backup gate.
//!
//! Before the first mutating write to a file, a byte-identical copy must
//! exist at the original path with `.bak` appended — unless backups were
//! disabled. The copy itself is an input/output action of the caller; what
//! is decided here is whether one is owed and what it is to be named.

use vstd::prelude::*;
use vstd::string::StringExecFns;

verus! {

/// Holds the run-wide choice of whether mutated files get a backup copy.
pub struct BackupManager {
    pub no_backup: bool,
}

impl BackupManager {
    pub fn new(no_backup: bool) -> (r: BackupManager)
        ensures
            r.no_backup == no_backup,
    {
        BackupManager { no_backup }
    }

    /// A backup copy is owed before the first mutating write exactly when
    /// backups were not disabled.
    pub fn wants_backup(&self) -> (r: bool)
        ensures
            r == !self.no_backup,
    {
        !self.no_backup
    }
}

/// The name a backup copy is written under: the original file name with
/// `.bak` appended, beside the original.
pub fn backup_file_name(name: &str) -> (r: String)
    ensures
        r@ == name@ + ".bak"@,
{
    let mut out = String::from_str(name);
    out.append(".bak");
    out
}

} // verus!
