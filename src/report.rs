use vstd::prelude::*;
use vstd::string::StringExecFns;
use crate::error::UpdateError;
use crate::reconcile::Action;

verus! {

/// Suffix of the temporary file that new content is written to before it is
/// renamed over the destination.
pub const TEMP_SUFFIX: &'static str = ".part";

/// Name of the primary launchable binary within the install directory.
pub const ENGINE_FILE: &'static str = "TTREngine";

/// Execute (and read) bits for the owner, added to the engine's mode.
pub const OWNER_EXEC_BITS: u32 = 0o500;

/// How one file of a run ended.
#[derive(Debug)]
pub enum FileOutcome {
    /// The local copy already had the target content.
    UpToDate,
    /// The local copy was patched to the target content.
    Patched,
    /// The full file was downloaded and installed.
    FreshlyInstalled,
    /// The file could not be updated; other files are not affected.
    Failed(UpdateError),
}

/// The outcome of a file once its chosen action has run.
pub open spec fn outcome_spec(action: Action, result: Result<(), UpdateError>) -> FileOutcome {
    match result {
        Err(e) => FileOutcome::Failed(e),
        Ok(()) => match action {
            Action::UpToDate => FileOutcome::UpToDate,
            Action::Patch(_) => FileOutcome::Patched,
            Action::Download => FileOutcome::FreshlyInstalled,
        },
    }
}

/// Records how a file ended, from its action and the result of running it.
pub fn file_outcome(action: Action, result: Result<(), UpdateError>) -> (r: FileOutcome)
    ensures
        r == outcome_spec(action, result),
{
    match result {
        Err(e) => FileOutcome::Failed(e),
        Ok(()) => match action {
            Action::UpToDate => FileOutcome::UpToDate,
            Action::Patch(_) => FileOutcome::Patched,
            Action::Download => FileOutcome::FreshlyInstalled,
        },
    }
}

/// The per-file outcomes of a run, and the outcome of the executable fix-up.
#[derive(Debug)]
pub struct UpdateReport {
    pub files: Vec<(String, FileOutcome)>,
    pub fixup: Result<(), UpdateError>,
}

impl UpdateReport {
    /// A run is clean when no file failed and the fix-up succeeded.
    pub open spec fn clean(&self) -> bool {
        &&& self.fixup is Ok
        &&& forall|i: int| 0 <= i < self.files@.len() ==> !(#[trigger] self.files@[i].1 is Failed)
    }

    /// Whether no file failed and the fix-up succeeded.
    pub fn is_clean(&self) -> (r: bool)
        ensures
            r == self.clean(),
    {
        if self.fixup.is_err() {
            return false;
        }
        let mut i: usize = 0;
        while i < self.files.len()
            invariant
                0 <= i <= self.files@.len(),
                forall|j: int| 0 <= j < i ==> !(#[trigger] self.files@[j].1 is Failed),
            decreases self.files@.len() - i,
        {
            if let FileOutcome::Failed(_) = &self.files[i].1 {
                return false;
            }
            i = i + 1;
        }
        true
    }
}

/// The mode of the engine binary after the fix-up: the owner's execute and
/// read bits are added, every other bit is kept.
pub fn set_executable(mode: u32) -> (r: u32)
    ensures
        r == mode | OWNER_EXEC_BITS,
        r & OWNER_EXEC_BITS == OWNER_EXEC_BITS,
        r & !OWNER_EXEC_BITS == mode & !OWNER_EXEC_BITS,
{
    let r = mode | OWNER_EXEC_BITS;
    assert(r & 0o500u32 == 0o500u32 && r & !0o500u32 == mode & !0o500u32) by (bit_vector)
        requires
            r == mode | 0o500u32,
    ;
    r
}

/// Where new content for `dest` is written before it is renamed over `dest`:
/// a path distinct from the live one, so an interrupted write leaves `dest`
/// as it was.
pub fn temp_path(dest: &String) -> (r: String)
    ensures
        r@ == dest@ + TEMP_SUFFIX@,
        r@ != dest@,
{
    proof {
        reveal_strlit(".part");
    }
    let r = dest.clone().concat(TEMP_SUFFIX);
    assert(r@.len() == dest@.len() + 5);
    r
}

} // verus!
