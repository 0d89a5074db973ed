use vstd::prelude::*;
use crate::codec::{apply_bspatch, bunzip2_of, decompress, patched};
use crate::error::{Checkpoint, UpdateError};
use crate::hashing::{sha1_hex, sha1_hex_of};
use crate::manifest::{FileObject, PatchObject};
use crate::reconcile::{selects, Action};

verus! {

/// The bytes of a successful result.
pub open spec fn result_bytes(r: Result<Vec<u8>, UpdateError>) -> Result<Seq<u8>, UpdateError> {
    match r {
        Ok(v) => Ok(v@),
        Err(e) => Err(e),
    }
}

/// The outcome of comparing a computed hash with the expected one.
pub open spec fn hash_check(actual: Seq<char>, expected: Seq<char>, at: Checkpoint) -> Result<
    (),
    UpdateError,
> {
    if actual == expected {
        Ok(())
    } else {
        Err(UpdateError::IntegrityMismatch(at))
    }
}

/// What a full-file payload yields: its compressed bytes must hash to the
/// download hash, and its decompressed bytes to the content hash.
pub open spec fn fresh_install(payload: Seq<u8>, obj: FileObject) -> Result<Seq<u8>, UpdateError> {
    if sha1_hex_of(payload) != obj.comp_hash@ {
        Err(UpdateError::IntegrityMismatch(Checkpoint::Download))
    } else {
        match bunzip2_of(payload) {
            None => Err(UpdateError::Decompressing),
            Some(content) => if sha1_hex_of(content) != obj.hash@ {
                Err(UpdateError::IntegrityMismatch(Checkpoint::Content))
            } else {
                Ok(content)
            },
        }
    }
}

/// What a compressed patch payload yields: the decompressed patch, once both
/// the compressed and the decompressed bytes have matched their hashes.
pub open spec fn verified_patch(comp_patch: Seq<u8>, patch: PatchObject) -> Result<
    Seq<u8>,
    UpdateError,
> {
    if sha1_hex_of(comp_patch) != patch.comp_patch_hash@ {
        Err(UpdateError::IntegrityMismatch(Checkpoint::CompressedPatch))
    } else {
        match bunzip2_of(comp_patch) {
            None => Err(UpdateError::Decompressing),
            Some(p) => if sha1_hex_of(p) != patch.patch_hash@ {
                Err(UpdateError::IntegrityMismatch(Checkpoint::Patch))
            } else {
                Ok(p)
            },
        }
    }
}

/// What patching `original` with a compressed patch payload yields: the
/// patched bytes, once they hash to the file's content hash.
pub open spec fn patch_install(
    comp_patch: Seq<u8>,
    patch: PatchObject,
    obj: FileObject,
    original: Seq<u8>,
) -> Result<Seq<u8>, UpdateError> {
    match verified_patch(comp_patch, patch) {
        Err(e) => Err(e),
        Ok(p) => match patched(p, original) {
            None => Err(UpdateError::Patching),
            Some(target) => if sha1_hex_of(target) != obj.hash@ {
                Err(UpdateError::IntegrityMismatch(Checkpoint::Content))
            } else {
                Ok(target)
            },
        },
    }
}

/// Compares a computed hash with the expected one.
pub fn check_hash(actual: &String, expected: &String, at: Checkpoint) -> (r: Result<(), UpdateError>)
    ensures
        r == hash_check(actual@, expected@, at),
{
    if *actual == *expected {
        Ok(())
    } else {
        Err(UpdateError::IntegrityMismatch(at))
    }
}

/// Checks a fetched full-file payload and decompresses it. Only the bytes
/// returned in `Ok` may be written to the destination.
pub fn download_fresh(payload: &[u8], obj: &FileObject) -> (r: Result<Vec<u8>, UpdateError>)
    ensures
        result_bytes(r) == fresh_install(payload@, *obj),
{
    let h = sha1_hex(payload);
    check_hash(&h, &obj.comp_hash, Checkpoint::Download)?;
    match decompress(payload) {
        None => Err(UpdateError::Decompressing),
        Some(content) => {
            let ch = sha1_hex(content.as_slice());
            check_hash(&ch, &obj.hash, Checkpoint::Content)?;
            Ok(content)
        },
    }
}

/// Checks a fetched compressed patch at both integrity gates and returns the
/// decompressed patch.
pub fn verify_patch(comp_patch: &[u8], patch: &PatchObject) -> (r: Result<Vec<u8>, UpdateError>)
    ensures
        result_bytes(r) == verified_patch(comp_patch@, *patch),
{
    let h = sha1_hex(comp_patch);
    check_hash(&h, &patch.comp_patch_hash, Checkpoint::CompressedPatch)?;
    match decompress(comp_patch) {
        None => Err(UpdateError::Decompressing),
        Some(p) => {
            let ph = sha1_hex(p.as_slice());
            check_hash(&ph, &patch.patch_hash, Checkpoint::Patch)?;
            Ok(p)
        },
    }
}

/// Produces the new content of a file from its original bytes and a fetched
/// compressed patch. The original bytes are read in full before the call, so
/// the file on disk may be replaced only afterwards.
pub fn patch_file(comp_patch: &[u8], patch: &PatchObject, obj: &FileObject, original: &[u8]) -> (r:
    Result<Vec<u8>, UpdateError>)
    ensures
        result_bytes(r) == patch_install(comp_patch@, *patch, *obj, original@),
        r matches Ok(t) ==> sha1_hex_of(t@) == obj.hash@,
{
    let p = verify_patch(comp_patch, patch)?;
    match apply_bspatch(p.as_slice(), original) {
        None => Err(UpdateError::Patching),
        Some(target) => {
            let th = sha1_hex(target.as_slice());
            check_hash(&th, &obj.hash, Checkpoint::Content)?;
            Ok(target)
        },
    }
}

/// Whatever a patch install accepts hashes exactly to the file's content
/// hash: patching the original and hashing the result gives the target hash.
pub proof fn lemma_patch_round_trip(
    comp_patch: Seq<u8>,
    patch: PatchObject,
    obj: FileObject,
    original: Seq<u8>,
    target: Seq<u8>,
)
    requires
        patch_install(comp_patch, patch, obj, original) == Ok::<Seq<u8>, UpdateError>(target),
    ensures
        sha1_hex_of(target) == obj.hash@,
        target == patched(verified_patch(comp_patch, patch)->Ok_0, original)->Some_0,
{
}

/// A full-file payload whose hash differs from the download hash is
/// rejected at the download gate, and no bytes are handed on to be written.
pub proof fn lemma_corrupt_download_rejected(payload: Seq<u8>, obj: FileObject)
    requires
        sha1_hex_of(payload) != obj.comp_hash@,
    ensures
        fresh_install(payload, obj) == Err::<Seq<u8>, UpdateError>(
            UpdateError::IntegrityMismatch(Checkpoint::Download),
        ),
{
}

/// A compressed patch whose hash differs from the expected one is rejected
/// at the first gate, and no bytes are handed on to be written.
pub proof fn lemma_corrupt_patch_rejected(
    comp_patch: Seq<u8>,
    patch: PatchObject,
    obj: FileObject,
    original: Seq<u8>,
)
    requires
        sha1_hex_of(comp_patch) != patch.comp_patch_hash@,
    ensures
        patch_install(comp_patch, patch, obj, original) == Err::<Seq<u8>, UpdateError>(
            UpdateError::IntegrityMismatch(Checkpoint::CompressedPatch),
        ),
{
}

/// Once a file has been installed from a full download, a second run with
/// the same manifest finds it up to date and fetches nothing for it.
pub proof fn lemma_fresh_install_then_current(payload: Seq<u8>, obj: FileObject, a: Action)
    requires
        fresh_install(payload, obj) is Ok,
        selects(a, Some(sha1_hex_of(fresh_install(payload, obj)->Ok_0)), obj),
    ensures
        a == Action::UpToDate,
{
}

/// Once a file has been patched, a second run with the same manifest finds
/// it up to date and fetches nothing for it.
pub proof fn lemma_patch_install_then_current(
    comp_patch: Seq<u8>,
    patch: PatchObject,
    obj: FileObject,
    original: Seq<u8>,
    a: Action,
)
    requires
        patch_install(comp_patch, patch, obj, original) is Ok,
        selects(a, Some(sha1_hex_of(patch_install(comp_patch, patch, obj, original)->Ok_0)), obj),
    ensures
        a == Action::UpToDate,
{
}

} // verus!
