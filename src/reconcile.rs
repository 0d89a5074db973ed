use vstd::prelude::*;
use crate::hashing::{sha1_hex, sha1_hex_of};
use crate::manifest::{FileObject, has_patch, first_patch};

verus! {

/// What to do with one file of the manifest.
#[derive(Clone, Copy, Debug, PartialEq, Eq, Structural)]
pub enum Action {
    /// The local copy already has the target content: nothing is fetched.
    UpToDate,
    /// Fetch and apply the patch at this position of the file's patch table.
    Patch(usize),
    /// Fetch the full compressed file.
    Download,
}

/// `a` is the action for a file whose local content hash is `local_hash`
/// (`None` where the file is absent). The hash is the sole criterion.
pub open spec fn selects(a: Action, local_hash: Option<Seq<char>>, obj: FileObject) -> bool {
    match local_hash {
        None => a == Action::Download,
        Some(h) => if h == obj.hash@ {
            a == Action::UpToDate
        } else if has_patch(obj.patches@, h) {
            a matches Action::Patch(i) && first_patch(obj.patches@, h, i as int)
        } else {
            a == Action::Download
        },
    }
}

/// The content hash of an optional local file.
pub open spec fn local_hash_of(local: Option<&[u8]>) -> Option<Seq<char>> {
    match local {
        Some(b) => Some(sha1_hex_of(b@)),
        None => None,
    }
}

/// The view of an optional string.
pub open spec fn opt_view(s: Option<&String>) -> Option<Seq<char>> {
    match s {
        Some(h) => Some(h@),
        None => None,
    }
}

/// Chooses the action for a file from the content hash of its local copy.
pub fn choose_action(local_hash: Option<&String>, obj: &FileObject) -> (r: Action)
    ensures
        selects(r, opt_view(local_hash), *obj),
{
    match local_hash {
        None => Action::Download,
        Some(h) => {
            if *h == obj.hash {
                Action::UpToDate
            } else {
                match obj.find_patch(h) {
                    Some(i) => Action::Patch(i),
                    None => Action::Download,
                }
            }
        },
    }
}

/// Chooses the action for a file from the bytes of its local copy, or
/// `None` where it is absent.
pub fn plan_file(local: Option<&[u8]>, obj: &FileObject) -> (r: Action)
    ensures
        selects(r, local_hash_of(local), *obj),
{
    match local {
        None => choose_action(None, obj),
        Some(bytes) => {
            let h = sha1_hex(bytes);
            choose_action(Some(&h), obj)
        },
    }
}

/// A file whose local content hash equals the target is up to date, and
/// nothing is fetched for it.
pub proof fn lemma_current_file_is_skipped(a: Action, local: Seq<u8>, obj: FileObject)
    requires
        sha1_hex_of(local) == obj.hash@,
        selects(a, Some(sha1_hex_of(local)), obj),
    ensures
        a == Action::UpToDate,
{
}

/// A file absent locally is always downloaded in full, never patched.
pub proof fn lemma_absent_file_is_downloaded(a: Action, obj: FileObject)
    requires
        selects(a, None, obj),
    ensures
        a == Action::Download,
        !(a is Patch),
{
}

/// A present file whose hash differs from the target but keys a patch is
/// patched, with a patch keyed by its hash, rather than downloaded.
pub proof fn lemma_known_source_is_patched(a: Action, local: Seq<u8>, obj: FileObject)
    requires
        sha1_hex_of(local) != obj.hash@,
        has_patch(obj.patches@, sha1_hex_of(local)),
        selects(a, Some(sha1_hex_of(local)), obj),
    ensures
        a is Patch,
        obj.patches@[a->0 as int].0@ == sha1_hex_of(local),
{
}

} // verus!
