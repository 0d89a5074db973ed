use vstd::prelude::*;

verus! {

/// A binary patch that turns one known version of a file into its target.
pub struct PatchObject {
    /// Name of the compressed patch on the content-delivery endpoint.
    pub filename: String,
    /// Hash of the compressed patch as transmitted.
    pub comp_patch_hash: String,
    /// Hash of the decompressed patch.
    pub patch_hash: String,
}

/// One file of the manifest.
pub struct FileObject {
    /// Name of the compressed full file on the content-delivery endpoint.
    pub dl: String,
    /// Platform keys for which the file is installed.
    pub only: Vec<String>,
    /// Hash of the target content, decompressed.
    pub hash: String,
    /// Hash of the compressed full file as transmitted.
    pub comp_hash: String,
    /// Available patches, keyed by the content hash of the file they transform.
    pub patches: PatchesObject,
}

/// Patches keyed by source content hash.
pub type PatchesObject = Vec<(String, PatchObject)>;

/// The manifest: relative file path, with its descriptor.
pub type Manifest = Vec<(String, FileObject)>;

/// Whether `key` is among the platform keys of a file.
pub open spec fn applies_to(obj: FileObject, key: Seq<char>) -> bool {
    exists|i: int| 0 <= i < obj.only@.len() && #[trigger] obj.only@[i]@ == key
}

/// Whether some patch is keyed by the source hash `h`.
pub open spec fn has_patch(patches: Seq<(String, PatchObject)>, h: Seq<char>) -> bool {
    exists|i: int| 0 <= i < patches.len() && #[trigger] patches[i].0@ == h
}

/// `i` is the first patch keyed by the source hash `h`.
pub open spec fn first_patch(patches: Seq<(String, PatchObject)>, h: Seq<char>, i: int) -> bool {
    &&& 0 <= i < patches.len()
    &&& patches[i].0@ == h
    &&& forall|j: int| 0 <= j < i ==> #[trigger] patches[j].0@ != h
}

impl FileObject {
    /// Whether the file is installed on the platform `platform_key`.
    pub fn is_applicable(&self, platform_key: &String) -> (r: bool)
        ensures
            r == applies_to(*self, platform_key@),
    {
        let mut i: usize = 0;
        while i < self.only.len()
            invariant
                0 <= i <= self.only@.len(),
                forall|j: int| 0 <= j < i ==> #[trigger] self.only@[j]@ != platform_key@,
            decreases self.only@.len() - i,
        {
            if self.only[i] == *platform_key {
                return true;
            }
            i = i + 1;
        }
        false
    }

    /// Position of the patch keyed by the source hash `h`, if any.
    pub fn find_patch(&self, h: &String) -> (r: Option<usize>)
        ensures
            match r {
                Some(i) => first_patch(self.patches@, h@, i as int),
                None => !has_patch(self.patches@, h@),
            },
    {
        let mut i: usize = 0;
        while i < self.patches.len()
            invariant
                0 <= i <= self.patches@.len(),
                forall|j: int| 0 <= j < i ==> #[trigger] self.patches@[j].0@ != h@,
            decreases self.patches@.len() - i,
        {
            if self.patches[i].0 == *h {
                return Some(i);
            }
            i = i + 1;
        }
        None
    }
}

/// The entries of a manifest that are installed on `key`, in manifest order.
pub open spec fn applicable_entries(m: Seq<(String, FileObject)>, key: Seq<char>) -> Seq<
    (String, FileObject),
> {
    m.filter(|e: (String, FileObject)| applies_to(e.1, key))
}

/// Keeps the entries of a manifest that are installed on `platform_key`;
/// the others are never downloaded, hashed or touched.
pub fn applicable(manifest: Manifest, platform_key: &String) -> (r: Manifest)
    ensures
        r@ == applicable_entries(manifest@, platform_key@),
{
    let total = manifest.len();
    let ghost orig = manifest@;
    let mut rest = manifest;
    let mut kept: Manifest = Vec::new();
    let mut i: usize = 0;
    proof {
        reveal(Seq::filter);
        assert(orig.take(0) =~= Seq::<(String, FileObject)>::empty());
    }
    while rest.len() > 0
        invariant
            i <= orig.len(),
            orig.len() == total,
            rest@ == orig.subrange(i as int, orig.len() as int),
            kept@ == applicable_entries(orig.take(i as int), platform_key@),
        decreases rest@.len(),
    {
        let e = rest.remove(0);
        let ghost before = kept@;
        proof {
            reveal(Seq::filter);
            let t = orig.take(i as int + 1);
            assert(t.drop_last() =~= orig.take(i as int));
            assert(t.last() == e);
            assert(applicable_entries(t, platform_key@) == if applies_to(e.1, platform_key@) {
                before.push(e)
            } else {
                before
            });
        }
        if e.1.is_applicable(platform_key) {
            kept.push(e);
        }
        assert(kept@ == applicable_entries(orig.take(i as int + 1), platform_key@));
        i = i + 1;
        assert(rest@ =~= orig.subrange(i as int, orig.len() as int));
    }
    assert(orig.take(i as int) =~= orig);
    kept
}

} // verus!
