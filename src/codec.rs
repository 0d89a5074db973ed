use vstd::prelude::*;

verus! {

/// The bytes that a bzip2 stream decodes to, or `None` where it is not valid.
pub uninterp spec fn bunzip2_of(data: Seq<u8>) -> Option<Seq<u8>>;

/// What a bsdiff 4.x patch produces from a source, or `None` where the patch
/// cannot be parsed or applied to it.
pub uninterp spec fn bspatch_of(patch: Seq<u8>, source: Seq<u8>) -> Option<Seq<u8>>;

/// The target size that a bsdiff 4.x patch header announces, or `None` where
/// the header cannot be parsed.
pub uninterp spec fn bspatch_hint_of(patch: Seq<u8>) -> Option<u64>;

/// The bytes held by an optional buffer.
pub open spec fn bytes_of(o: Option<Vec<u8>>) -> Option<Seq<u8>> {
    match o {
        Some(v) => Some(v@),
        None => None,
    }
}

/// Length of a bsdiff 4.x header: magic, then three 8-byte sizes.
pub const PATCH_HEADER_LEN: usize = 32;

/// The most bytes reserved up front for a patched file, whatever its header
/// announces: the announced size is only a hint.
pub const MAX_PREALLOC: u64 = 268435456;

/// The two compressed-section sizes of a patch header are small enough that
/// the patch reader can add them to the header length without overflow.
/// Bytes 15 and 23 are the most significant bytes of those sizes.
pub open spec fn header_sizes_bounded(patch: Seq<u8>) -> bool {
    patch.len() < PATCH_HEADER_LEN || (patch[15] < 64 && patch[23] < 64)
}

/// Relies on bzip2's `read::BzDecoder`, read to its end: the decoded bytes,
/// or an error for a malformed stream, depend on the input alone.
#[verifier::external_body]
fn bunzip2(data: &[u8]) -> (r: Option<Vec<u8>>)
    ensures
        bytes_of(r) == bunzip2_of(data@),
{
    let mut out = Vec::new();
    match std::io::Read::read_to_end(&mut bzip2::read::BzDecoder::new(data), &mut out) {
        Ok(_) => Some(out),
        Err(_) => None,
    }
}

/// Relies on qbsdiff's `Bspatch::new` and `Bspatch::hint_target_size`: the
/// parsed header's target size. `new` adds the two section sizes to the header
/// length, which `requires` keeps from overflowing.
#[verifier::external_body]
fn bspatch_hint(patch: &[u8]) -> (r: Option<u64>)
    requires
        header_sizes_bounded(patch@),
    ensures
        r == bspatch_hint_of(patch@),
{
    match qbsdiff::Bspatch::new(patch) {
        Ok(p) => Some(p.hint_target_size()),
        Err(_) => None,
    }
}

/// Relies on qbsdiff's `Bspatch::new` and `Bspatch::apply`, writing into an
/// empty buffer: the target bytes, or an error for a patch that does not parse
/// or does not fit the source, depend on the patch and the source alone.
#[verifier::external_body]
fn bspatch(patch: &[u8], source: &[u8], out: Vec<u8>) -> (r: Option<Vec<u8>>)
    requires
        header_sizes_bounded(patch@),
        out@.len() == 0,
    ensures
        bytes_of(r) == bspatch_of(patch@, source@),
{
    let mut out = out;
    match qbsdiff::Bspatch::new(patch) {
        Ok(p) => match p.apply(source, &mut out) {
            Ok(_) => Some(out),
            Err(_) => None,
        },
        Err(_) => None,
    }
}

/// Decompresses a bzip2 payload.
pub fn decompress(data: &[u8]) -> (r: Option<Vec<u8>>)
    ensures
        bytes_of(r) == bunzip2_of(data@),
{
    bunzip2(data)
}

/// The result of a binary patch on a source: `None` where the header's sizes
/// are out of range, else exactly what the patch produces.
pub open spec fn patched(patch: Seq<u8>, source: Seq<u8>) -> Option<Seq<u8>> {
    if header_sizes_bounded(patch) {
        bspatch_of(patch, source)
    } else {
        None
    }
}

/// Applies a bsdiff 4.x patch to a source. The output buffer is reserved
/// up front from the size that the patch header announces, capped at
/// `MAX_PREALLOC`.
pub fn apply_bspatch(patch: &[u8], source: &[u8]) -> (r: Option<Vec<u8>>)
    ensures
        bytes_of(r) == patched(patch@, source@),
{
    if patch.len() >= PATCH_HEADER_LEN && (patch[15] >= 64 || patch[23] >= 64) {
        return None;
    }
    let capacity: usize = match bspatch_hint(patch) {
        Some(hint) => {
            if hint < MAX_PREALLOC {
                hint as usize
            } else {
                MAX_PREALLOC as usize
            }
        },
        None => 0,
    };
    let out: Vec<u8> = Vec::with_capacity(capacity);
    bspatch(patch, source, out)
}

} // verus!
