use sha::utils::{Digest, DigestExt};
use vstd::prelude::*;

verus! {

/// The lowercase hexadecimal SHA-1 digest of a byte sequence.
pub uninterp spec fn sha1_hex_of(data: Seq<u8>) -> Seq<char>;

/// Relies on sha's `Sha1::digest` followed by `DigestExt::to_hex`: the hex
/// digest it returns depends on the bytes alone.
#[verifier::external_body]
pub(crate) fn sha1_hex(data: &[u8]) -> (r: String)
    ensures
        r@ == sha1_hex_of(data@),
{
    sha::sha1::Sha1::default().digest(data).to_hex()
}

} // verus!
