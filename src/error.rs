use vstd::prelude::*;

verus! {

/// The integrity checkpoint at which a hash did not match.
#[derive(Clone, Copy, Debug, PartialEq, Eq, Structural)]
pub enum Checkpoint {
    /// The compressed full-file payload as transmitted.
    Download,
    /// The compressed patch payload as transmitted.
    CompressedPatch,
    /// The decompressed binary patch.
    Patch,
    /// The final file content.
    Content,
}

/// Why an update, or one file of it, failed.
#[derive(Debug)]
pub enum UpdateError {
    /// A transport failure fetching the manifest or a payload.
    Downloading(String),
    /// The manifest document does not match the expected schema.
    Parsing(String),
    /// A filesystem failure.
    IO(String),
    /// A computed hash differs from the one the manifest expects.
    IntegrityMismatch(Checkpoint),
    /// A compressed payload could not be decompressed.
    Decompressing,
    /// The binary patch could not be parsed or applied.
    Patching,
}

} // verus!
