//! Manifest-driven update engine: decides per file whether a local copy is
//! current, patchable or must be fetched again, and checks every payload
//! against the manifest's hashes before its bytes are accepted.
pub mod error;
pub mod codec;
pub mod hashing;
pub mod install;
pub mod login;
pub mod opt;
pub mod manifest;
pub mod reconcile;
pub mod report;
pub mod task;
