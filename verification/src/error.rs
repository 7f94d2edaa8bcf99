//! What can go wrong while an updater archive is planned or encoded.

use vstd::prelude::*;

verus! {

/// The error of the zip encoder, `zip::result::ZipError`. It is carried
/// to the caller as it is; nothing is said of what it holds.
#[verifier::external_type_specification]
#[verifier::external_body]
pub struct ExZipError(zip::result::ZipError);

/// The error of the gzip encoder, `std::io::Error`. It is carried to the
/// caller as it is; nothing is said of what it holds.
#[verifier::external_type_specification]
#[verifier::external_body]
pub struct ExIoError(std::io::Error);

/// The ways in which updater packaging fails.
#[derive(Debug)]
pub enum Error {
    /// No produced bundle holds the artifact that the target's archive is
    /// made from.
    ArtifactNotFound,
    /// The zip encoder did not produce an archive.
    Zip(zip::result::ZipError),
    /// The gzip encoder did not produce a stream.
    Gzip(std::io::Error),
}

} // verus!
