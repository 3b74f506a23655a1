//! The pipeline's error taxonomy.

use vstd::prelude::*;

verus! {

/// Why a single download failed.
#[derive(Debug)]
pub enum DownloadCause {
    /// The redirect budget ran out before a success status arrived.
    TooManyRedirects,
    /// A redirect status arrived without a `Location` header to follow.
    MissingLocation,
    /// A status other than success or redirect; carries the status code.
    Status(u16),
    /// A transport-level failure (connection error, timeout); carries the
    /// transport's description of the underlying cause.
    Transport(String),
}

/// A terminal pipeline failure. Construction of the manifest, download,
/// extraction and write stages each surface through their own variant, so a
/// caller can report which dependency, which stage, and which underlying
/// cause went wrong.
#[derive(Debug)]
pub enum Error {
    /// The manifest file could not be located or read.
    NoCargoToml,
    /// The metadata table, the dependency table, or a version value has the
    /// wrong shape.
    MalformedManifest,
    /// A download failed; carries the dependency name and the cause.
    DownloadError(String, DownloadCause),
    /// A package archive could not be opened; carries the dependency name
    /// and the archive reader's description of the cause.
    ExtractionError(String, String),
    /// Writing an extracted file failed; carries the dependency name, the
    /// file name, and the file system's description of the cause.
    WriteError(String, Vec<u8>, String),
}

} // verus!
