//! Error taxonomy of the bootstrap pipeline.
//!
//! Every step returns a typed error up through the coordinator; there is no
//! local retry. Checksum mismatches carry the stage at which they were
//! detected, so transfer corruption can be told from storage corruption.

use vstd::prelude::*;
use vstd::string::StringExecFns;

verus! {

/// The verification stage at which a digest mismatch was detected.
#[derive(Clone, Copy, PartialEq, Eq, Structural, Debug)]
pub enum ChecksumStage {
    /// Comparing the digest of the downloaded bytes still in memory.
    Memory,
    /// Comparing the digest of the bytes read back from the temporary file.
    Disk,
}

/// A metadata field the pipeline requires; named in errors when the field is
/// missing or has the wrong type.
#[derive(Clone, Copy, PartialEq, Eq, Structural, Debug)]
pub enum MetaField {
    /// `binary.package.checksum` of the runtime release metadata.
    RuntimeChecksum,
    /// `binary.package.link` of the runtime release metadata.
    RuntimeLink,
    /// `release_name` of the runtime release metadata.
    ReleaseName,
    /// The matching entry of the application release `assets` array.
    AssetEntry,
    /// The digest field of the matching asset.
    AssetDigest,
}

/// Failure modes of the bootstrap pipeline.
#[derive(Debug)]
pub enum SFError {
    /// A bootstrap invocation is already in flight.
    ServerAlreadyStarting,
    /// An HTTP request returned a non-success status.
    DownloadFailed,
    /// The server omitted the content-length header required for progress
    /// reporting and a defensive size expectation.
    NoContentLengthHeader,
    /// A release metadata body could not be parsed at all.
    MetadataUnparseable,
    /// A required metadata field was missing or had the wrong type.
    JsonFieldInvalid(MetaField),
    /// The downloaded bytes did not match the expected digest.
    InvalidChecksum(ChecksumStage),
    /// The download URL names a container format the extractor does not
    /// support.
    InvalidArchiveType,
    /// An archive entry name cannot be safely resolved to a path.
    InvalidZipData,
    /// The archive extracted, but the expected layout was not found inside.
    ExtractIncomplete,
    /// No ephemeral port could be obtained.
    NoPortAvailable,
    /// The child process exited before printing the readiness sentinel.
    ProcessExitedEarly,
    /// The line announcing the credential held no token.
    JwtLineInvalid,
    /// A filesystem path could not be converted to a string.
    PathCouldNotBeConverted,
    /// A filesystem or I/O operation failed; carries its description.
    Io(String),
}

/// The dotted path of a metadata field inside its document.
pub open spec fn field_name_view(field: MetaField) -> Seq<char> {
    match field {
        MetaField::RuntimeChecksum => "binary.package.checksum"@,
        MetaField::RuntimeLink => "binary.package.link"@,
        MetaField::ReleaseName => "release_name"@,
        MetaField::AssetEntry => "assets"@,
        MetaField::AssetDigest => "digest"@,
    }
}

impl MetaField {
    /// The dotted path of the field inside the metadata document.
    pub fn field_name(&self) -> (r: &'static str)
        ensures
            r@ == field_name_view(*self),
    {
        match self {
            MetaField::RuntimeChecksum => "binary.package.checksum",
            MetaField::RuntimeLink => "binary.package.link",
            MetaField::ReleaseName => "release_name",
            MetaField::AssetEntry => "assets",
            MetaField::AssetDigest => "digest",
        }
    }
}

impl SFError {
    /// A short human-readable description; stands in for trait-based
    /// formatting, which this crate does not implement.
    pub fn message(&self) -> (r: String)
        ensures
            match self {
                SFError::ServerAlreadyStarting => r@ == "integrated server is already starting"@,
                SFError::DownloadFailed => r@ == "download failed"@,
                SFError::NoContentLengthHeader => r@ == "no content length header present"@,
                SFError::MetadataUnparseable => r@ == "release metadata was not valid json"@,
                SFError::JsonFieldInvalid(field) => r@ == "json field was invalid/not found: "@
                    + field_name_view(*field),
                SFError::InvalidChecksum(ChecksumStage::Memory) => r@
                    == "checksum of downloaded data does not match"@,
                SFError::InvalidChecksum(ChecksumStage::Disk) => r@
                    == "checksum of data written to disk does not match"@,
                SFError::InvalidArchiveType => r@ == "unsupported archive type"@,
                SFError::InvalidZipData => r@ == "invalid zip data"@,
                SFError::ExtractIncomplete => r@
                    == "extracted archive is missing the expected layout"@,
                SFError::NoPortAvailable => r@ == "no port available"@,
                SFError::ProcessExitedEarly => r@
                    == "server process exited before it became ready"@,
                SFError::JwtLineInvalid => r@ == "jwt line was invalid"@,
                SFError::PathCouldNotBeConverted => r@
                    == "path could not be converted to string"@,
                SFError::Io(detail) => r@ == "i/o error: "@ + detail@,
            },
    {
        match self {
            SFError::ServerAlreadyStarting => "integrated server is already starting".to_owned(),
            SFError::DownloadFailed => "download failed".to_owned(),
            SFError::NoContentLengthHeader => "no content length header present".to_owned(),
            SFError::MetadataUnparseable => "release metadata was not valid json".to_owned(),
            SFError::JsonFieldInvalid(field) => "json field was invalid/not found: "
                .to_owned()
                .concat(field.field_name()),
            SFError::InvalidChecksum(ChecksumStage::Memory) => {
                "checksum of downloaded data does not match".to_owned()
            },
            SFError::InvalidChecksum(ChecksumStage::Disk) => {
                "checksum of data written to disk does not match".to_owned()
            },
            SFError::InvalidArchiveType => "unsupported archive type".to_owned(),
            SFError::InvalidZipData => "invalid zip data".to_owned(),
            SFError::ExtractIncomplete => "extracted archive is missing the expected layout"
                .to_owned(),
            SFError::NoPortAvailable => "no port available".to_owned(),
            SFError::ProcessExitedEarly => "server process exited before it became ready"
                .to_owned(),
            SFError::JwtLineInvalid => "jwt line was invalid".to_owned(),
            SFError::PathCouldNotBeConverted => "path could not be converted to string"
                .to_owned(),
            SFError::Io(detail) => "i/o error: ".to_owned().concat(detail.as_str()),
        }
    }
}

} // verus!
