//! The error type that the library's fallible functions return.

use vstd::prelude::*;

verus! {

/// What can go wrong while a build is fetched, unpacked and patched. Each
/// variant carries a message for the operator.
#[derive(Debug)]
pub enum PatcherError {
    /// The installer could not be downloaded.
    DownloadError(String),
    /// No extraction candidate could unpack the installer.
    ExtractionError(String),
    /// The build manifest is not the document that was expected.
    YamlParseError(String),
    /// The build manifest describes no usable build.
    InvalidBuildInfo(String),
    /// A file that the output depends on is absent.
    FileNotFound(String),
    /// No extraction candidate could unpack the resource archive.
    AsarError(String),
    /// A patch rule could not be applied.
    PatchError(String),
    /// A directory or file operation failed.
    IoError(String),
    /// The remote server could not be reached or refused.
    HttpError(String),
}

impl PatcherError {
    /// The text that every message of this variant starts with.
    pub open spec fn prefix_spec(self) -> Seq<char> {
        match self {
            PatcherError::DownloadError(_) => "Failed to download build: "@,
            PatcherError::ExtractionError(_) => "Failed to extract archive: "@,
            PatcherError::YamlParseError(_) => "Failed to parse YAML: "@,
            PatcherError::InvalidBuildInfo(_) => "Invalid build info: "@,
            PatcherError::FileNotFound(_) => "File not found: "@,
            PatcherError::AsarError(_) => "ASAR extraction failed: "@,
            PatcherError::PatchError(_) => "Patching failed: "@,
            PatcherError::IoError(_) => "IO error: "@,
            PatcherError::HttpError(_) => "HTTP error: "@,
        }
    }

    /// The detail that the variant carries.
    pub open spec fn detail_spec(self) -> Seq<char> {
        match self {
            PatcherError::DownloadError(m) => m@,
            PatcherError::ExtractionError(m) => m@,
            PatcherError::YamlParseError(m) => m@,
            PatcherError::InvalidBuildInfo(m) => m@,
            PatcherError::FileNotFound(m) => m@,
            PatcherError::AsarError(m) => m@,
            PatcherError::PatchError(m) => m@,
            PatcherError::IoError(m) => m@,
            PatcherError::HttpError(m) => m@,
        }
    }

    /// The detail that the variant carries.
    pub fn detail(&self) -> (r: String)
        ensures
            r@ == self.detail_spec(),
    {
        match self {
            PatcherError::DownloadError(m) => m.clone(),
            PatcherError::ExtractionError(m) => m.clone(),
            PatcherError::YamlParseError(m) => m.clone(),
            PatcherError::InvalidBuildInfo(m) => m.clone(),
            PatcherError::FileNotFound(m) => m.clone(),
            PatcherError::AsarError(m) => m.clone(),
            PatcherError::PatchError(m) => m.clone(),
            PatcherError::IoError(m) => m.clone(),
            PatcherError::HttpError(m) => m.clone(),
        }
    }

    /// The message shown to the operator: the variant's prefix, then its
    /// detail.
    pub fn message(&self) -> (r: String)
        ensures
            r@ == self.prefix_spec() + self.detail_spec(),
    {
        match self {
            PatcherError::DownloadError(m) => "Failed to download build: ".to_owned().concat(
                m.as_str(),
            ),
            PatcherError::ExtractionError(m) => "Failed to extract archive: ".to_owned().concat(
                m.as_str(),
            ),
            PatcherError::YamlParseError(m) => "Failed to parse YAML: ".to_owned().concat(
                m.as_str(),
            ),
            PatcherError::InvalidBuildInfo(m) => "Invalid build info: ".to_owned().concat(
                m.as_str(),
            ),
            PatcherError::FileNotFound(m) => "File not found: ".to_owned().concat(m.as_str()),
            PatcherError::AsarError(m) => "ASAR extraction failed: ".to_owned().concat(m.as_str()),
            PatcherError::PatchError(m) => "Patching failed: ".to_owned().concat(m.as_str()),
            PatcherError::IoError(m) => "IO error: ".to_owned().concat(m.as_str()),
            PatcherError::HttpError(m) => "HTTP error: ".to_owned().concat(m.as_str()),
        }
    }
}

} // verus!
