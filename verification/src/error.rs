use vstd::prelude::*;

verus! {

/// The error taxonomy of the tool manager: configuration (bad specifiers,
/// unresolvable aliases), network (missing or failed downloads), verification
/// (checksum mismatch), filesystem, and unsupported-format failures.
///
/// Every variant names the tool, path, URL or specifier it concerns, so a
/// failure can always be traced to its subject.
#[derive(Debug, PartialEq, Eq)]
pub enum ProtoError {
    /// A download failed with the given URL and status description.
    DownloadFailed(String, String),
    /// A download target returned "not found" for the given URL.
    DownloadNotFound(String),
    /// A filesystem operation failed: the offending path and a description.
    Fs(String, String),
    /// Install was attempted while the downloaded artifact is missing;
    /// carries the tool's display name.
    InstallMissingDownload(String),
    /// A free-form failure description.
    Message(String),
    /// An archive extension that no extractor handles: the input path and
    /// the extension.
    UnsupportedArchiveFormat(String, String),
    /// A downloaded plugin file whose extension no handler recognises.
    UnsupportedPluginFormat(String),
    /// A downloaded plugin file with no extension at all.
    UnknownPluginFormat,
    /// Checksum verification failed: the checksum file path and the
    /// download path.
    VerifyInvalidChecksum(String, String),
    /// A specifier parsed as a version but matches no known release.
    VersionResolveFailed(String),
    /// A specifier that is neither a version nor any known alias.
    VersionUnknownAlias(String),
    /// A zip archive could not be read: the input path and a description.
    Zip(String, String),
}

} // verus!
