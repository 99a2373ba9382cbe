//! The ways a resolution attempt can fail.

use vstd::prelude::*;
use vstd::string::StringExecFns;

verus! {

/// A terminal failure of one resolution attempt.
///
/// Nothing is retried inside the library; the host may start a fresh attempt
/// later, which runs the whole sequence again.
#[derive(Debug, Clone, PartialEq, Eq)]
pub enum Error {
    /// The release index had no release satisfying the filters; carries the
    /// index's own message.
    NoReleaseFound(String),
    /// No asset of the release carries the expected name for the platform;
    /// carries that expected name.
    AssetNotFound(String),
    /// Fetching the archive failed at the transport level; carries the
    /// transport's message.
    DownloadFailed(String),
    /// The archive could not be unpacked; carries the unpacker's message.
    ExtractFailed(String),
    /// The binary could not be marked executable; carries the message.
    PermissionFailed(String),
}

/// The human-readable message an error surfaces to the host.
pub open spec fn error_message_spec(e: Error) -> Seq<char> {
    match e {
        Error::NoReleaseFound(m) => m@,
        Error::AssetNotFound(n) => "no asset found matching "@ + n@,
        Error::DownloadFailed(m) => "failed to download file: "@ + m@,
        Error::ExtractFailed(m) => "failed to extract archive: "@ + m@,
        Error::PermissionFailed(m) => m@,
    }
}

impl Error {
    /// Renders the error as the message handed to the host.
    pub fn message(&self) -> (r: String)
        ensures
            r@ == error_message_spec(*self),
    {
        match self {
            Error::NoReleaseFound(m) => m.clone(),
            Error::AssetNotFound(n) => {
                let mut s = String::from_str("no asset found matching ");
                s.append(n.as_str());
                s
            },
            Error::DownloadFailed(m) => {
                let mut s = String::from_str("failed to download file: ");
                s.append(m.as_str());
                s
            },
            Error::ExtractFailed(m) => {
                let mut s = String::from_str("failed to extract archive: ");
                s.append(m.as_str());
                s
            },
            Error::PermissionFailed(m) => m.clone(),
        }
    }
}

} // verus!
