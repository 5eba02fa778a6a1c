//! Error taxonomy of the launcher core.
//!
//! `NetworkError` covers manifest-fetch failures and is recoverable
//! (secure-to-insecure fallback, then graceful degradation).
//! `ConfigError` marks an unsupported host platform and is fatal.
//! `InstallError` names the stage of a failed runtime install.

use vstd::prelude::*;

verus! {

/// A failure of one transport attempt while fetching the manifest.
#[derive(Clone, Copy, PartialEq, Eq, Structural, Debug)]
pub enum NetworkError {
    /// The request did not complete within its bounded timeout.
    Timeout,
    /// The connection was refused or dropped.
    ConnectionRefused,
    /// TLS negotiation failed on the secure transport.
    TlsFailure,
    /// The server answered with a non-success HTTP status.
    HttpStatus(u16),
    /// The body arrived but did not contain a readable manifest.
    MalformedBody,
}

impl NetworkError {
    /// A short human-readable description, for the caller's log.
    pub fn describe(&self) -> (r: &'static str)
        ensures
            r@.len() > 0,
    {
        match self {
            NetworkError::Timeout => {
                proof {
                    reveal_strlit("manifest request timed out");
                }
                "manifest request timed out"
            },
            NetworkError::ConnectionRefused => {
                proof {
                    reveal_strlit("connection to the manifest server was refused");
                }
                "connection to the manifest server was refused"
            },
            NetworkError::TlsFailure => {
                proof {
                    reveal_strlit("secure transport negotiation failed");
                }
                "secure transport negotiation failed"
            },
            NetworkError::HttpStatus(_) => {
                proof {
                    reveal_strlit("manifest server answered with an error status");
                }
                "manifest server answered with an error status"
            },
            NetworkError::MalformedBody => {
                proof {
                    reveal_strlit("manifest body could not be read");
                }
                "manifest body could not be read"
            },
        }
    }
}

/// The host platform is not one the launcher can provision.
#[derive(Clone, Copy, PartialEq, Eq, Structural, Debug)]
pub enum ConfigError {
    UnsupportedPlatform,
}

/// The stage of the install sequence at which a failure occurred.
#[derive(Clone, Copy, PartialEq, Eq, Structural, Debug)]
pub enum InstallStage {
    /// Streaming the artifact to the temporary file.
    Download,
    /// Unpacking an archive artifact.
    Extract,
    /// Setting the executable permission.
    Permission,
    /// Moving the finished artifact into its final place.
    Placement,
}

/// A failure during download, extraction or placement of the runtime,
/// naming the stage that failed.
#[derive(Clone, Copy, PartialEq, Eq, Structural, Debug)]
pub struct InstallError {
    pub stage: InstallStage,
}

impl InstallError {
    /// A short human-readable description, for the caller's log.
    pub fn describe(&self) -> (r: &'static str)
        ensures
            r@.len() > 0,
    {
        match self.stage {
            InstallStage::Download => {
                proof {
                    reveal_strlit("runtime download failed");
                }
                "runtime download failed"
            },
            InstallStage::Extract => {
                proof {
                    reveal_strlit("runtime archive extraction failed");
                }
                "runtime archive extraction failed"
            },
            InstallStage::Permission => {
                proof {
                    reveal_strlit("could not mark the runtime as executable");
                }
                "could not mark the runtime as executable"
            },
            InstallStage::Placement => {
                proof {
                    reveal_strlit("could not move the runtime into place");
                }
                "could not move the runtime into place"
            },
        }
    }
}

} // verus!
