//! Failure values of the provisioning procedure.

use vstd::prelude::*;

verus! {

/// Why a resolution attempt failed. Every failure is terminal for the
/// attempt: nothing is retried. Each variant carries the context a caller
/// needs to report the failure: the offending platform value's name, the
/// asset name that was expected, or the underlying cause.
#[derive(Debug, PartialEq, Eq)]
pub enum ProvisionError {
    /// The running (operating system, architecture) pair is outside the
    /// supported allow-list; carries the name of the unsupported value.
    UnsupportedPlatform(String),
    /// The upstream release query failed or matched no release.
    ReleaseLookupFailed(String),
    /// No release asset carried the expected name; carries that name.
    AssetNotFound(String),
    /// The download, extraction or cleanup listing failed.
    InstallFailed(String),
}

} // verus!
