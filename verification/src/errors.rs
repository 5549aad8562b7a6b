//! The error taxonomy of the resolution pipeline.

use vstd::prelude::*;

verus! {

/// Everything that can go wrong while resolving or loading a specifier.
///
/// Redirect cycles and provider failures are never silently swallowed:
/// they surface as a failed resolution or load, so the host reports them
/// instead of falling back to its default resolution.
#[derive(Clone, Copy, Debug, PartialEq, Eq, Structural)]
pub enum ResolveError {
    /// Following the provider's redirect map revisited a specifier.
    CircularRedirect,
    /// The provider process could not be started at all.
    ProviderUnavailable,
    /// The provider process exited with a non-zero status.
    ProviderFailed,
    /// The provider's output did not decode into the expected shape.
    ProviderMalformedResponse,
    /// No module entry with a local path exists for the resolved specifier.
    ModuleNotFoundOrNoLocalPath,
    /// The resolved module entry has the wrong variant for the request.
    UnexpectedModuleVariant,
    /// The host's own resolver failed on a delegated package name.
    DelegateResolveFailed,
}

impl ResolveError {
    /// A short description, for error reports at the host boundary.
    pub fn describe(&self) -> (r: &'static str)
        ensures
            r@ == self.spec_describe(),
    {
        match self {
            ResolveError::CircularRedirect => "circular redirect detected",
            ResolveError::ProviderUnavailable => "failed to execute the package info provider",
            ResolveError::ProviderFailed => "package info provider exited with an error",
            ResolveError::ProviderMalformedResponse => "package info provider returned malformed output",
            ResolveError::ModuleNotFoundOrNoLocalPath => "module not found or has no local path",
            ResolveError::UnexpectedModuleVariant => "module entry has an unexpected variant",
            ResolveError::DelegateResolveFailed => "delegated package resolution failed",
        }
    }

    /// What `describe` returns for each variant.
    pub open spec fn spec_describe(&self) -> Seq<char> {
        match self {
            ResolveError::CircularRedirect => "circular redirect detected"@,
            ResolveError::ProviderUnavailable => "failed to execute the package info provider"@,
            ResolveError::ProviderFailed => "package info provider exited with an error"@,
            ResolveError::ProviderMalformedResponse => "package info provider returned malformed output"@,
            ResolveError::ModuleNotFoundOrNoLocalPath => "module not found or has no local path"@,
            ResolveError::UnexpectedModuleVariant => "module entry has an unexpected variant"@,
            ResolveError::DelegateResolveFailed => "delegated package resolution failed"@,
        }
    }
}

} // verus!
