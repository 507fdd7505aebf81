use vstd::prelude::*;

verus! {

/// The failures of the profile-resolution pipeline.
///
/// Every error of the per-profile chain carries enough context (profile name,
/// application label, role name or pattern) for the caller to report which
/// profile needs attention; one profile's failure never concerns its siblings.
#[derive(Clone, Debug, PartialEq, Eq)]
pub enum ResolveError {
    /// No application link in the identity's entitlements carries the
    /// profile's application label; holds the profile name.
    ApplicationNotFound(String),
    /// The application link could not be turned into a signed assertion;
    /// holds the application label.
    AssertionFetchError(String),
    /// The assertion authorizes no role at all; holds the context label.
    NoRoleAvailable(String),
    /// No role in the assertion carries the requested role name; holds the
    /// role name and the profile name.
    RoleNotMatched(String, String),
    /// The interactive choice among several roles was cancelled; holds the
    /// context label.
    AmbiguousRoleSelectionCancelled(String),
    /// The provider's response was well formed but carried no credentials
    /// payload; never retried.
    MissingCredentials,
    /// The provider exchange failed and so did its single retry.
    ProviderExchangeFailed,
    /// An ARN without a non-empty name segment after its first slash; holds
    /// the offending ARN.
    InvalidArn(String),
    /// The account-alias listing did not contain exactly one alias; only ever
    /// a fallback signal, never surfaced past the account namer.
    AccountAliasUnavailable,
    /// The organization filter is not a well-formed glob pattern; holds the
    /// pattern text.
    InvalidPattern(String),
    /// The organization filter matched no configured organization: a fatal,
    /// whole-run error; holds the pattern text.
    NoOrganizationsMatched(String),
}

} // verus!
