use vstd::prelude::*;

use crate::error::ResolveError;

verus! {

/// Temporary provider credentials, produced once per successful exchange and
/// immutable thereafter.
#[derive(Clone, Debug, PartialEq, Eq)]
pub struct TemporaryCredentials {
    pub access_key_id: String,
    pub secret_access_key: String,
    pub session_token: String,
    pub expiration: String,
}

impl TemporaryCredentials {
    /// An equal copy of the credentials.
    pub fn duplicate(&self) -> (r: TemporaryCredentials)
        ensures
            r == *self,
    {
        TemporaryCredentials {
            access_key_id: self.access_key_id.clone(),
            secret_access_key: self.secret_access_key.clone(),
            session_token: self.session_token.clone(),
            expiration: self.expiration.clone(),
        }
    }
}

/// The provider's response body under the single-retry policy of the
/// discovery path: the first attempt's body, or the retry's, the retry being
/// performed exactly where the first attempt failed; a second failure is
/// terminal.
pub fn retry_once(first: Option<String>, second: Option<Option<String>>) -> (r: Result<
    String,
    ResolveError,
>)
    requires
        first is None <==> second is Some,
    ensures
        first matches Some(body) ==> r == Ok::<_, ResolveError>(body),
        second matches Some(Some(body)) ==> r == Ok::<_, ResolveError>(body),
        second matches Some(None::<String>) ==> r == Err::<String, _>(
            ResolveError::ProviderExchangeFailed,
        ),
{
    match first {
        Some(body) => Ok(body),
        None => match second {
            Some(Some(body)) => Ok(body),
            Some(None) => Err(ResolveError::ProviderExchangeFailed),
            None => vstd::pervasive::unreached(),
        },
    }
}

/// How one attempt of the provider exchange ended, as the caller saw it: the
/// transport failed, or a well-formed response arrived without a credentials
/// payload, or the credentials came through.
#[derive(Clone, Debug, PartialEq, Eq)]
pub enum ExchangeOutcome {
    Failed,
    NoCredentials,
    Credentials(TemporaryCredentials),
}

/// The exchange's result under the single-retry policy: a transport failure
/// is retried exactly once and a second failure is terminal, while a
/// well-formed response without credentials is fatal at once, never retried.
/// `second` is the retry's outcome, present exactly where the first attempt's
/// transport failed.
pub fn exchange_result(first: ExchangeOutcome, second: Option<ExchangeOutcome>) -> (r: Result<
    TemporaryCredentials,
    ResolveError,
>)
    requires
        (first matches ExchangeOutcome::Failed) <==> second is Some,
    ensures
        first matches ExchangeOutcome::Credentials(c) ==> r == Ok::<_, ResolveError>(c),
        first matches ExchangeOutcome::NoCredentials ==> r == Err::<TemporaryCredentials, _>(
            ResolveError::MissingCredentials,
        ),
        second matches Some(ExchangeOutcome::Credentials(c)) ==> r == Ok::<_, ResolveError>(c),
        second matches Some(ExchangeOutcome::NoCredentials) ==> r == Err::<
            TemporaryCredentials,
            _,
        >(ResolveError::MissingCredentials),
        second matches Some(ExchangeOutcome::Failed) ==> r == Err::<TemporaryCredentials, _>(
            ResolveError::ProviderExchangeFailed,
        ),
{
    match first {
        ExchangeOutcome::Credentials(credentials) => Ok(credentials),
        ExchangeOutcome::NoCredentials => Err(ResolveError::MissingCredentials),
        ExchangeOutcome::Failed => match second {
            Some(ExchangeOutcome::Credentials(credentials)) => Ok(credentials),
            Some(ExchangeOutcome::NoCredentials) => Err(ResolveError::MissingCredentials),
            Some(ExchangeOutcome::Failed) => Err(ResolveError::ProviderExchangeFailed),
            None => vstd::pervasive::unreached(),
        },
    }
}

} // verus!
