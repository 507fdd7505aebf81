use vstd::prelude::*;

use crate::applications::{find_app_link, first_link_match_at, link_matches, AppLink};
use crate::error::ResolveError;
use crate::exchange::{ExchangeOutcome, TemporaryCredentials};
use crate::profile::Profile;
use crate::role::{first_role_named_at, role_named_at, Assertion, RoleReference};

verus! {

/// Where one profile's resolution stands.  Each non-final step names the one
/// piece of outside work the caller must perform next — fetch the
/// entitlement listing, follow a link to its assertion, or post the
/// assertion to the provider — and the machine holds every decision between
/// those steps.  The steps of one profile are strictly sequential; distinct
/// profiles never share a machine.
#[derive(Debug, PartialEq, Eq)]
pub enum ResolveStep {
    /// Ask the identity provider for the user's application links.
    NeedAppLinks,
    /// Follow this link to the signed assertion.
    NeedAssertion(AppLink),
    /// Exchange the assertion for credentials, requesting the profile's
    /// duration; `attempt` is 1 on the first try and 2 on the single retry.
    NeedExchange { role: RoleReference, raw: String, attempt: u8 },
    /// The resolution ended, one way or the other.
    Done(Result<TemporaryCredentials, ResolveError>),
}

/// What the outside work handed back.
#[derive(Debug, PartialEq, Eq)]
pub enum ResolveEvent {
    /// The entitlement listing, as fetched.
    AppLinks(Vec<AppLink>),
    /// The assertion behind the link, or nothing where the page could not be
    /// fetched or parsed into one.
    Assertion(Option<Assertion>),
    /// How one provider-exchange attempt ended.
    Exchange(ExchangeOutcome),
}

/// Which events a step can take: each waiting step accepts exactly the
/// outcome of the work it asked for, and a finished resolution takes
/// nothing.
pub open spec fn step_accepts(step: ResolveStep, event: ResolveEvent) -> bool {
    match (step, event) {
        (ResolveStep::NeedAppLinks, ResolveEvent::AppLinks(_)) => true,
        (ResolveStep::NeedAssertion(_), ResolveEvent::Assertion(_)) => true,
        (ResolveStep::NeedExchange { role: _, raw: _, attempt }, ResolveEvent::Exchange(_)) => 1
            <= attempt <= 2,
        _ => false,
    }
}

/// The machine's whole transition table: what the next step is, for a given
/// profile, from `step` on `event`.
pub open spec fn resolution_transition(
    profile: Profile,
    step: ResolveStep,
    event: ResolveEvent,
    next: ResolveStep,
) -> bool {
    match (step, event) {
        (ResolveStep::NeedAppLinks, ResolveEvent::AppLinks(links)) => {
            if exists|i: int| first_link_match_at(links@, profile.application_name@, i) {
                next matches ResolveStep::NeedAssertion(link) && (exists|i: int|
                    first_link_match_at(links@, profile.application_name@, i) && link == links@[i])
            } else {
                next == ResolveStep::Done(
                    Err::<TemporaryCredentials, _>(
                        ResolveError::ApplicationNotFound(profile.name),
                    ),
                )
            }
        },
        (ResolveStep::NeedAssertion(_), ResolveEvent::Assertion(None)) => next
            == ResolveStep::Done(
            Err::<TemporaryCredentials, _>(ResolveError::AssertionFetchError(
                profile.application_name,
            )),
        ),
        (ResolveStep::NeedAssertion(_), ResolveEvent::Assertion(Some(assertion))) => {
            if assertion.roles@.len() == 0 {
                next == ResolveStep::Done(
                    Err::<TemporaryCredentials, _>(ResolveError::NoRoleAvailable(profile.name)),
                )
            } else if exists|i: int| first_role_named_at(assertion.roles@, profile.role@, i) {
                next matches ResolveStep::NeedExchange { role, raw, attempt } && attempt == 1
                    && raw == assertion.raw && (exists|i: int|
                    first_role_named_at(assertion.roles@, profile.role@, i) && role
                        == assertion.roles@[i])
            } else {
                next == ResolveStep::Done(
                    Err::<TemporaryCredentials, _>(
                        ResolveError::RoleNotMatched(profile.role, profile.name),
                    ),
                )
            }
        },
        (
            ResolveStep::NeedExchange { role, raw, attempt },
            ResolveEvent::Exchange(outcome),
        ) => match outcome {
            ExchangeOutcome::Credentials(credentials) => next == ResolveStep::Done(
                Ok::<_, ResolveError>(credentials),
            ),
            ExchangeOutcome::NoCredentials => next == ResolveStep::Done(
                Err::<TemporaryCredentials, _>(ResolveError::MissingCredentials),
            ),
            ExchangeOutcome::Failed => {
                if attempt == 1 {
                    next == (ResolveStep::NeedExchange { role, raw, attempt: 2u8 })
                } else {
                    next == ResolveStep::Done(
                        Err::<TemporaryCredentials, _>(ResolveError::ProviderExchangeFailed),
                    )
                }
            },
        },
        _ => false,
    }
}

/// The first role of `roles` named `role_name`, or the error the resolution
/// reports: an assertion with no role at all fails with `NoRoleAvailable`,
/// and one whose roles all carry other names with `RoleNotMatched`.
pub fn match_role(
    roles: &Vec<RoleReference>,
    role_name: &String,
    profile_name: &String,
) -> (r: Result<RoleReference, ResolveError>)
    ensures
        match r {
            Ok(role) => exists|i: int|
                first_role_named_at(roles@, role_name@, i) && role == roles@[i],
            Err(e) => (forall|i: int| !role_named_at(roles@, role_name@, i)) && if roles@.len()
                == 0 {
                e == ResolveError::NoRoleAvailable(*profile_name)
            } else {
                e == ResolveError::RoleNotMatched(*role_name, *profile_name)
            },
        },
{
    if roles.len() == 0 {
        return Err(ResolveError::NoRoleAvailable(profile_name.clone()));
    }
    let n = roles.len();
    let mut i: usize = 0;
    while i < n
        invariant
            n == roles@.len(),
            i <= n,
            forall|j: int| 0 <= j < i ==> !role_named_at(roles@, role_name@, j),
        decreases n - i,
    {
        match roles[i].role_name() {
            Some(name) => {
                if name == *role_name {
                    proof {
                        assert(role_named_at(roles@, role_name@, i as int));
                        assert(first_role_named_at(roles@, role_name@, i as int));
                    }
                    return Ok(roles[i].duplicate());
                }
            },
            None => {},
        }
        proof {
            assert(!role_named_at(roles@, role_name@, i as int));
        }
        i += 1;
    }
    Err(ResolveError::RoleNotMatched(role_name.clone(), profile_name.clone()))
}

impl Profile {
    /// Where every resolution starts: nothing fetched yet.
    pub fn start_resolution(&self) -> (r: ResolveStep)
        ensures
            r == ResolveStep::NeedAppLinks,
    {
        ResolveStep::NeedAppLinks
    }

    /// Drives the resolution one step: takes the outcome of the outside work
    /// the current step asked for, and decides the next step, exactly as the
    /// transition table says.
    pub fn resolution_step(&self, step: ResolveStep, event: ResolveEvent) -> (next: ResolveStep)
        requires
            step_accepts(step, event),
        ensures
            resolution_transition(*self, step, event, next),
    {
        match (step, event) {
            (ResolveStep::NeedAppLinks, ResolveEvent::AppLinks(links)) => {
                match find_app_link(&links, &self.application_name) {
                    Some(i) => ResolveStep::NeedAssertion(links[i].duplicate()),
                    None => ResolveStep::Done(
                        Err(ResolveError::ApplicationNotFound(self.name.clone())),
                    ),
                }
            },
            (ResolveStep::NeedAssertion(_), ResolveEvent::Assertion(fetched)) => match fetched {
                None => ResolveStep::Done(
                    Err(ResolveError::AssertionFetchError(self.application_name.clone())),
                ),
                Some(assertion) => {
                    match match_role(&assertion.roles, &self.role, &self.name) {
                        Ok(role) => ResolveStep::NeedExchange {
                            role,
                            raw: assertion.raw,
                            attempt: 1,
                        },
                        Err(e) => ResolveStep::Done(Err(e)),
                    }
                },
            },
            (
                ResolveStep::NeedExchange { role, raw, attempt },
                ResolveEvent::Exchange(outcome),
            ) => match outcome {
                ExchangeOutcome::Credentials(credentials) => ResolveStep::Done(Ok(credentials)),
                ExchangeOutcome::NoCredentials => ResolveStep::Done(
                    Err(ResolveError::MissingCredentials),
                ),
                ExchangeOutcome::Failed => {
                    if attempt == 1 {
                        ResolveStep::NeedExchange { role, raw, attempt: 2 }
                    } else {
                        ResolveStep::Done(Err(ResolveError::ProviderExchangeFailed))
                    }
                },
            },
            _ => vstd::pervasive::unreached(),
        }
    }
}

/// A provider exchange that fails once and then succeeds still resolves the
/// profile: the single retry is invisible in the outcome.
pub proof fn lemma_retry_transparent(
    profile: Profile,
    role: RoleReference,
    raw: String,
    mid: ResolveStep,
    next: ResolveStep,
    credentials: TemporaryCredentials,
)
    requires
        resolution_transition(
            profile,
            (ResolveStep::NeedExchange { role, raw, attempt: 1u8 }),
            ResolveEvent::Exchange(ExchangeOutcome::Failed),
            mid,
        ),
        resolution_transition(
            profile,
            mid,
            ResolveEvent::Exchange(ExchangeOutcome::Credentials(credentials)),
            next,
        ),
    ensures
        mid == (ResolveStep::NeedExchange { role, raw, attempt: 2u8 }),
        next == ResolveStep::Done(Ok::<_, ResolveError>(credentials)),
{
}

/// A second transport failure, after the one retry, is terminal.
pub proof fn lemma_second_failure_terminal(
    profile: Profile,
    role: RoleReference,
    raw: String,
    mid: ResolveStep,
    next: ResolveStep,
)
    requires
        resolution_transition(
            profile,
            (ResolveStep::NeedExchange { role, raw, attempt: 1u8 }),
            ResolveEvent::Exchange(ExchangeOutcome::Failed),
            mid,
        ),
        resolution_transition(profile, mid, ResolveEvent::Exchange(ExchangeOutcome::Failed), next),
    ensures
        next == ResolveStep::Done(
            Err::<TemporaryCredentials, _>(ResolveError::ProviderExchangeFailed),
        ),
{
}

/// An assertion that authorizes no role at all fails its profile with
/// `NoRoleAvailable`; no other profile's machine is touched by it.
pub proof fn lemma_empty_assertion_fails(
    profile: Profile,
    link: AppLink,
    assertion: Assertion,
    next: ResolveStep,
)
    requires
        assertion.roles@.len() == 0,
        resolution_transition(
            profile,
            ResolveStep::NeedAssertion(link),
            ResolveEvent::Assertion(Some(assertion)),
            next,
        ),
    ensures
        next == ResolveStep::Done(
            Err::<TemporaryCredentials, _>(ResolveError::NoRoleAvailable(profile.name)),
        ),
{
}

} // verus!
