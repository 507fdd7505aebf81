use oktaws::applications::{locate_app_link, AppLink};
use oktaws::error::ResolveError;
use oktaws::exchange::{exchange_result, retry_once, ExchangeOutcome, TemporaryCredentials};
use oktaws::namer::{account_alias_from_listing, account_name, extract_account_name};
use oktaws::profile::Profile;
use oktaws::resolver::{match_role, ResolveEvent, ResolveStep};
use oktaws::role::{Assertion, RoleReference};
use oktaws::selector::{resolve_choice, select, Selection};
use oktaws::store::CredentialStore;

fn role_ref(provider: &str, role: &str) -> RoleReference {
    RoleReference {
        provider_arn: provider.to_string(),
        role_arn: role.to_string(),
    }
}

fn admin_role() -> RoleReference {
    role_ref(
        "arn:aws:iam::111111111111:saml-provider/okta",
        "arn:aws:iam::111111111111:role/Admin",
    )
}

fn reader_role() -> RoleReference {
    role_ref(
        "arn:aws:iam::111111111111:saml-provider/okta",
        "arn:aws:iam::111111111111:role/Reader",
    )
}

fn creds(tag: &str) -> TemporaryCredentials {
    TemporaryCredentials {
        access_key_id: format!("AKIA{}", tag),
        secret_access_key: format!("secret-{}", tag),
        session_token: format!("token-{}", tag),
        expiration: "2030-01-01T00:00:00Z".to_string(),
    }
}

fn profile(name: &str, application: &str, role: &str) -> Profile {
    Profile {
        name: name.to_string(),
        application_name: application.to_string(),
        role: role.to_string(),
        duration_seconds: None,
    }
}

fn aws_link(label: &str) -> AppLink {
    AppLink {
        label: label.to_string(),
        link_url: format!("https://example.okta.com/home/amazon_aws/{}", label),
        app_name: "amazon_aws".to_string(),
    }
}

#[test]
fn all_roles_flattens_listings_in_order() {
    let listings = vec![vec![admin_role()], vec![], vec![reader_role(), admin_role()]];
    let collected = oktaws::role::all_roles(&listings);
    assert_eq!(collected, vec![admin_role(), reader_role(), admin_role()]);
    let empty: Vec<Vec<RoleReference>> = vec![];
    assert_eq!(oktaws::role::all_roles(&empty), vec![]);
}

#[test]
fn empty_role_list_fails_regardless_of_hint() {
    let roles: Vec<RoleReference> = vec![];
    let with_hint = select(&roles, &Some("Admin".to_string()), &"ctx".to_string());
    assert_eq!(
        with_hint.unwrap_err(),
        ResolveError::NoRoleAvailable("ctx".to_string())
    );
    let without_hint = select(&roles, &None, &"ctx".to_string());
    assert_eq!(
        without_hint.unwrap_err(),
        ResolveError::NoRoleAvailable("ctx".to_string())
    );
}

#[test]
fn single_role_wins_over_non_matching_hint() {
    let roles = vec![admin_role()];
    let r = select(&roles, &Some("NoSuchRole".to_string()), &"ctx".to_string());
    assert_eq!(r.unwrap(), Selection::Chosen(admin_role()));
}

#[test]
fn hint_matching_one_of_many_is_chosen_without_prompt() {
    let roles = vec![admin_role(), reader_role()];
    let r = select(&roles, &Some("Reader".to_string()), &"dev".to_string());
    assert_eq!(r.unwrap(), Selection::Chosen(reader_role()));
}

#[test]
fn hint_matching_several_roles_takes_the_first() {
    let twin = role_ref(
        "arn:aws:iam::222222222222:saml-provider/okta",
        "arn:aws:iam::222222222222:role/Admin",
    );
    let roles = vec![admin_role(), twin];
    let r = select(&roles, &Some("Admin".to_string()), &"dev".to_string());
    assert_eq!(r.unwrap(), Selection::Chosen(admin_role()));
}

#[test]
fn ambiguous_roles_prompt_the_user() {
    let roles = vec![admin_role(), reader_role()];
    let no_hint = select(&roles, &None, &"dev".to_string()).unwrap();
    match no_hint {
        Selection::Prompt { labels, prompt } => {
            assert_eq!(
                labels,
                vec![admin_role().role_arn, reader_role().role_arn]
            );
            assert_eq!(prompt, "Choose Role for dev");
        }
        other => panic!("expected a prompt, got {:?}", other),
    }
    let bad_hint = select(&roles, &Some("NoSuchRole".to_string()), &"dev".to_string()).unwrap();
    assert!(matches!(bad_hint, Selection::Prompt { .. }));
}

#[test]
fn prompt_answer_and_cancellation() {
    let roles = vec![admin_role(), reader_role()];
    let picked = resolve_choice(&roles, Some(1), &"dev".to_string());
    assert_eq!(picked.unwrap(), reader_role());
    let cancelled = resolve_choice(&roles, None, &"dev".to_string());
    assert_eq!(
        cancelled.unwrap_err(),
        ResolveError::AmbiguousRoleSelectionCancelled("dev".to_string())
    );
}

#[test]
fn role_names_parsed_from_arns() {
    let role = admin_role();
    assert_eq!(role.role_name(), Some("Admin".to_string()));
    assert_eq!(role.provider_id(), Some("okta".to_string()));
    let nested = role_ref(
        "arn:aws:iam::1:saml-provider/okta",
        "arn:aws:iam::1:role/path/Admin",
    );
    assert_eq!(nested.role_name(), Some("path/Admin".to_string()));
}

#[test]
fn reference_with_bad_arn_is_rejected() {
    let bad = RoleReference::new(
        "arn:aws:iam::1:saml-provider/okta".to_string(),
        "no-slash-here".to_string(),
    );
    assert_eq!(
        bad.unwrap_err(),
        ResolveError::InvalidArn("no-slash-here".to_string())
    );
    let empty_name = RoleReference::new(
        "arn:aws:iam::1:saml-provider/okta".to_string(),
        "ends-with-slash/".to_string(),
    );
    assert_eq!(
        empty_name.unwrap_err(),
        ResolveError::InvalidArn("ends-with-slash/".to_string())
    );
    let good = RoleReference::new(
        "arn:aws:iam::1:saml-provider/okta".to_string(),
        "arn:aws:iam::1:role/Admin".to_string(),
    );
    assert!(good.is_ok());
}

#[test]
fn alias_tier_needs_exactly_one_alias() {
    assert_eq!(
        account_alias_from_listing(&vec![]).unwrap_err(),
        ResolveError::AccountAliasUnavailable
    );
    assert_eq!(
        account_alias_from_listing(&vec!["acme".to_string()]).unwrap(),
        "acme".to_string()
    );
    assert_eq!(
        account_alias_from_listing(&vec!["a".to_string(), "b".to_string()]).unwrap_err(),
        ResolveError::AccountAliasUnavailable
    );
}

#[test]
fn account_id_extracted_from_response_body() {
    assert_eq!(
        extract_account_name("<div>Account: 111122223333 (acme)</div>"),
        Some("111122223333".to_string())
    );
    assert_eq!(extract_account_name("no marker here"), None);
    assert_eq!(extract_account_name("Account: none"), None);
    assert_eq!(extract_account_name("ends with Account: "), None);
    assert_eq!(
        extract_account_name("Account: x then Account: 42 later"),
        Some("42".to_string())
    );
}

#[test]
fn namer_tier_ordering() {
    let body = "Account: 999 embedded";
    let one_alias = Some(vec!["acme".to_string()]);
    assert_eq!(
        account_name(&one_alias, body, &"fallback".to_string()),
        "acme".to_string()
    );
    let no_alias = Some(vec![]);
    assert_eq!(
        account_name(&no_alias, body, &"fallback".to_string()),
        "999".to_string()
    );
    let two_aliases = Some(vec!["a".to_string(), "b".to_string()]);
    assert_eq!(
        account_name(&two_aliases, "no id", &"fallback".to_string()),
        "fallback".to_string()
    );
    assert_eq!(
        account_name(&None, "no id", &"".to_string()),
        "".to_string()
    );
}

#[test]
fn app_link_located_by_label_among_entitlements() {
    let other_kind = AppLink {
        label: "dev".to_string(),
        link_url: "https://example.okta.com/home/other/dev".to_string(),
        app_name: "other_app".to_string(),
    };
    let links = vec![other_kind, aws_link("prod"), aws_link("dev")];
    let found = locate_app_link(&links, &"p".to_string(), &"dev".to_string()).unwrap();
    assert_eq!(found, aws_link("dev"));
    let missing = locate_app_link(&links, &"p".to_string(), &"qa".to_string());
    assert_eq!(
        missing.unwrap_err(),
        ResolveError::ApplicationNotFound("p".to_string())
    );
}

#[test]
fn unmatched_role_fails_with_role_not_matched() {
    let r = match_role(
        &vec![admin_role()],
        &"Reader".to_string(),
        &"prof".to_string(),
    );
    assert_eq!(
        r.unwrap_err(),
        ResolveError::RoleNotMatched("Reader".to_string(), "prof".to_string())
    );
}

#[test]
fn resolution_happy_path() {
    let profile = profile("dev", "dev", "Admin");
    let step = profile.start_resolution();
    assert_eq!(step, ResolveStep::NeedAppLinks);
    let step = profile.resolution_step(step, ResolveEvent::AppLinks(vec![aws_link("dev")]));
    assert_eq!(step, ResolveStep::NeedAssertion(aws_link("dev")));
    let assertion = Assertion {
        raw: "PHNhbWw+".to_string(),
        roles: vec![reader_role(), admin_role()],
    };
    let step = profile.resolution_step(step, ResolveEvent::Assertion(Some(assertion)));
    assert_eq!(
        step,
        ResolveStep::NeedExchange {
            role: admin_role(),
            raw: "PHNhbWw+".to_string(),
            attempt: 1,
        }
    );
    let step = profile.resolution_step(
        step,
        ResolveEvent::Exchange(ExchangeOutcome::Credentials(creds("dev"))),
    );
    assert_eq!(step, ResolveStep::Done(Ok(creds("dev"))));
}

#[test]
fn exchange_failure_is_retried_once_transparently() {
    let profile = profile("dev", "dev", "Admin");
    let first = ResolveStep::NeedExchange {
        role: admin_role(),
        raw: "PHNhbWw+".to_string(),
        attempt: 1,
    };
    let second = profile.resolution_step(first, ResolveEvent::Exchange(ExchangeOutcome::Failed));
    assert_eq!(
        second,
        ResolveStep::NeedExchange {
            role: admin_role(),
            raw: "PHNhbWw+".to_string(),
            attempt: 2,
        }
    );
    let done = profile.resolution_step(
        second,
        ResolveEvent::Exchange(ExchangeOutcome::Credentials(creds("dev"))),
    );
    assert_eq!(done, ResolveStep::Done(Ok(creds("dev"))));
    assert_eq!(
        exchange_result(
            ExchangeOutcome::Failed,
            Some(ExchangeOutcome::Credentials(creds("dev")))
        ),
        Ok(creds("dev"))
    );
}

#[test]
fn discovery_body_fetch_retried_once() {
    assert_eq!(
        retry_once(Some("page".to_string()), None),
        Ok("page".to_string())
    );
    assert_eq!(
        retry_once(None, Some(Some("page".to_string()))),
        Ok("page".to_string())
    );
    assert_eq!(
        retry_once(None, Some(None)),
        Err(ResolveError::ProviderExchangeFailed)
    );
}

#[test]
fn second_exchange_failure_is_terminal() {
    let profile = profile("dev", "dev", "Admin");
    let first = ResolveStep::NeedExchange {
        role: admin_role(),
        raw: "PHNhbWw+".to_string(),
        attempt: 1,
    };
    let second = profile.resolution_step(first, ResolveEvent::Exchange(ExchangeOutcome::Failed));
    let done = profile.resolution_step(second, ResolveEvent::Exchange(ExchangeOutcome::Failed));
    assert_eq!(
        done,
        ResolveStep::Done(Err(ResolveError::ProviderExchangeFailed))
    );
    assert_eq!(
        exchange_result(ExchangeOutcome::Failed, Some(ExchangeOutcome::Failed)),
        Err(ResolveError::ProviderExchangeFailed)
    );
}

#[test]
fn missing_credentials_is_fatal_and_not_retried() {
    let profile = profile("dev", "dev", "Admin");
    let step = ResolveStep::NeedExchange {
        role: admin_role(),
        raw: "PHNhbWw+".to_string(),
        attempt: 1,
    };
    let done = profile.resolution_step(step, ResolveEvent::Exchange(ExchangeOutcome::NoCredentials));
    assert_eq!(
        done,
        ResolveStep::Done(Err(ResolveError::MissingCredentials))
    );
    assert_eq!(
        exchange_result(ExchangeOutcome::NoCredentials, None),
        Err(ResolveError::MissingCredentials)
    );
}

#[test]
fn assertion_fetch_failure_carries_the_application_label() {
    let profile = profile("dev", "dev-app", "Admin");
    let step = ResolveStep::NeedAssertion(aws_link("dev-app"));
    let done = profile.resolution_step(step, ResolveEvent::Assertion(None));
    assert_eq!(
        done,
        ResolveStep::Done(Err(ResolveError::AssertionFetchError(
            "dev-app".to_string()
        )))
    );
}

#[test]
fn empty_assertion_fails_profile_while_sibling_succeeds() {
    let failing = profile("empty", "empty-app", "Admin");
    let step = ResolveStep::NeedAssertion(aws_link("empty-app"));
    let empty_assertion = Assertion {
        raw: "PHNhbWw+".to_string(),
        roles: vec![],
    };
    let done = failing.resolution_step(step, ResolveEvent::Assertion(Some(empty_assertion)));
    assert_eq!(
        done,
        ResolveStep::Done(Err(ResolveError::NoRoleAvailable("empty".to_string())))
    );

    let sibling = profile("good", "good-app", "Admin");
    let step = sibling.resolution_step(
        ResolveStep::NeedAppLinks,
        ResolveEvent::AppLinks(vec![aws_link("good-app")]),
    );
    let assertion = Assertion {
        raw: "PHNhbWw+".to_string(),
        roles: vec![admin_role()],
    };
    let step = sibling.resolution_step(step, ResolveEvent::Assertion(Some(assertion)));
    let done = sibling.resolution_step(
        step,
        ResolveEvent::Exchange(ExchangeOutcome::Credentials(creds("good"))),
    );
    assert_eq!(done, ResolveStep::Done(Ok(creds("good"))));

    let mut store = CredentialStore::new();
    store.set("pre-existing".to_string(), creds("pre"));
    match done {
        ResolveStep::Done(Ok(c)) => store.set("good".to_string(), c),
        other => panic!("sibling should have resolved, got {:?}", other),
    }
    assert_eq!(store.get(&"good".to_string()), Some(creds("good")));
    assert_eq!(store.get(&"pre-existing".to_string()), Some(creds("pre")));
    assert_eq!(store.get(&"empty".to_string()), None);
}
