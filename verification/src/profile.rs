use vstd::prelude::*;

use crate::error::ResolveError;

verus! {

/// A configured profile, in the two shapes the configuration admits: a bare
/// application label, or the detailed shape with an optional role and an
/// optional requested credential lifetime.  The two shapes are interchangeable:
/// a bare name means the detailed shape with both options absent.
#[derive(Clone, Debug, PartialEq, Eq)]
pub enum ProfileConfig {
    Name(String),
    Detailed(FullProfileConfig),
}

/// The detailed shape of a profile configuration.
#[derive(Clone, Debug, PartialEq, Eq)]
pub struct FullProfileConfig {
    pub application: String,
    pub role: Option<String>,
    pub duration_seconds: Option<i64>,
}

/// What a profile configuration means, shape aside: a bare name is the
/// detailed shape with no role and no duration.
pub open spec fn normalized(config: ProfileConfig) -> FullProfileConfig {
    match config {
        ProfileConfig::Detailed(full) => full,
        ProfileConfig::Name(application) => FullProfileConfig {
            application,
            role: None,
            duration_seconds: None,
        },
    }
}

/// The first of two options that is present, if either is.
pub open spec fn or_default<T>(primary: Option<T>, fallback: Option<T>) -> Option<T> {
    if primary is Some {
        primary
    } else {
        fallback
    }
}

impl From<ProfileConfig> for FullProfileConfig {
    fn from(profile_config: ProfileConfig) -> Self {
        match profile_config {
            ProfileConfig::Detailed(full) => full,
            ProfileConfig::Name(application) => FullProfileConfig {
                application,
                role: None,
                duration_seconds: None,
            },
        }
    }
}

impl vstd::std_specs::convert::FromSpecImpl<ProfileConfig> for FullProfileConfig {
    open spec fn obeys_from_spec() -> bool {
        true
    }

    open spec fn from_spec(profile_config: ProfileConfig) -> Self {
        normalized(profile_config)
    }
}

/// A bare-name configuration and a detailed configuration with the same
/// application and neither role nor duration normalize to the same value.
pub proof fn lemma_bare_name_normalizes_like_detailed(application: String)
    ensures
        (normalized(ProfileConfig::Name(application)) == normalized(
            ProfileConfig::Detailed(
                FullProfileConfig { application, role: None, duration_seconds: None },
            ),
        )),
{
}

/// The configuration a discovered application link earns: the bare name
/// where the chosen role is exactly the organization's default role (the
/// defaults then re-supply it on every later run), else the detailed shape
/// naming the role outright.
pub fn config_for_discovered(
    application_label: &String,
    role_name: &String,
    default_role: &Option<String>,
) -> (r: ProfileConfig)
    ensures
        (*default_role) is Some && (*default_role)->0@ == role_name@ ==> r == ProfileConfig::Name(
            *application_label,
        ),
        (*default_role) is None || (*default_role)->0@ != role_name@ ==> r
            == ProfileConfig::Detailed(
            FullProfileConfig {
                application: *application_label,
                role: Some(*role_name),
                duration_seconds: None,
            },
        ),
{
    let is_default = match default_role {
        Some(default) => *default == *role_name,
        None => false,
    };
    if is_default {
        ProfileConfig::Name(application_label.clone())
    } else {
        ProfileConfig::Detailed(
            FullProfileConfig {
                application: application_label.clone(),
                role: Some(role_name.clone()),
                duration_seconds: None,
            },
        )
    }
}

/// A fully resolved request for temporary credentials: the profile name, the
/// application label, the role (required, taken from the organization default
/// where the configuration leaves it out), and the optional lifetime.
#[derive(Clone, Debug, PartialEq, Eq)]
pub struct Profile {
    pub name: String,
    pub application_name: String,
    pub role: String,
    pub duration_seconds: Option<i64>,
}

impl Profile {
    /// Builds the resolved profile from a configuration and the
    /// organization-level defaults.  Fails only where neither the
    /// configuration nor the defaults name a role.
    pub fn try_from_config(
        profile_config: &ProfileConfig,
        name: String,
        default_role: Option<String>,
        default_duration_seconds: Option<i64>,
    ) -> (r: Result<Profile, ResolveError>)
        ensures
            ({
                let full = normalized(*profile_config);
                match r {
                    Ok(p) => or_default(full.role, default_role) is Some && p.name == name
                        && p.application_name == full.application && p.role == or_default(
                        full.role,
                        default_role,
                    ).unwrap() && p.duration_seconds == or_default(
                        full.duration_seconds,
                        default_duration_seconds,
                    ),
                    Err(e) => full.role is None && default_role is None && e
                        == ResolveError::NoRoleAvailable(name),
                }
            }),
    {
        let full: FullProfileConfig = match profile_config {
            ProfileConfig::Detailed(full) => FullProfileConfig {
                application: full.application.clone(),
                role: match &full.role {
                    Some(role) => Some(role.clone()),
                    None => None,
                },
                duration_seconds: full.duration_seconds,
            },
            ProfileConfig::Name(application) => FullProfileConfig {
                application: application.clone(),
                role: None,
                duration_seconds: None,
            },
        };
        assert(full == normalized(*profile_config));
        let FullProfileConfig { application, role, duration_seconds } = full;
        let role = match role {
            Some(role) => role,
            None => match default_role {
                Some(role) => role,
                None => {
                    return Err(ResolveError::NoRoleAvailable(name));
                },
            },
        };
        let duration_seconds = match duration_seconds {
            Some(duration) => Some(duration),
            None => default_duration_seconds,
        };
        Ok(Profile { name, application_name: application, role, duration_seconds })
    }
}

} // verus!
