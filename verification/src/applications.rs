use vstd::prelude::*;
use vstd::string::StringExecFns;

use crate::error::ResolveError;

verus! {

/// One entitlement of the identity: a pointer from the user to a downstream
/// application, with its display label and the kind of application behind it.
#[derive(Clone, Debug, PartialEq, Eq)]
pub struct AppLink {
    pub label: String,
    pub link_url: String,
    pub app_name: String,
}

impl AppLink {
    /// An equal copy of the link.
    pub fn duplicate(&self) -> (r: AppLink)
        ensures
            r == *self,
    {
        AppLink {
            label: self.label.clone(),
            link_url: self.link_url.clone(),
            app_name: self.app_name.clone(),
        }
    }
}

/// Whether the link is a cloud-provider application carrying the wanted
/// label.
pub open spec fn link_matches(link: AppLink, application_name: Seq<char>) -> bool {
    link.app_name@ == "amazon_aws"@ && link.label@ == application_name
}

/// Whether the link at `i` matches and is the first of `links` that does.
pub open spec fn first_link_match_at(
    links: Seq<AppLink>,
    application_name: Seq<char>,
    i: int,
) -> bool {
    &&& 0 <= i < links.len()
    &&& link_matches(links[i], application_name)
    &&& forall|j: int| 0 <= j < i ==> !link_matches(links[j], application_name)
}

/// The position of the first cloud-provider link with the wanted label.
pub fn find_app_link(links: &Vec<AppLink>, application_name: &String) -> (r: Option<usize>)
    ensures
        r matches Some(i) ==> first_link_match_at(links@, application_name@, i as int),
        r is None ==> forall|i: int|
            0 <= i < links@.len() ==> !link_matches(links@[i], application_name@),
{
    let provider = String::from_str("amazon_aws");
    let n = links.len();
    let mut i: usize = 0;
    while i < n
        invariant
            n == links@.len(),
            i <= n,
            provider@ == "amazon_aws"@,
            forall|j: int| 0 <= j < i ==> !link_matches(links@[j], application_name@),
        decreases n - i,
    {
        if links[i].app_name == provider && links[i].label == *application_name {
            return Some(i);
        }
        i += 1;
    }
    None
}

/// The first cloud-provider link with the profile's application label, or
/// `ApplicationNotFound` under the profile's name where the entitlements
/// hold none.
pub fn locate_app_link(
    links: &Vec<AppLink>,
    profile_name: &String,
    application_name: &String,
) -> (r: Result<AppLink, ResolveError>)
    ensures
        match r {
            Ok(link) => exists|i: int|
                first_link_match_at(links@, application_name@, i) && link == links@[i],
            Err(e) => (forall|i: int|
                0 <= i < links@.len() ==> !link_matches(links@[i], application_name@)) && e
                == ResolveError::ApplicationNotFound(*profile_name),
        },
{
    match find_app_link(links, application_name) {
        Some(i) => Ok(links[i].duplicate()),
        None => Err(ResolveError::ApplicationNotFound(profile_name.clone())),
    }
}

} // verus!
