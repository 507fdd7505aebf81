use vstd::prelude::*;
use vstd::string::StringExecFns;

use crate::error::ResolveError;
use crate::role::{first_role_named_at, role_named_at, RoleReference};

verus! {

/// What the role selection decides: exactly one role, or the request to put
/// the listed labels to the user under the given prompt.
#[derive(Debug, PartialEq, Eq)]
pub enum Selection {
    Chosen(RoleReference),
    Prompt { labels: Vec<String>, prompt: String },
}

/// The prompt put to the user when the choice is ambiguous.
pub open spec fn prompt_text(context_label: Seq<char>) -> Seq<char> {
    "Choose Role for "@ + context_label
}

/// Picks exactly one of the authorized roles, in this order of checks: no
/// role at all is an error; a single role is returned whatever the hint
/// says; with several roles, the first whose role name equals the hint wins;
/// otherwise the choice is handed to the user as a prompt over the roles'
/// ARNs.
pub fn select(
    roles: &Vec<RoleReference>,
    preferred_role_name: &Option<String>,
    context_label: &String,
) -> (r: Result<Selection, ResolveError>)
    ensures
        r is Err <==> roles@.len() == 0,
        r is Err ==> r == Err::<Selection, ResolveError>(
            ResolveError::NoRoleAvailable(*context_label),
        ),
        roles@.len() == 1 ==> (r matches Ok(Selection::Chosen(role)) && role == roles@[0]),
        (*preferred_role_name) is Some && roles@.len() >= 2 && (exists|i: int|
            role_named_at(roles@, (*preferred_role_name)->0@, i)) ==> (r matches Ok(
            Selection::Chosen(role),
        ) && (exists|i: int|
            first_role_named_at(roles@, (*preferred_role_name)->0@, i) && role == roles@[i])),
        roles@.len() >= 2 && (*preferred_role_name) is None ==> (r matches Ok(
            Selection::Prompt { labels, prompt },
        ) && labels@.len() == roles@.len() && (forall|i: int|
            0 <= i < roles@.len() ==> labels@[i]@ == roles@[i].role_arn@) && prompt@ == prompt_text(
            context_label@,
        )),
        (*preferred_role_name) is Some && roles@.len() >= 2 && (forall|i: int|
            !role_named_at(roles@, (*preferred_role_name)->0@, i)) ==> (r matches Ok(
            Selection::Prompt { labels, prompt },
        ) && labels@.len() == roles@.len() && (forall|i: int|
            0 <= i < roles@.len() ==> labels@[i]@ == roles@[i].role_arn@) && prompt@ == prompt_text(
            context_label@,
        )),
{
    if roles.len() == 0 {
        return Err(ResolveError::NoRoleAvailable(context_label.clone()));
    }
    if roles.len() == 1 {
        return Ok(Selection::Chosen(roles[0].duplicate()));
    }
    match preferred_role_name {
        Some(hint) => {
            let n = roles.len();
            let mut i: usize = 0;
            while i < n
                invariant
                    n == roles@.len(),
                    n >= 2,
                    i <= n,
                    (*preferred_role_name) is Some,
                    (*preferred_role_name)->0 == *hint,
                    forall|j: int| 0 <= j < i ==> !role_named_at(roles@, hint@, j),
                decreases n - i,
            {
                match roles[i].role_name() {
                    Some(name) => {
                        if name == *hint {
                            proof {
                                assert(role_named_at(roles@, hint@, i as int));
                                assert(first_role_named_at(roles@, hint@, i as int));
                            }
                            return Ok(Selection::Chosen(roles[i].duplicate()));
                        }
                    },
                    None => {},
                }
                proof {
                    assert(!role_named_at(roles@, hint@, i as int));
                }
                i += 1;
            }
        },
        None => {},
    }
    let n = roles.len();
    let mut labels: Vec<String> = Vec::new();
    let mut i: usize = 0;
    while i < n
        invariant
            n == roles@.len(),
            i <= n,
            labels@.len() == i,
            forall|j: int| 0 <= j < i ==> labels@[j]@ == roles@[j].role_arn@,
        decreases n - i,
    {
        labels.push(roles[i].role_arn.clone());
        i += 1;
    }
    let prompt = String::from_str("Choose Role for ").concat(context_label.as_str());
    Ok(Selection::Prompt { labels, prompt })
}

/// Applies the interactive collaborator's answer to a prompt over `roles`:
/// the index the user chose, or `None` where the choice was cancelled, which
/// propagates as a selection error.
pub fn resolve_choice(
    roles: &Vec<RoleReference>,
    choice: Option<usize>,
    context_label: &String,
) -> (r: Result<RoleReference, ResolveError>)
    requires
        choice matches Some(i) ==> i < roles@.len(),
    ensures
        match r {
            Ok(role) => choice matches Some(i) && role == roles@[i as int],
            Err(e) => choice is None && e == ResolveError::AmbiguousRoleSelectionCancelled(
                *context_label,
            ),
        },
{
    match choice {
        Some(i) => Ok(roles[i].duplicate()),
        None => Err(ResolveError::AmbiguousRoleSelectionCancelled(context_label.clone())),
    }
}

/// With at least two roles and a hint that exactly one of them carries, the
/// selection is that role, and no prompt is raised.
pub proof fn lemma_unique_hint_match_is_first(roles: Seq<RoleReference>, hint: Seq<char>, i: int)
    requires
        role_named_at(roles, hint, i),
        forall|j: int| 0 <= j < roles.len() && j != i ==> !role_named_at(roles, hint, j),
    ensures
        first_role_named_at(roles, hint, i),
        forall|j: int| first_role_named_at(roles, hint, j) ==> j == i,
{
}

} // verus!
