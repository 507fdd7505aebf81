use vstd::prelude::*;

use crate::error::ResolveError;

verus! {

/// Whether a glob pattern is well formed, as the pattern compiler decides.
pub uninterp spec fn glob_pattern_ok(pattern: Seq<char>) -> bool;

/// Whether a name matches a well-formed glob pattern.
pub uninterp spec fn glob_matches(pattern: Seq<char>, name: Seq<char>) -> bool;

/// Relies on glob::Pattern::new and glob::Pattern::matches: `new` succeeds
/// or fails on the pattern text alone, and `matches` depends on the compiled
/// pattern and the name alone; neither panics.
#[verifier::external_body]
fn glob_match(pattern: &str, name: &str) -> (r: Option<bool>)
    ensures
        r is Some <==> glob_pattern_ok(pattern@),
        r matches Some(b) ==> b == glob_matches(pattern@, name@),
{
    match glob::Pattern::new(pattern) {
        Ok(compiled) => Some(compiled.matches(name)),
        Err(_) => None,
    }
}

/// Whether one name passes the filter; nothing where the pattern is
/// malformed.
pub fn name_matches_filter(pattern: &String, name: &String) -> (r: Option<bool>)
    ensures
        r is Some <==> glob_pattern_ok(pattern@),
        r matches Some(b) ==> b == glob_matches(pattern@, name@),
{
    glob_match(pattern.as_str(), name.as_str())
}

/// The subsequence of `names` that matches the pattern, in their order.
pub open spec fn matching_names(pattern: Seq<char>, names: Seq<String>) -> Seq<String>
    decreases names.len(),
{
    if names.len() == 0 {
        Seq::empty()
    } else {
        let rest = matching_names(pattern, names.drop_last());
        if glob_matches(pattern, names.last()@) {
            rest.push(names.last())
        } else {
            rest
        }
    }
}

/// The configured organizations a run works on: every name the filter
/// matches, in configured order.  A filter matching no organization is the
/// whole-run configuration error, distinct from any single profile's
/// failure; a malformed pattern is rejected as such.
pub fn filter_organizations(pattern: &String, names: &Vec<String>) -> (r: Result<
    Vec<String>,
    ResolveError,
>)
    ensures
        !glob_pattern_ok(pattern@) ==> r == Err::<Vec<String>, _>(
            ResolveError::InvalidPattern(*pattern),
        ),
        glob_pattern_ok(pattern@) ==> match r {
            Ok(selected) => selected@ == matching_names(pattern@, names@) && selected@.len() > 0,
            Err(e) => matching_names(pattern@, names@).len() == 0 && e
                == ResolveError::NoOrganizationsMatched(*pattern),
        },
{
    match glob_match(pattern.as_str(), "") {
        None => {
            return Err(ResolveError::InvalidPattern(pattern.clone()));
        },
        Some(_) => {},
    }
    let n = names.len();
    let mut selected: Vec<String> = Vec::new();
    let mut i: usize = 0;
    while i < n
        invariant
            n == names@.len(),
            i <= n,
            glob_pattern_ok(pattern@),
            selected@ == matching_names(pattern@, names@.take(i as int)),
        decreases n - i,
    {
        match glob_match(pattern.as_str(), names[i].as_str()) {
            Some(true) => selected.push(names[i].clone()),
            Some(false) => {},
            None => vstd::pervasive::unreached(),
        }
        proof {
            assert(names@.take(i + 1).drop_last() =~= names@.take(i as int));
            assert(names@.take(i + 1).last() == names@[i as int]);
        }
        i += 1;
    }
    proof {
        assert(names@.take(n as int) =~= names@);
    }
    if selected.len() == 0 {
        Err(ResolveError::NoOrganizationsMatched(pattern.clone()))
    } else {
        Ok(selected)
    }
}

} // verus!
