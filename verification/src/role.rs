use vstd::prelude::*;
use vstd::string::StrSliceExecFns;

use crate::error::ResolveError;

verus! {

/// One authorization extracted from a signed assertion: the identity
/// provider's ARN and the role's ARN.  Each ARN carries its name segment
/// after its first slash; a reference whose ARN has no non-empty name
/// segment is rejected at construction.
#[derive(Clone, Debug, PartialEq, Eq)]
pub struct RoleReference {
    pub provider_arn: String,
    pub role_arn: String,
}

/// A signed assertion: its raw encoded form and the ordered roles it
/// authorizes, exactly as they appear in the assertion.  Immutable once
/// obtained; owned by the one resolution that fetched it.
#[derive(Clone, Debug, PartialEq, Eq)]
pub struct Assertion {
    pub raw: String,
    pub roles: Vec<RoleReference>,
}

/// Whether `i` is the first slash of `s`.
pub open spec fn first_slash_at(s: Seq<char>, i: int) -> bool {
    &&& 0 <= i < s.len()
    &&& s[i] == '/'
    &&& forall|j: int| 0 <= j < i ==> s[j] != '/'
}

/// Whether the ARN has a name segment: a non-empty rest after its first
/// slash.
pub open spec fn arn_has_name(s: Seq<char>) -> bool {
    exists|i: int| first_slash_at(s, i) && i + 1 < s.len()
}

/// The ARN's name segment: everything after its first slash.
pub open spec fn arn_name(s: Seq<char>) -> Seq<char> {
    let i = choose|i: int| first_slash_at(s, i) && i + 1 < s.len();
    s.subrange(i + 1, s.len() as int)
}

/// A sequence has at most one first slash.
pub proof fn lemma_first_slash_unique(s: Seq<char>, i1: int, i2: int)
    requires
        first_slash_at(s, i1),
        first_slash_at(s, i2),
    ensures
        i1 == i2,
{
    if i1 < i2 {
        assert(s[i1] != '/');
    }
    if i2 < i1 {
        assert(s[i2] != '/');
    }
}

/// The name segment after the first slash of `arn`, where it exists and is
/// non-empty.
pub fn name_segment(arn: &str) -> (r: Option<String>)
    ensures
        r is Some <==> arn_has_name(arn@),
        r matches Some(name) ==> name@ == arn_name(arn@),
{
    let len = arn.unicode_len();
    let mut i: usize = 0;
    while i < len
        invariant
            len == arn@.len(),
            i <= len,
            forall|j: int| 0 <= j < i ==> arn@[j] != '/',
        decreases len - i,
    {
        if arn.get_char(i) == '/' {
            proof {
                assert(first_slash_at(arn@, i as int));
            }
            if i + 1 < len {
                let name = arn.substring_char(i + 1, len).to_owned();
                proof {
                    assert(arn_has_name(arn@));
                    let k = choose|k: int| first_slash_at(arn@, k) && k + 1 < arn@.len();
                    lemma_first_slash_unique(arn@, i as int, k);
                }
                return Some(name);
            } else {
                proof {
                    if arn_has_name(arn@) {
                        let k = choose|k: int|
                            first_slash_at(arn@, k) && k + 1 < arn@.len();
                        lemma_first_slash_unique(arn@, i as int, k);
                    }
                }
                return None;
            }
        }
        i += 1;
    }
    proof {
        if arn_has_name(arn@) {
            let k = choose|k: int| first_slash_at(arn@, k) && k + 1 < arn@.len();
            assert(arn@[k] == '/');
        }
    }
    None
}

impl RoleReference {
    /// Both ARNs parse to a non-empty name segment.
    pub open spec fn wf(self) -> bool {
        arn_has_name(self.provider_arn@) && arn_has_name(self.role_arn@)
    }

    /// Builds a reference, rejecting an ARN without a name segment.  Such a
    /// parse failure is fatal for this reference alone, not for the batch it
    /// came in.
    pub fn new(provider_arn: String, role_arn: String) -> (r: Result<RoleReference, ResolveError>)
        ensures
            match r {
                Ok(role) => role.provider_arn == provider_arn && role.role_arn == role_arn
                    && role.wf(),
                Err(e) => (!arn_has_name(role_arn@) && e == ResolveError::InvalidArn(role_arn)) || (
                arn_has_name(role_arn@) && !arn_has_name(provider_arn@) && e
                    == ResolveError::InvalidArn(provider_arn)),
            },
    {
        if name_segment(role_arn.as_str()).is_none() {
            return Err(ResolveError::InvalidArn(role_arn));
        }
        if name_segment(provider_arn.as_str()).is_none() {
            return Err(ResolveError::InvalidArn(provider_arn));
        }
        Ok(RoleReference { provider_arn, role_arn })
    }

    /// The role's name: the segment after the role ARN's first slash.
    pub fn role_name(&self) -> (r: Option<String>)
        ensures
            r is Some <==> arn_has_name(self.role_arn@),
            r matches Some(name) ==> name@ == arn_name(self.role_arn@),
    {
        name_segment(self.role_arn.as_str())
    }

    /// The provider's identifier: the segment after the provider ARN's first
    /// slash.
    pub fn provider_id(&self) -> (r: Option<String>)
        ensures
            r is Some <==> arn_has_name(self.provider_arn@),
            r matches Some(id) ==> id@ == arn_name(self.provider_arn@),
    {
        name_segment(self.provider_arn.as_str())
    }

    /// An equal copy of the reference.
    pub fn duplicate(&self) -> (r: RoleReference)
        ensures
            r == *self,
    {
        RoleReference {
            provider_arn: self.provider_arn.clone(),
            role_arn: self.role_arn.clone(),
        }
    }
}

/// The views of a sequence of role listings.
pub open spec fn listing_views(lists: Seq<Vec<RoleReference>>) -> Seq<Seq<RoleReference>> {
    lists.map_values(|v: Vec<RoleReference>| v@)
}

/// All listings laid end to end, in listing order.
pub open spec fn flat_roles(lists: Seq<Seq<RoleReference>>) -> Seq<RoleReference>
    decreases lists.len(),
{
    if lists.len() == 0 {
        Seq::empty()
    } else {
        flat_roles(lists.drop_last()) + lists.last()
    }
}

/// Every role of every fetched listing, one listing after the other — what
/// querying all application links for their roles yields.
pub fn all_roles(role_lists: &Vec<Vec<RoleReference>>) -> (r: Vec<RoleReference>)
    ensures
        r@ == flat_roles(listing_views(role_lists@)),
{
    let mut collected: Vec<RoleReference> = Vec::new();
    let n = role_lists.len();
    let mut i: usize = 0;
    while i < n
        invariant
            n == role_lists@.len(),
            i <= n,
            collected@ == flat_roles(listing_views(role_lists@.take(i as int))),
        decreases n - i,
    {
        let m = role_lists[i].len();
        let mut j: usize = 0;
        while j < m
            invariant
                n == role_lists@.len(),
                i < n,
                m == role_lists@[i as int]@.len(),
                j <= m,
                collected@ == flat_roles(listing_views(role_lists@.take(i as int)))
                    + role_lists@[i as int]@.subrange(0, j as int),
            decreases m - j,
        {
            collected.push(role_lists[i][j].duplicate());
            proof {
                assert(role_lists@[i as int]@.subrange(0, j + 1) =~= role_lists@[
                    i as int
                ]@.subrange(0, j as int).push(role_lists@[i as int]@[j as int]));
            }
            j += 1;
        }
        proof {
            assert(listing_views(role_lists@.take(i + 1)).drop_last() =~= listing_views(
                role_lists@.take(i as int),
            ));
            assert(listing_views(role_lists@.take(i + 1)).last() == role_lists@[i as int]@);
            assert(role_lists@[i as int]@.subrange(0, m as int) =~= role_lists@[i as int]@);
            assert(collected@ =~= flat_roles(listing_views(role_lists@.take(i + 1))));
        }
        i += 1;
    }
    proof {
        assert(role_lists@.take(n as int) =~= role_lists@);
    }
    collected
}

/// Whether the role at `i` of `roles` carries `name` as its role name.
pub open spec fn role_named_at(roles: Seq<RoleReference>, name: Seq<char>, i: int) -> bool {
    &&& 0 <= i < roles.len()
    &&& arn_has_name(roles[i].role_arn@)
    &&& arn_name(roles[i].role_arn@) == name
}

/// ... and is the first of `roles` that does.
pub open spec fn first_role_named_at(roles: Seq<RoleReference>, name: Seq<char>, i: int) -> bool {
    role_named_at(roles, name, i) && forall|j: int| 0 <= j < i ==> !role_named_at(roles, name, j)
}

} // verus!
