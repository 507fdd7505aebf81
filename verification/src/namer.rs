use vstd::prelude::*;
use vstd::string::StrSliceExecFns;

use crate::error::ResolveError;

verus! {

/// An ASCII digit.
pub open spec fn is_digit(c: char) -> bool {
    48 <= c as u32 && c as u32 <= 57
}

/// The marker before the embedded account identifier on the provider's
/// post-authentication page.
pub open spec fn account_marker() -> Seq<char> {
    "Account: "@
}

/// Whether the account pattern — the marker followed by at least one digit —
/// matches at `i`.
pub open spec fn account_match_at(s: Seq<char>, i: int) -> bool {
    &&& 0 <= i
    &&& i + account_marker().len() < s.len()
    &&& s.subrange(i, i + account_marker().len()) == account_marker()
    &&& is_digit(s[i + account_marker().len()])
}

/// ... and does so for the first time in `s`.
pub open spec fn first_account_match_at(s: Seq<char>, i: int) -> bool {
    account_match_at(s, i) && forall|j: int| 0 <= j < i ==> !account_match_at(s, j)
}

/// Whether the page embeds an account identifier at all.
pub open spec fn account_id_present(s: Seq<char>) -> bool {
    exists|i: int| account_match_at(s, i)
}

/// Whether `end` closes the maximal digit run that starts at `start`.
pub open spec fn digit_run_end(s: Seq<char>, start: int, end: int) -> bool {
    &&& start <= end <= s.len()
    &&& forall|k: int| start <= k < end ==> is_digit(s[k])
    &&& (end == s.len() || !is_digit(s[end]))
}

/// The embedded account identifier: the digit run after the first marker
/// that a digit follows.
pub open spec fn account_id_of(s: Seq<char>) -> Seq<char> {
    let i = choose|i: int| first_account_match_at(s, i);
    let start = i + account_marker().len();
    let e = choose|e: int| digit_run_end(s, start, e);
    s.subrange(start, e)
}

/// The first position of the account pattern is unique.
pub proof fn lemma_first_account_match_unique(s: Seq<char>, i1: int, i2: int)
    requires
        first_account_match_at(s, i1),
        first_account_match_at(s, i2),
    ensures
        i1 == i2,
{
    if i1 < i2 {
        assert(!account_match_at(s, i1));
    }
    if i2 < i1 {
        assert(!account_match_at(s, i2));
    }
}

/// A digit run has exactly one maximal end.
pub proof fn lemma_digit_run_end_unique(s: Seq<char>, start: int, e1: int, e2: int)
    requires
        digit_run_end(s, start, e1),
        digit_run_end(s, start, e2),
    ensures
        e1 == e2,
{
    if e1 < e2 {
        assert(is_digit(s[e1]));
    }
    if e2 < e1 {
        assert(is_digit(s[e2]));
    }
}

/// Whether the character is an ASCII digit.
fn digit_char(c: char) -> (r: bool)
    ensures
        r == is_digit(c),
{
    let u: u32 = c as u32;
    48 <= u && u <= 57
}

/// Whether `pattern` occupies `s` from position `i` on.
fn text_matches_at(s: &str, i: usize, pattern: &str) -> (r: bool)
    requires
        i + pattern@.len() <= s@.len(),
        s@.len() <= usize::MAX,
    ensures
        r == (s@.subrange(i as int, i + pattern@.len()) == pattern@),
{
    let plen = pattern.unicode_len();
    let mut k: usize = 0;
    while k < plen
        invariant
            plen == pattern@.len(),
            i + plen <= s@.len(),
            s@.len() <= usize::MAX,
            k <= plen,
            forall|t: int| 0 <= t < k ==> s@[i + t] == pattern@[t],
        decreases plen - k,
    {
        if s.get_char(i + k) != pattern.get_char(k) {
            proof {
                assert(s@.subrange(i as int, i + pattern@.len())[k as int] == s@[i + k]);
            }
            return false;
        }
        k += 1;
    }
    proof {
        assert(s@.subrange(i as int, i + pattern@.len()) =~= pattern@);
    }
    true
}

/// The account identifier embedded in the provider's response body — the
/// digit run after the first occurrence of the marker — where the body
/// holds one.
pub fn extract_account_name(provider_response_body: &str) -> (r: Option<String>)
    ensures
        r is Some <==> account_id_present(provider_response_body@),
        r matches Some(id) ==> id@ == account_id_of(provider_response_body@) && id@.len() > 0,
{
    let s = provider_response_body;
    let len = s.unicode_len();
    let marker = "Account: ";
    let mlen = marker.unicode_len();
    let mut i: usize = 0;
    while i < len && len - i > mlen
        invariant
            s == provider_response_body,
            len == s@.len(),
            mlen == account_marker().len(),
            marker@ == account_marker(),
            i <= len,
            forall|j: int| 0 <= j < i ==> !account_match_at(s@, j),
        decreases len - i,
    {
        if text_matches_at(s, i, marker) && digit_char(s.get_char(i + mlen)) {
            proof {
                assert(account_match_at(s@, i as int));
                assert(first_account_match_at(s@, i as int));
            }
            let start = i + mlen;
            let mut end = start;
            while end < len
                invariant
                    len == s@.len(),
                    start <= end <= len,
                    forall|k: int| start <= k < end ==> is_digit(s@[k]),
                ensures
                    start <= end <= len,
                    forall|k: int| start <= k < end ==> is_digit(s@[k]),
                    end == len || !is_digit(s@[end as int]),
                decreases len - end,
            {
                if !digit_char(s.get_char(end)) {
                    break;
                }
                end += 1;
            }
            proof {
                assert(digit_run_end(s@, start as int, end as int));
                assert(is_digit(s@[start as int]));
                assert(end > start);
            }
            let id = s.substring_char(start, end).to_owned();
            proof {
                let ci = choose|c: int| first_account_match_at(s@, c);
                lemma_first_account_match_unique(s@, i as int, ci);
                let cstart = ci + account_marker().len();
                let ce = choose|e: int| digit_run_end(s@, cstart, e);
                lemma_digit_run_end_unique(s@, start as int, end as int, ce);
                assert(id@ == account_id_of(s@));
            }
            return Some(id);
        }
        proof {
            assert(!account_match_at(s@, i as int));
        }
        i += 1;
    }
    proof {
        assert forall|j: int| !account_match_at(s@, j) by {
            if 0 <= j < i {
            } else if j >= i {
                assert(j + account_marker().len() >= s@.len());
            }
        }
    }
    None
}

/// Tier 1's rule on the alias listing: it succeeds only where exactly one
/// alias is registered; zero or several aliases fail this tier alone, never
/// its caller.
pub fn account_alias_from_listing(aliases: &Vec<String>) -> (r: Result<String, ResolveError>)
    ensures
        match r {
            Ok(alias) => aliases@.len() == 1 && alias == aliases@[0],
            Err(e) => aliases@.len() != 1 && e == ResolveError::AccountAliasUnavailable,
        },
{
    if aliases.len() == 1 {
        Ok(aliases[0].clone())
    } else {
        Err(ResolveError::AccountAliasUnavailable)
    }
}

/// The resolved account's display name, by the three-tier fallback: the
/// provider-registered alias where the listing holds exactly one; else the
/// account identifier embedded in the provider's response body; else the
/// application's display label, unconditionally — even an empty label.
/// `alias_listing` is `None` where the alias lookup itself failed; a failed
/// tier falls through, it never escapes this function.
pub fn account_name(
    alias_listing: &Option<Vec<String>>,
    provider_response_body: &str,
    fallback_label: &String,
) -> (r: String)
    ensures
        (*alias_listing) is Some && (*alias_listing)->0@.len() == 1 ==> r
            == (*alias_listing)->0@[0],
        ((*alias_listing) is None || (*alias_listing)->0@.len() != 1) && account_id_present(
            provider_response_body@,
        ) ==> r@ == account_id_of(provider_response_body@),
        ((*alias_listing) is None || (*alias_listing)->0@.len() != 1) && !account_id_present(
            provider_response_body@,
        ) ==> r == *fallback_label,
{
    match alias_listing {
        Some(aliases) => {
            if aliases.len() == 1 {
                return aliases[0].clone();
            }
        },
        None => {},
    }
    match extract_account_name(provider_response_body) {
        Some(id) => id,
        None => fallback_label.clone(),
    }
}

} // verus!
