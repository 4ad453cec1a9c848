//! The allowlist matcher shared by every gate that screens an identity
//! against a configured pattern list: inbound contact screening on channels
//! and outbound recipient screening on the email tool.
//!
//! A pattern list is read as follows: an empty list denies everything; the
//! pattern `*` allows everything; a pattern beginning with `@` matches any
//! candidate that ends with it, ignoring case; any other pattern must equal
//! the candidate, ignoring case.

use vstd::prelude::*;
use vstd::string::*;
use crate::text::is_suffix_of;
use crate::text::str_ends_with;
use crate::text::str_eq;

verus! {

/// What `str::to_lowercase` returns for a given character sequence.
pub uninterp spec fn lower_of(s: Seq<char>) -> Seq<char>;

/// Relies on str::to_lowercase: the result is a function of the input
/// characters alone.
#[verifier::external_body]
pub fn to_lower(s: &str) -> (r: String)
    ensures
        r@ == lower_of(s@),
{
    s.to_lowercase()
}

/// The pattern that allows every candidate.
pub open spec fn is_wildcard(p: Seq<char>) -> bool {
    p =~= seq!['*']
}

/// Whether one pattern admits `cand`: `*` admits everything, a pattern
/// whose lowered form begins with `@` admits candidates ending with it
/// (case-insensitively), and any other pattern admits only its
/// case-insensitive equal.
pub open spec fn pattern_allows(cand: Seq<char>, pat: Seq<char>) -> bool {
    if is_wildcard(pat) {
        true
    } else {
        let pl = lower_of(pat);
        let cl = lower_of(cand);
        if pl.len() > 0 && pl[0] == '@' {
            is_suffix_of(pl, cl)
        } else {
            cl == pl
        }
    }
}

/// Whether some pattern in the list admits `cand`. An empty list admits
/// nobody.
pub open spec fn allowed_spec(cand: Seq<char>, pats: Seq<Seq<char>>) -> bool {
    exists|i: int| 0 <= i < pats.len() && pattern_allows(cand, pats[i])
}

fn pattern_matches(cand_low: &str, pat: &str, Ghost(cand): Ghost<Seq<char>>) -> (r: bool)
    requires
        cand_low@ == lower_of(cand),
    ensures
        r == pattern_allows(cand, pat@),
{
    if pat.unicode_len() == 1 && pat.get_char(0) == '*' {
        proof {
            assert(is_wildcard(pat@));
        }
        return true;
    }
    proof {
        assert(!is_wildcard(pat@));
    }
    let pl = to_lower(pat);
    let plen = pl.as_str().unicode_len();
    if plen > 0 && pl.as_str().get_char(0) == '@' {
        str_ends_with(cand_low, pl.as_str())
    } else {
        str_eq(cand_low, pl.as_str())
    }
}

/// The shared allowlist decision: true exactly when some pattern in
/// `patterns` admits `candidate`.
pub fn allowed(candidate: &str, patterns: &Vec<String>) -> (r: bool)
    ensures
        r == allowed_spec(candidate@, patterns.deep_view()),
{
    let cand_low = to_lower(candidate);
    let n = patterns.len();
    let mut i: usize = 0;
    while i < n
        invariant
            0 <= i <= n,
            n == patterns@.len(),
            cand_low@ == lower_of(candidate@),
            forall|j: int| 0 <= j < i ==> !pattern_allows(candidate@, patterns.deep_view()[j]),
        decreases n - i,
    {
        proof {
            assert(patterns.deep_view()[i as int] == patterns@[i as int]@);
        }
        if pattern_matches(cand_low.as_str(), patterns[i].as_str(), Ghost(candidate@)) {
            proof {
                assert(pattern_allows(candidate@, patterns.deep_view()[i as int]));
            }
            return true;
        }
        i = i + 1;
    }
    false
}

/// The matcher's defining rules: an empty list denies every candidate; the
/// list holding only `*` allows every candidate; and a one-pattern list
/// allows a candidate exactly when that pattern is a case-insensitive exact
/// match or, for a pattern beginning with `@`, a case-insensitive suffix
/// of the candidate.
pub proof fn lemma_allowlist_rules(cand: Seq<char>, p: Seq<char>)
    ensures
        !allowed_spec(cand, Seq::<Seq<char>>::empty()),
        allowed_spec(cand, seq![seq!['*']]),
        allowed_spec(cand, seq![p]) <==> pattern_allows(cand, p),
{
    assert(pattern_allows(cand, seq![seq!['*']][0]));
    assert(allowed_spec(cand, seq![seq!['*']]));
    if pattern_allows(cand, p) {
        assert(pattern_allows(cand, seq![p][0]));
        assert(allowed_spec(cand, seq![p]));
    }
}

} // verus!
