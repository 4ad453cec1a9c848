//! Character-sequence helpers shared across the crate: equality, prefix,
//! suffix and substring tests, whitespace trimming, and decimal conversion
//! for `u64` values.

use vstd::prelude::*;
use vstd::string::*;

verus! {

/// What `str::trim` returns for a given character sequence.
pub uninterp spec fn trim_of(s: Seq<char>) -> Seq<char>;

/// Relies on str::trim: removes leading and trailing whitespace, so the
/// result is a function of the characters alone and no longer than the input.
#[verifier::external_body]
pub fn trim_str(s: &str) -> (r: String)
    ensures
        r@ == trim_of(s@),
        r@.len() <= s@.len(),
{
    s.trim().to_string()
}

/// True when the two string slices hold the same characters.
pub fn str_eq(a: &str, b: &str) -> (r: bool)
    ensures
        r == (a@ == b@),
{
    let alen = a.unicode_len();
    let blen = b.unicode_len();
    if alen != blen {
        return false;
    }
    let mut i: usize = 0;
    while i < alen
        invariant
            0 <= i <= alen,
            alen == a@.len(),
            alen == b@.len(),
            forall|j: int| 0 <= j < i ==> a@[j] == b@[j],
        decreases alen - i,
    {
        if a.get_char(i) != b.get_char(i) {
            return false;
        }
        i = i + 1;
    }
    proof {
        assert(a@ =~= b@);
    }
    true
}

pub open spec fn is_prefix_of(prefix: Seq<char>, s: Seq<char>) -> bool {
    prefix.len() <= s.len() && s.subrange(0, prefix.len() as int) == prefix
}

pub open spec fn is_suffix_of(suffix: Seq<char>, s: Seq<char>) -> bool {
    suffix.len() <= s.len() && s.subrange(s.len() - suffix.len(), s.len() as int) == suffix
}

/// True when `s` begins with the characters of `prefix`.
pub fn str_starts_with(s: &str, prefix: &str) -> (r: bool)
    ensures
        r == is_prefix_of(prefix@, s@),
{
    let slen = s.unicode_len();
    let plen = prefix.unicode_len();
    if plen > slen {
        return false;
    }
    let mut i: usize = 0;
    while i < plen
        invariant
            0 <= i <= plen,
            plen <= slen,
            slen == s@.len(),
            plen == prefix@.len(),
            forall|j: int| 0 <= j < i ==> s@[j] == prefix@[j],
        decreases plen - i,
    {
        if s.get_char(i) != prefix.get_char(i) {
            proof {
                assert(s@.subrange(0, plen as int)[i as int] == s@[i as int]);
            }
            return false;
        }
        i = i + 1;
    }
    proof {
        assert(s@.subrange(0, plen as int) =~= prefix@);
    }
    true
}

/// True when `s` ends with the characters of `suffix`.
pub fn str_ends_with(s: &str, suffix: &str) -> (r: bool)
    ensures
        r == is_suffix_of(suffix@, s@),
{
    let slen = s.unicode_len();
    let xlen = suffix.unicode_len();
    if xlen > slen {
        return false;
    }
    let off = slen - xlen;
    let mut i: usize = 0;
    while i < xlen
        invariant
            0 <= i <= xlen,
            xlen <= slen,
            off == slen - xlen,
            slen == s@.len(),
            xlen == suffix@.len(),
            forall|j: int| 0 <= j < i ==> s@[off + j] == suffix@[j],
        decreases xlen - i,
    {
        if s.get_char(off + i) != suffix.get_char(i) {
            proof {
                assert(s@.subrange(off as int, slen as int)[i as int] == s@[off + i]);
            }
            return false;
        }
        i = i + 1;
    }
    proof {
        assert(s@.subrange(off as int, slen as int) =~= suffix@);
    }
    true
}

pub open spec fn contains_at(hay: Seq<char>, needle: Seq<char>, i: int) -> bool {
    0 <= i && i + needle.len() <= hay.len() && hay.subrange(i, i + needle.len()) == needle
}

pub open spec fn contains_seq(hay: Seq<char>, needle: Seq<char>) -> bool {
    exists|i: int| contains_at(hay, needle, i)
}

/// True when the characters of `needle` occur contiguously inside `hay`.
pub fn str_contains(hay: &str, needle: &str) -> (r: bool)
    ensures
        r == contains_seq(hay@, needle@),
{
    let hlen = hay.unicode_len();
    let nlen = needle.unicode_len();
    if nlen > hlen {
        return false;
    }
    if nlen == 0 {
        proof {
            assert(hay@.subrange(0, 0) =~= needle@);
            assert(contains_at(hay@, needle@, 0));
        }
        return true;
    }
    let mut start: usize = 0;
    while start <= hlen - nlen
        invariant
            0 < nlen <= hlen,
            hlen == hay@.len(),
            nlen == needle@.len(),
            0 <= start <= hlen - nlen + 1,
            forall|i: int| 0 <= i < start ==> !contains_at(hay@, needle@, i),
        decreases hlen - nlen - start + 1,
    {
        let mut k: usize = 0;
        let mut hit = true;
        while k < nlen
            invariant
                0 <= k <= nlen,
                0 <= start <= hlen - nlen,
                hlen == hay@.len(),
                nlen == needle@.len(),
                hit ==> forall|j: int| 0 <= j < k ==> hay@[start + j] == needle@[j],
                !hit ==> !contains_at(hay@, needle@, start as int),
            decreases nlen - k,
        {
            if hay.get_char(start + k) != needle.get_char(k) {
                proof {
                    assert(hay@.subrange(start as int, start + nlen as int)[k as int]
                        == hay@[start + k]);
                }
                hit = false;
                k = nlen;
            } else {
                k = k + 1;
            }
        }
        if hit {
            proof {
                assert(hay@.subrange(start as int, start + nlen as int) =~= needle@);
                assert(contains_at(hay@, needle@, start as int));
            }
            return true;
        }
        start = start + 1;
    }
    false
}

// --- decimal numerals -------------------------------------------------

pub open spec fn is_dec_digit(c: char) -> bool {
    48 <= c as int && c as int <= 57
}

pub open spec fn digit_val(c: char) -> nat {
    (c as int - 48) as nat
}

pub open spec fn all_digits(s: Seq<char>) -> bool {
    forall|i: int| 0 <= i < s.len() ==> is_dec_digit(s[i])
}

/// The value of a non-empty sequence of decimal digits, most significant first.
pub open spec fn dec_val(s: Seq<char>) -> nat
    decreases s.len(),
{
    if s.len() == 0 {
        0
    } else {
        dec_val(s.drop_last()) * 10 + digit_val(s.last())
    }
}

/// How `str::parse::<u64>` reads a string: an optional leading `+`, then one
/// or more decimal digits whose value fits in a `u64`.
pub open spec fn parse_u64_spec(s: Seq<char>) -> Option<u64> {
    let t = if s.len() > 0 && s[0] == '+' {
        s.skip(1)
    } else {
        s
    };
    if t.len() > 0 && all_digits(t) && dec_val(t) <= u64::MAX {
        Some(dec_val(t) as u64)
    } else {
        None
    }
}

proof fn lemma_dec_val_grows(s: Seq<char>, i: int, j: int)
    requires
        0 <= i <= j <= s.len(),
    ensures
        dec_val(s.subrange(0, j)) >= dec_val(s.subrange(0, i)),
    decreases j - i,
{
    if j > i {
        lemma_dec_val_grows(s, i, j - 1);
        assert(s.subrange(0, j).drop_last() =~= s.subrange(0, j - 1));
    }
}

/// Reads a decimal `u64`, accepting exactly the strings `str::parse::<u64>`
/// accepts.
pub fn parse_u64(s: &str) -> (r: Option<u64>)
    ensures
        r == parse_u64_spec(s@),
{
    let n = s.unicode_len();
    let start: usize = if n > 0 && s.get_char(0) == '+' {
        1
    } else {
        0
    };
    let ghost t = if s@.len() > 0 && s@[0] == '+' {
        s@.skip(1)
    } else {
        s@
    };
    proof {
        assert(t =~= s@.subrange(start as int, n as int));
    }
    if start >= n {
        return None;
    }
    let mut acc: u64 = 0;
    let mut i: usize = start;
    while i < n
        invariant
            start <= i <= n,
            n == s@.len(),
            start < n,
            t == s@.subrange(start as int, n as int),
            t == (if s@.len() > 0 && s@[0] == '+' {
                s@.skip(1)
            } else {
                s@
            }),
            forall|j: int| start <= j < i ==> is_dec_digit(s@[j]),
            acc == dec_val(s@.subrange(start as int, i as int)),
        decreases n - i,
    {
        let c = s.get_char(i);
        let cu = c as u32;
        if cu < 48 || cu > 57 {
            proof {
                assert(t[i - start] == s@[i as int]);
                assert(!is_dec_digit(t[i - start]));
                assert(!all_digits(t));
            }
            return None;
        }
        let d = (cu - 48) as u64;
        if acc > 1844674407370955161u64 || (acc == 1844674407370955161u64 && d > 5) {
            proof {
                assert(s@.subrange(start as int, i + 1).drop_last()
                    =~= s@.subrange(start as int, i as int));
                assert(s@.subrange(start as int, i + 1).last() == s@[i as int]);
                assert(digit_val(s@[i as int]) == d);
                assert(dec_val(s@.subrange(start as int, i + 1)) > u64::MAX);
                if all_digits(t) {
                    lemma_dec_val_grows(t, i + 1 - start, n - start);
                    assert(t.subrange(0, i + 1 - start) =~= s@.subrange(start as int, i + 1));
                    assert(t.subrange(0, n - start) =~= t);
                    assert(dec_val(t) > u64::MAX);
                }
            }
            return None;
        }
        proof {
            assert(s@.subrange(start as int, i + 1).drop_last()
                =~= s@.subrange(start as int, i as int));
        }
        acc = acc * 10 + d;
        i = i + 1;
    }
    proof {
        assert(s@.subrange(start as int, n as int) =~= t);
    }
    Some(acc)
}

pub open spec fn dec_digit_char(d: nat) -> char {
    if d == 0 { '0' } else if d == 1 { '1' } else if d == 2 { '2' } else if d == 3 { '3' }
    else if d == 4 { '4' } else if d == 5 { '5' } else if d == 6 { '6' } else if d == 7 { '7' }
    else if d == 8 { '8' } else { '9' }
}

/// The decimal numeral of `n`, most significant digit first.
pub open spec fn dec_str(n: nat) -> Seq<char>
    decreases n,
{
    if n < 10 {
        seq![dec_digit_char(n)]
    } else {
        dec_str(n / 10).push(dec_digit_char(n % 10))
    }
}

fn digit_str(d: u64) -> (r: &'static str)
    requires
        d < 10,
    ensures
        r@ =~= seq![dec_digit_char(d as nat)],
{
    proof {
        reveal_strlit("0");
        reveal_strlit("1");
        reveal_strlit("2");
        reveal_strlit("3");
        reveal_strlit("4");
        reveal_strlit("5");
        reveal_strlit("6");
        reveal_strlit("7");
        reveal_strlit("8");
        reveal_strlit("9");
    }
    if d == 0 { "0" } else if d == 1 { "1" } else if d == 2 { "2" } else if d == 3 { "3" }
    else if d == 4 { "4" } else if d == 5 { "5" } else if d == 6 { "6" } else if d == 7 { "7" }
    else if d == 8 { "8" } else { "9" }
}

/// Writes `n` as its decimal numeral.
pub fn u64_to_string(n: u64) -> (r: String)
    ensures
        r@ == dec_str(n as nat),
    decreases n,
{
    if n < 10 {
        let r = digit_str(n).to_owned();
        proof {
            assert(r@ =~= dec_str(n as nat));
        }
        r
    } else {
        let mut r = u64_to_string(n / 10);
        r.append(digit_str(n % 10));
        proof {
            assert(r@ =~= dec_str(n as nat));
        }
        r
    }
}

} // verus!
