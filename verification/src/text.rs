//! Canonicalization of configuration tokens: surrounding whitespace is
//! dropped and ASCII letters are lowered, so that tokens match
//! case-insensitively.

use vstd::prelude::*;
use vstd::utf8::char_u32_cast;

verus! {

/// Whether `c` is whitespace for the purpose of token trimming.
pub open spec fn is_ws_char(c: char) -> bool {
    c == ' ' || c == '\t' || c == '\n' || c == '\r'
}

/// `c` with an ASCII capital letter lowered, any other character unchanged.
pub open spec fn spec_lower_char(c: char) -> char {
    if 65 <= c as u32 && c as u32 <= 90 {
        (((c as u32) + 32) as char)
    } else {
        c
    }
}

/// `s` with every ASCII capital letter lowered.
pub open spec fn spec_to_lower(s: Seq<char>) -> Seq<char> {
    Seq::new(s.len(), |i: int| spec_lower_char(s[i]))
}

/// `s` without its leading whitespace.
pub open spec fn spec_trim_start(s: Seq<char>) -> Seq<char>
    decreases s.len(),
{
    if s.len() > 0 && is_ws_char(s[0]) {
        spec_trim_start(s.drop_first())
    } else {
        s
    }
}

/// `s` without its trailing whitespace.
pub open spec fn spec_trim_end(s: Seq<char>) -> Seq<char>
    decreases s.len(),
{
    if s.len() > 0 && is_ws_char(s[s.len() - 1]) {
        spec_trim_end(s.drop_last())
    } else {
        s
    }
}

/// `s` trimmed of surrounding whitespace and lowered: the canonical form
/// under which configuration tokens are compared.
pub open spec fn canon_token(s: Seq<char>) -> Seq<char> {
    spec_to_lower(spec_trim_end(spec_trim_start(s)))
}

fn is_ws(c: char) -> (r: bool)
    ensures
        r == is_ws_char(c),
{
    c == ' ' || c == '\t' || c == '\n' || c == '\r'
}

proof fn lemma_trim_start_skip(s: Seq<char>, lo: int)
    requires
        0 <= lo <= s.len(),
        forall|j: int| 0 <= j < lo ==> is_ws_char(s[j]),
    ensures
        spec_trim_start(s) == spec_trim_start(s.skip(lo)),
    decreases lo,
{
    if lo > 0 {
        assert(is_ws_char(s[0]));
        assert(spec_trim_start(s) == spec_trim_start(s.drop_first()));
        assert(s.drop_first() =~= s.skip(1));
        lemma_trim_start_skip(s.skip(1), lo - 1);
        assert(s.skip(1).skip(lo - 1) =~= s.skip(lo));
    } else {
        assert(s.skip(0) =~= s);
    }
}

proof fn lemma_trim_end_take(s: Seq<char>, hi: int)
    requires
        0 <= hi <= s.len(),
        forall|j: int| hi <= j < s.len() ==> is_ws_char(s[j]),
    ensures
        spec_trim_end(s) == spec_trim_end(s.take(hi)),
    decreases s.len() - hi,
{
    if hi < s.len() {
        assert(is_ws_char(s[s.len() - 1]));
        assert(spec_trim_end(s) == spec_trim_end(s.drop_last()));
        assert(s.drop_last() =~= s.take(s.len() - 1));
        lemma_trim_end_take(s.take(s.len() - 1), hi);
        assert(s.take(s.len() - 1).take(hi) =~= s.take(hi));
    } else {
        assert(s.take(hi) =~= s);
    }
}

/// The bounds of the trimmed region of `s`: the canonical token of `s@` is
/// the lowered `s@.subrange(lo, hi)`.
pub fn token_bounds(s: &str) -> (r: (usize, usize))
    ensures
        r.0 <= r.1 <= s@.len(),
        spec_trim_end(spec_trim_start(s@)) == s@.subrange(r.0 as int, r.1 as int),
{
    let n = s.unicode_len();
    let mut lo: usize = 0;
    while lo < n && is_ws(s.get_char(lo))
        invariant
            0 <= lo <= n,
            n == s@.len(),
            forall|j: int| 0 <= j < lo ==> is_ws_char(s@[j]),
        decreases n - lo,
    {
        lo = lo + 1;
    }
    proof {
        lemma_trim_start_skip(s@, lo as int);
    }
    if lo == n {
        proof {
            assert(s@.skip(lo as int) =~= Seq::<char>::empty());
            assert(spec_trim_start(s@) =~= s@.subrange(lo as int, lo as int));
            assert(spec_trim_end(s@.subrange(lo as int, lo as int)) =~= s@.subrange(
                lo as int,
                lo as int,
            ));
        }
        return (lo, lo);
    }
    let mut hi: usize = n;
    while hi > lo && is_ws(s.get_char(hi - 1))
        invariant
            lo <= hi <= n,
            n == s@.len(),
            forall|j: int| hi <= j < n ==> is_ws_char(s@[j]),
        decreases hi,
    {
        hi = hi - 1;
    }
    proof {
        let t = s@.skip(lo as int);
        assert(spec_trim_start(s@) == t);
        lemma_trim_end_take(t, hi - lo);
        assert(t.take(hi - lo) =~= s@.subrange(lo as int, hi as int));
        if hi > lo {
            assert(!is_ws_char(s@[hi - 1]));
            let u = s@.subrange(lo as int, hi as int);
            assert(u.len() > 0 && !is_ws_char(u[u.len() - 1]));
            assert(spec_trim_end(u) == u);
        } else {
            assert(s@.subrange(lo as int, hi as int) =~= Seq::<char>::empty());
            assert(spec_trim_end(s@.subrange(lo as int, hi as int)) =~= s@.subrange(
                lo as int,
                hi as int,
            ));
        }
    }
    (lo, hi)
}

/// Whether a character is an ASCII capital letter.
pub open spec fn is_upper_char(c: char) -> bool {
    65 <= c as u32 && c as u32 <= 90
}

/// Whether the lowered `s@.subrange(lo, hi)` equals `token@`, for a token
/// that contains no capital letters.
pub fn match_lower(s: &str, lo: usize, hi: usize, token: &str) -> (r: bool)
    requires
        lo <= hi <= s@.len(),
        forall|i: int| 0 <= i < token@.len() ==> !is_upper_char(token@[i]),
    ensures
        r == (spec_to_lower(s@.subrange(lo as int, hi as int)) == token@),
{
    let tn = token.unicode_len();
    if hi - lo != tn {
        proof {
            assert(spec_to_lower(s@.subrange(lo as int, hi as int)).len() == hi - lo);
        }
        return false;
    }
    let mut i: usize = 0;
    while i < tn
        invariant
            0 <= i <= tn,
            tn == token@.len(),
            lo <= hi <= s@.len(),
            hi - lo == tn,
            forall|k: int| 0 <= k < token@.len() ==> !is_upper_char(token@[k]),
            forall|k: int| 0 <= k < i ==> spec_lower_char(s@[lo + k]) == token@[k],
        decreases tn - i,
    {
        let c = s.get_char(lo + i);
        let t = token.get_char(i);
        let cu = c as u32;
        let tu = t as u32;
        let matches_here = c == t || (65 <= cu && cu <= 90 && cu + 32 == tu);
        proof {
            char_u32_cast(t, tu);
            char_u32_cast(c, cu);
            if matches_here {
                if c != t {
                    assert(spec_lower_char(c) == ((cu + 32) as char));
                    assert((tu as char) == t);
                }
            } else {
                if is_upper_char(c) {
                    assert(spec_lower_char(c) == ((cu + 32) as char));
                    if spec_lower_char(c) == t {
                        assert((((cu + 32) as char) as u32) == tu) by {
                            char_u32_cast(t, tu);
                        }
                    }
                } else {
                    assert(spec_lower_char(c) == c);
                }
            }
        }
        if !matches_here {
            assert(spec_lower_char(s@[lo + i]) != token@[i as int]);
            proof {
                let l = spec_to_lower(s@.subrange(lo as int, hi as int));
                assert(l[i as int] == spec_lower_char(s@[lo + i]));
            }
            return false;
        }
        i = i + 1;
    }
    proof {
        let l = spec_to_lower(s@.subrange(lo as int, hi as int));
        assert(l =~= token@);
    }
    true
}

/// Whether the canonical token of `s` equals `token`, for a token that
/// contains no capital letters.
pub fn parse_token(s: &str, token: &str) -> (r: bool)
    requires
        forall|i: int| 0 <= i < token@.len() ==> !is_upper_char(token@[i]),
    ensures
        r == (canon_token(s@) == token@),
{
    let (lo, hi) = token_bounds(s);
    match_lower(s, lo, hi, token)
}

} // verus!
