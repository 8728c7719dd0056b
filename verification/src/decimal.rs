//! Decimal rendering of ticket indices: every ticket carries its index as a
//! plain decimal string.

use vstd::prelude::*;

verus! {

/// The ASCII digit character for `d`.
pub open spec fn digit_char(d: u8) -> char
    recommends
        d < 10,
{
    (((48 + d) as u8) as char)
}

/// The decimal digit string of `n`, most significant digit first.
pub open spec fn dec_digits(n: nat) -> Seq<char>
    decreases n,
{
    if n < 10 {
        seq![digit_char(n as u8)]
    } else {
        dec_digits(n / 10).push(digit_char((n % 10) as u8))
    }
}

/// Relies on `String::from_utf8`: ASCII bytes are valid UTF-8, and the
/// string's characters are then the bytes, one for one.
#[verifier::external_body]
fn string_from_ascii(v: Vec<u8>) -> (r: String)
    requires
        forall|i: int| 0 <= i < v@.len() ==> v@[i] < 128,
    ensures
        r@ == v@.map_values(|b: u8| b as char),
{
    String::from_utf8(v).unwrap_or_default()
}

/// The digit characters of the reversed byte sequence.
spec fn rev_chars(s: Seq<u8>) -> Seq<char> {
    s.reverse().map_values(|b: u8| b as char)
}

/// Renders `n` in decimal.
pub fn u64_to_string(n: u64) -> (r: String)
    ensures
        r@ == dec_digits(n as nat),
{
    let mut x: u64 = n;
    let mut rev: Vec<u8> = Vec::new();
    proof {
        assert(rev@.reverse() =~= Seq::<u8>::empty());
        assert(rev_chars(rev@) =~= Seq::<char>::empty());
        assert(dec_digits(n as nat) + rev_chars(rev@) =~= dec_digits(n as nat));
    }
    while x >= 10
        invariant
            dec_digits(n as nat) == dec_digits(x as nat) + rev_chars(rev@),
            forall|i: int| 0 <= i < rev@.len() ==> 48 <= #[trigger] rev@[i] < 58,
        decreases x,
    {
        let d: u8 = (x % 10) as u8;
        let ghost old_rev = rev@;
        let ghost old_x = x as nat;
        rev.push(48 + d);
        x = x / 10;
        proof {
            assert(rev@.reverse() =~= seq![(48 + d) as u8] + old_rev.reverse());
            assert(rev_chars(rev@) =~= seq![digit_char(d)] + rev_chars(old_rev));
            assert(dec_digits(old_x) == dec_digits(old_x / 10).push(digit_char(
                (old_x % 10) as u8,
            )));
            assert(dec_digits(old_x / 10).push(digit_char(d)) =~= dec_digits(old_x / 10) + seq![
                digit_char(d),
            ]);
            assert(dec_digits(x as nat) + rev_chars(rev@) =~= dec_digits(n as nat));
        }
    }
    let d: u8 = (x % 10) as u8;
    let ghost old_rev = rev@;
    rev.push(48 + d);
    proof {
        assert(dec_digits(x as nat) =~= seq![digit_char(d)]);
        assert(rev@.reverse() =~= seq![(48 + d) as u8] + old_rev.reverse());
        assert(rev_chars(rev@) =~= seq![digit_char(d)] + rev_chars(old_rev));
        assert(rev_chars(rev@) =~= dec_digits(n as nat));
    }
    let mut out: Vec<u8> = Vec::new();
    let mut i: usize = rev.len();
    while i > 0
        invariant
            0 <= i <= rev@.len(),
            out@.len() == rev@.len() - i,
            forall|k: int| 0 <= k < out@.len() ==> #[trigger] out@[k] == rev@[rev@.len() - 1 - k],
            forall|k: int| 0 <= k < rev@.len() ==> 48 <= #[trigger] rev@[k] < 58,
        decreases i,
    {
        i = i - 1;
        out.push(rev[i]);
    }
    proof {
        assert(out@ =~= rev@.reverse());
        assert(out@.map_values(|b: u8| b as char) == rev_chars(rev@));
    }
    string_from_ascii(out)
}

} // verus!
