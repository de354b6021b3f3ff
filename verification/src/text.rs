//! Verified text building blocks: character access, equality, canonical
//! decimal rendering, and ASCII lowering. Everything downstream — URL
//! joining, path substitution, header validation — is specified over
//! `Seq<char>` views, and these are the executable counterparts.

use vstd::prelude::*;
use vstd::string::*;

verus! {

/// Relies on String::push: appends exactly the one character.
#[verifier::external_body]
pub(crate) fn push_char(s: &mut String, c: char)
    ensures
        final(s)@ == old(s)@.push(c),
{
    s.push(c);
}

/// The characters of `s`, as a vector.
pub fn str_to_chars(s: &str) -> (v: Vec<char>)
    ensures
        v@ == s@,
{
    let n = s.unicode_len();
    let mut v: Vec<char> = Vec::new();
    let mut i: usize = 0;
    while i < n
        invariant
            i <= n,
            n == s@.len(),
            v@ == s@.take(i as int),
        decreases n - i,
    {
        let c = s.get_char(i);
        v.push(c);
        i = i + 1;
        proof {
            assert(v@ =~= s@.take(i as int));
        }
    }
    proof {
        assert(v@ =~= s@);
    }
    v
}

/// The string holding exactly the characters of `v`.
pub fn chars_to_string(v: &Vec<char>) -> (s: String)
    ensures
        s@ == v@,
{
    let mut s = String::new();
    let mut i: usize = 0;
    while i < v.len()
        invariant
            i <= v.len(),
            s@ == v@.take(i as int),
        decreases v.len() - i,
    {
        push_char(&mut s, v[i]);
        i = i + 1;
        proof {
            assert(s@ =~= v@.take(i as int));
        }
    }
    proof {
        assert(s@ =~= v@);
    }
    s
}

/// The digit character for `d`, which must lie between 0 and 9.
pub open spec fn spec_digit_char(d: int) -> char {
    ((48 + d) as u8) as char
}

/// The canonical decimal rendering of `n`: no sign, no leading zeros.
pub open spec fn spec_udec(n: nat) -> Seq<char>
    decreases n,
{
    if n < 10 {
        seq![spec_digit_char(n as int)]
    } else {
        spec_udec(n / 10).push(spec_digit_char((n % 10) as int))
    }
}

/// The canonical decimal rendering of `i`, with a leading minus sign when
/// `i` is negative.
pub open spec fn spec_idec(i: int) -> Seq<char> {
    if i >= 0 {
        spec_udec(i as nat)
    } else {
        seq!['-'] + spec_udec((-i) as nat)
    }
}

/// Renders `n` in decimal.
pub fn u64_to_string(n: u64) -> (s: String)
    ensures
        s@ == spec_udec(n as nat),
{
    let mut digits: Vec<char> = Vec::new();
    let mut m: u64 = n;
    proof {
        assert(spec_udec(n as nat) =~= spec_udec(m as nat) + digits@.reverse());
    }
    while m >= 10
        invariant
            spec_udec(n as nat) == spec_udec(m as nat) + digits@.reverse(),
        decreases m,
    {
        let ghost m0 = m as nat;
        let ghost r0 = digits@.reverse();
        let d: u8 = (m % 10) as u8;
        let c: char = (d + 48) as char;
        digits.push(c);
        m = m / 10;
        proof {
            assert(c == spec_digit_char((m0 % 10) as int));
            assert(spec_udec(m0) == spec_udec(m0 / 10).push(c));
            assert(digits@.reverse() =~= seq![c] + r0);
            assert(spec_udec(m0 / 10).push(c) =~= spec_udec(m0 / 10) + seq![c]);
            assert(spec_udec(m0 / 10) + seq![c] + r0 =~= spec_udec(m0 / 10) + (seq![c] + r0));
        }
    }
    let ghost r0 = digits@.reverse();
    let d: u8 = (m as u8) + 48;
    let c: char = d as char;
    digits.push(c);
    proof {
        assert(c == spec_digit_char(m as int));
        assert(spec_udec(m as nat) == seq![c]);
        assert(digits@.reverse() =~= seq![c] + r0);
        assert(spec_udec(n as nat) =~= digits@.reverse());
    }
    let mut s = String::new();
    let mut i: usize = digits.len();
    while i > 0
        invariant
            i <= digits.len(),
            s@.len() == digits@.len() - i,
            forall|j: int| 0 <= j < s@.len() ==> s@[j] == digits@[digits@.len() - 1 - j],
        decreases i,
    {
        i = i - 1;
        push_char(&mut s, digits[i]);
    }
    proof {
        assert(s@ =~= digits@.reverse());
    }
    s
}

/// Renders `i` in decimal, with a minus sign when negative.
pub fn i64_to_string(i: i64) -> (s: String)
    ensures
        s@ == spec_idec(i as int),
{
    if i >= 0 {
        u64_to_string(i as u64)
    } else {
        let mag: u64 = ((-(i + 1)) as u64) + 1;
        proof {
            assert(mag as nat == (-(i as int)) as nat);
        }
        let rest = u64_to_string(mag);
        let mut s = String::from_str("-");
        s.append(rest.as_str());
        proof {
            reveal_strlit("-");
            assert(s@ =~= seq!['-'] + spec_udec(mag as nat));
        }
        s
    }
}

/// The canonical text of a boolean.
pub open spec fn spec_bool_text(b: bool) -> Seq<char> {
    if b {
        "true"@
    } else {
        "false"@
    }
}

/// Renders a boolean as its canonical text.
pub fn bool_to_string(b: bool) -> (s: String)
    ensures
        s@ == spec_bool_text(b),
{
    if b {
        String::from_str("true")
    } else {
        String::from_str("false")
    }
}

/// `c` with an ASCII capital letter lowered; anything else unchanged.
pub open spec fn spec_lower_char(c: char) -> char {
    if 65 <= c as int && c as int <= 90 {
        ((c as int + 32) as u8) as char
    } else {
        c
    }
}

/// `s` with every ASCII capital letter lowered.
pub open spec fn spec_lower(s: Seq<char>) -> Seq<char> {
    Seq::new(s.len(), |i: int| spec_lower_char(s[i]))
}

/// Lowers every ASCII capital letter of `s`.
pub fn ascii_lower(s: &str) -> (r: String)
    ensures
        r@ == spec_lower(s@),
{
    let n = s.unicode_len();
    let mut r = String::new();
    let mut i: usize = 0;
    while i < n
        invariant
            i <= n,
            n == s@.len(),
            r@ == spec_lower(s@).take(i as int),
        decreases n - i,
    {
        let c = s.get_char(i);
        let u = c as u32;
        if 65 <= u && u <= 90 {
            let lc: char = ((u + 32) as u8) as char;
            push_char(&mut r, lc);
        } else {
            push_char(&mut r, c);
        }
        i = i + 1;
        proof {
            assert(r@ =~= spec_lower(s@).take(i as int));
        }
    }
    proof {
        assert(r@ =~= spec_lower(s@));
    }
    r
}

/// Whether two strings hold the same characters.
pub fn str_eq(a: &str, b: &str) -> (r: bool)
    ensures
        r == (a@ == b@),
{
    let na = a.unicode_len();
    let nb = b.unicode_len();
    if na != nb {
        return false;
    }
    let mut i: usize = 0;
    while i < na
        invariant
            i <= na,
            na == a@.len(),
            na == b@.len(),
            forall|j: int| 0 <= j < i ==> a@[j] == b@[j],
        decreases na - i,
    {
        if a.get_char(i) != b.get_char(i) {
            return false;
        }
        i = i + 1;
    }
    proof {
        assert(a@ =~= b@);
    }
    true
}

/// `s` with every occurrence of `pat` replaced by `rep`: the leftmost
/// occurrence is replaced first, matches do not overlap, and the scan
/// resumes right after each replacement. An empty pattern matches nothing
/// and leaves `s` unchanged.
pub open spec fn spec_replace(s: Seq<char>, pat: Seq<char>, rep: Seq<char>) -> Seq<char>
    decreases s.len(),
{
    if pat.len() == 0 || s.len() < pat.len() {
        s
    } else if s.take(pat.len() as int) == pat {
        rep + spec_replace(s.skip(pat.len() as int), pat, rep)
    } else {
        seq![s[0]] + spec_replace(s.skip(1), pat, rep)
    }
}

/// Whether `pat` occurs in `s` starting at position `i`.
fn match_at(s: &Vec<char>, i: usize, pat: &Vec<char>) -> (r: bool)
    requires
        i + pat@.len() <= s@.len(),
    ensures
        r == (s@.subrange(i as int, i as int + pat@.len() as int) == pat@),
{
    let slen = s.len();
    let mut k: usize = 0;
    while k < pat.len()
        invariant
            k <= pat@.len(),
            i + pat@.len() <= s@.len(),
            slen == s@.len(),
            forall|j: int| 0 <= j < k ==> s@[i + j] == pat@[j],
        decreases pat@.len() - k,
    {
        if s[i + k] != pat[k] {
            proof {
                assert(s@.subrange(i as int, i as int + pat@.len() as int)[k as int]
                    != pat@[k as int]);
            }
            return false;
        }
        k = k + 1;
    }
    proof {
        assert(s@.subrange(i as int, i as int + pat@.len() as int) =~= pat@);
    }
    true
}

/// Replaces every occurrence of `pat` in `s` by `rep`, leftmost first,
/// without rescanning replaced text.
#[verifier::rlimit(30)]
pub fn replace_chars(s: &Vec<char>, pat: &Vec<char>, rep: &Vec<char>) -> (out: Vec<char>)
    ensures
        out@ == spec_replace(s@, pat@, rep@),
{
    let mut out: Vec<char> = Vec::new();
    if pat.len() == 0 {
        let mut i: usize = 0;
        while i < s.len()
            invariant
                i <= s@.len(),
                out@ == s@.take(i as int),
            decreases s@.len() - i,
        {
            out.push(s[i]);
            i = i + 1;
            proof {
                assert(out@ =~= s@.take(i as int));
            }
        }
        proof {
            assert(out@ =~= s@);
        }
        return out;
    }
    let mut i: usize = 0;
    proof {
        assert(s@.skip(0) =~= s@);
        assert(out@ + spec_replace(s@, pat@, rep@) =~= spec_replace(s@, pat@, rep@));
    }
    while i < s.len()
        invariant
            i <= s@.len(),
            pat@.len() >= 1,
            spec_replace(s@, pat@, rep@) == out@ + spec_replace(
                s@.skip(i as int),
                pat@,
                rep@,
            ),
        decreases s@.len() - i,
    {
        let ghost i0 = i as int;
        let ghost out0 = out@;
        if s.len() - i >= pat.len() && match_at(s, i, pat) {
            proof {
                assert(s@.skip(i0).take(pat@.len() as int) =~= s@.subrange(
                    i0,
                    i0 + pat@.len(),
                ));
                assert(s@.skip(i0).skip(pat@.len() as int) =~= s@.skip(i0 + pat@.len()));
                assert(spec_replace(s@.skip(i0), pat@, rep@) == rep@ + spec_replace(
                    s@.skip(i0 + pat@.len()),
                    pat@,
                    rep@,
                ));
            }
            let mut k: usize = 0;
            while k < rep.len()
                invariant
                    k <= rep@.len(),
                    out@ == out0 + rep@.take(k as int),
                decreases rep@.len() - k,
            {
                out.push(rep[k]);
                k = k + 1;
                proof {
                    assert(out@ =~= out0 + rep@.take(k as int));
                }
            }
            i = i + pat.len();
            proof {
                assert(out@ =~= out0 + rep@);
                assert(out0 + rep@ + spec_replace(s@.skip(i as int), pat@, rep@) =~= out0
                    + (rep@ + spec_replace(s@.skip(i as int), pat@, rep@)));
            }
        } else {
            proof {
                assert(s@.skip(i0) =~= seq![s@[i0]] + s@.skip(i0 + 1));
                if s@.len() - i0 >= pat@.len() {
                    assert(s@.skip(i0).take(pat@.len() as int) =~= s@.subrange(
                        i0,
                        i0 + pat@.len(),
                    ));
                    assert(spec_replace(s@.skip(i0), pat@, rep@) == seq![s@[i0]]
                        + spec_replace(s@.skip(i0).skip(1), pat@, rep@));
                } else {
                    assert(spec_replace(s@.skip(i0), pat@, rep@) == s@.skip(i0));
                    assert(s@.skip(i0 + 1).len() < pat@.len());
                    assert(spec_replace(s@.skip(i0 + 1), pat@, rep@) == s@.skip(i0 + 1));
                }
                assert(s@.skip(i0).skip(1) =~= s@.skip(i0 + 1));
            }
            out.push(s[i]);
            i = i + 1;
            proof {
                assert(out@ =~= out0 + seq![s@[i0]]);
                assert(out0 + seq![s@[i0]] + spec_replace(s@.skip(i as int), pat@, rep@)
                    =~= out0 + (seq![s@[i0]] + spec_replace(s@.skip(i as int), pat@, rep@)));
            }
        }
    }
    proof {
        assert(s@.skip(i as int) =~= Seq::<char>::empty());
        assert(spec_replace(Seq::<char>::empty(), pat@, rep@) == Seq::<char>::empty());
        assert(out@ + Seq::<char>::empty() =~= out@);
    }
    out
}

/// Replaces every occurrence of `pat` in `s` by `rep`, leftmost first.
pub fn replace_str(s: &str, pat: &str, rep: &str) -> (r: String)
    ensures
        r@ == spec_replace(s@, pat@, rep@),
{
    let sv = str_to_chars(s);
    let pv = str_to_chars(pat);
    let rv = str_to_chars(rep);
    let ov = replace_chars(&sv, &pv, &rv);
    chars_to_string(&ov)
}

} // verus!
