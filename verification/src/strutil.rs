//! Small string utilities shared by the protocol client and the archive
//! rewriter: decimal rendering of integers, character-level access to text,
//! and literal textual substitution.

use vstd::prelude::*;

verus! {

/// Relies on the standard library's equality on string slices: true exactly
/// when the two texts hold the same characters.
pub assume_specification[ <str as PartialEq<str>>::eq ](x: &str, y: &str) -> (r: bool)
    ensures
        r == (x@ == y@),
;

/// Equality of two texts, character for character.
pub fn str_eq(a: &str, b: &str) -> (r: bool)
    ensures
        r == (a@ == b@),
{
    <str as PartialEq<str>>::eq(a, b)
}

/// Relies on String::push: appends one character at the end.
pub assume_specification[ String::push ](s: &mut String, c: char)
    ensures
        final(s)@ == old(s)@.push(c),
;

/// Relies on str::chars: yields the characters of the text in order.
#[verifier::external_body]
pub(crate) fn str_chars(s: &str) -> (r: Vec<char>)
    ensures
        r@ == s@,
{
    s.chars().collect()
}

/// Builds a `String` out of a character vector.
pub fn chars_to_string(v: &Vec<char>) -> (r: String)
    ensures
        r@ == v@,
{
    let mut r = String::new();
    let n = v.len();
    for i in 0..n
        invariant
            n == v@.len(),
            r@ == v@.take(i as int),
    {
        r.push(v[i]);
        proof {
            assert(v@.take(i as int).push(v@[i as int]) =~= v@.take(i + 1));
        }
    }
    proof {
        assert(v@.take(n as int) =~= v@);
    }
    r
}

/// The decimal digit for a value below 10.
pub open spec fn dec_digit(v: int) -> char {
    if v == 0 { '0' } else if v == 1 { '1' } else if v == 2 { '2' }
    else if v == 3 { '3' } else if v == 4 { '4' } else if v == 5 { '5' }
    else if v == 6 { '6' } else if v == 7 { '7' } else if v == 8 { '8' }
    else { '9' }
}

/// Decimal rendering of a non-negative integer, without leading zeros.
pub open spec fn dec_str(n: int) -> Seq<char>
    recommends n >= 0,
    decreases n,
{
    if n < 10 {
        seq![dec_digit(n)]
    } else {
        dec_str(n / 10).push(dec_digit(n % 10))
    }
}

/// Decimal rendering of a signed integer: a minus sign before the digits of
/// its magnitude when it is negative.
pub open spec fn int_str(n: int) -> Seq<char> {
    if n < 0 {
        seq!['-'] + dec_str(-n)
    } else {
        dec_str(n)
    }
}

/// Renders an unsigned integer in decimal.
pub fn u64_to_string(n: u64) -> (r: String)
    ensures
        r@ == dec_str(n as int),
{
    let mut digits: Vec<char> = Vec::new();
    let mut m: u64 = n;
    while m >= 10
        invariant
            dec_str(n as int) =~= dec_str(m as int) + digits@.reverse(),
        decreases m,
    {
        let d = m % 10;
        let ghost prev = digits@;
        digits.push(dec_char(d));
        m = m / 10;
        proof {
            assert(dec_str((m * 10 + d) as int) == dec_str(m as int).push(dec_digit(d as int)));
            assert(prev.push(dec_digit(d as int)).reverse() =~= seq![dec_digit(d as int)] + prev.reverse());
        }
    }
    let ghost prev = digits@;
    digits.push(dec_char(m));
    proof {
        assert(dec_str(m as int) == seq![dec_digit(m as int)]);
        assert(prev.push(dec_digit(m as int)).reverse() =~= seq![dec_digit(m as int)] + prev.reverse());
        assert(dec_str(n as int) =~= digits@.reverse());
    }
    let mut r = String::new();
    let len = digits.len();
    for i in 0..len
        invariant
            len == digits@.len(),
            dec_str(n as int) =~= digits@.reverse(),
            r@ =~= digits@.reverse().take(i as int),
    {
        r.push(digits[len - 1 - i]);
        proof {
            assert(digits@.reverse()[i as int] == digits@[len - 1 - i]);
            assert(digits@.reverse().take(i as int).push(digits@[len - 1 - i]) =~= digits@.reverse().take(
                i + 1));
        }
    }
    proof {
        assert(digits@.reverse().take(len as int) =~= digits@.reverse());
    }
    r
}

/// The decimal digit character of a value below 10.
fn dec_char(d: u64) -> (c: char)
    requires
        d < 10,
    ensures
        c == dec_digit(d as int),
{
    if d == 0 { '0' } else if d == 1 { '1' } else if d == 2 { '2' }
    else if d == 3 { '3' } else if d == 4 { '4' } else if d == 5 { '5' }
    else if d == 6 { '6' } else if d == 7 { '7' } else if d == 8 { '8' }
    else { '9' }
}

/// Renders a signed integer in decimal.
pub fn i64_to_string(n: i64) -> (r: String)
    ensures
        r@ == int_str(n as int),
{
    if n >= 0 {
        u64_to_string(n as u64)
    } else {
        let m: u64 = if n == i64::MIN {
            9223372036854775808u64
        } else {
            (-n) as u64
        };
        proof {
            assert(m as int == -(n as int));
        }
        let mut r = String::new();
        r.push('-');
        let digits = u64_to_string(m);
        r.append(digits.as_str());
        proof {
            assert(r@ =~= seq!['-'] + dec_str(-(n as int)));
        }
        r
    }
}

/// Left-to-right, non-overlapping replacement of every occurrence of `from`
/// by `to`, for a non-empty `from`; text holding no occurrence is unchanged.
pub open spec fn spec_replace(s: Seq<char>, from: Seq<char>, to: Seq<char>) -> Seq<char>
    recommends from.len() > 0,
    decreases s.len(),
{
    if from.len() == 0 || s.len() < from.len() {
        s
    } else if s.take(from.len() as int) == from {
        to + spec_replace(s.skip(from.len() as int), from, to)
    } else {
        seq![s[0]] + spec_replace(s.drop_first(), from, to)
    }
}

/// Replacement as performed on whole texts: an empty pattern leaves the text
/// unchanged.
pub open spec fn replaced(s: Seq<char>, from: Seq<char>, to: Seq<char>) -> Seq<char> {
    if from.len() == 0 {
        s
    } else {
        spec_replace(s, from, to)
    }
}

/// Whether `from` occurs in `s` starting at position `i`.
fn match_at(s: &Vec<char>, i: usize, from: &Vec<char>) -> (r: bool)
    requires
        i + from@.len() <= s@.len(),
    ensures
        r == (s@.subrange(i as int, i + from@.len()) == from@),
{
    let flen = from.len();
    let slen = s.len();
    let mut j: usize = 0;
    while j < flen
        invariant
            j <= flen,
            flen == from@.len(),
            slen == s@.len(),
            i + flen <= slen,
            s@.subrange(i as int, i + j) =~= from@.take(j as int),
        decreases flen - j,
    {
        if s[i + j] != from[j] {
            proof {
                assert(s@.subrange(i as int, i + flen)[j as int] == s@[i + j]);
            }
            return false;
        }
        proof {
            assert(s@.subrange(i as int, i + j + 1) =~= s@.subrange(i as int, i + j).push(s@[i + j]));
            assert(from@.take(j + 1) =~= from@.take(j as int).push(from@[j as int]));
        }
        j += 1;
    }
    proof {
        assert(s@.subrange(i as int, i + flen) =~= from@.take(flen as int));
        assert(from@.take(flen as int) =~= from@);
    }
    true
}

/// Replaces every occurrence of `from` in `s` by `to`, left to right and
/// without overlap, on character vectors.
fn replace_chars(s: &Vec<char>, from: &Vec<char>, to: &Vec<char>) -> (r: Vec<char>)
    requires
        from@.len() > 0,
    ensures
        r@ == spec_replace(s@, from@, to@),
{
    let mut r: Vec<char> = Vec::new();
    let mut i: usize = 0;
    let slen = s.len();
    let flen = from.len();
    proof {
        assert(s@.skip(0) =~= s@);
    }
    while i < slen
        invariant
            i <= slen,
            slen == s@.len(),
            flen == from@.len(),
            flen > 0,
            spec_replace(s@, from@, to@) =~= r@ + spec_replace(s@.skip(i as int), from@, to@),
        decreases slen - i,
    {
        let here = if flen <= slen - i {
            match_at(s, i, from)
        } else {
            false
        };
        proof {
            if i + flen <= slen {
                assert(s@.skip(i as int).take(flen as int) =~= s@.subrange(i as int, i + flen));
            }
        }
        if here {
            let tlen = to.len();
            let ghost rpre = r@;
            let mut t: usize = 0;
            while t < tlen
                invariant
                    t <= tlen,
                    tlen == to@.len(),
                    r@ =~= rpre + to@.take(t as int),
                decreases tlen - t,
            {
                r.push(to[t]);
                proof {
                    assert(to@.take(t as int).push(to@[t as int]) =~= to@.take(t + 1));
                }
                t += 1;
            }
            proof {
                assert(to@.take(tlen as int) =~= to@);
                assert(spec_replace(s@.skip(i as int), from@, to@) == to@ + spec_replace(
                    s@.skip(i as int).skip(flen as int), from@, to@));
                assert(s@.skip(i as int).skip(flen as int) =~= s@.skip(i + flen));
            }
            i += flen;
        } else {
            proof {
                let rest = s@.skip(i as int);
                if i + flen <= slen {
                    assert(rest.take(flen as int) != from@);
                    assert(spec_replace(rest, from@, to@) == seq![rest[0]] + spec_replace(
                        rest.drop_first(), from@, to@));
                } else {
                    assert(rest.len() < flen);
                    assert(spec_replace(rest, from@, to@) == rest);
                    assert(rest =~= seq![rest[0]] + rest.drop_first());
                    assert(spec_replace(rest.drop_first(), from@, to@) == rest.drop_first());
                }
                assert(rest[0] == s@[i as int]);
                assert(rest.drop_first() =~= s@.skip(i + 1));
            }
            r.push(s[i]);
            i += 1;
        }
    }
    proof {
        assert(s@.skip(slen as int) =~= Seq::<char>::empty());
        assert(spec_replace(s@, from@, to@) =~= r@);
    }
    r
}

/// Replaces every occurrence of `from` in `text` by `to`; with an empty
/// `from` the text is returned unchanged.
pub fn replace_all(text: &str, from: &str, to: &str) -> (r: String)
    ensures
        r@ == replaced(text@, from@, to@),
{
    let fv = str_chars(from);
    if fv.len() == 0 {
        return text.to_owned();
    }
    let sv = str_chars(text);
    let tv = str_chars(to);
    let out = replace_chars(&sv, &fv, &tv);
    chars_to_string(&out)
}

} // verus!
