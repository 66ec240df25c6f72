//! Text handled as character vectors.
//!
//! All generated source is built as `Vec<char>`, whose view is a `Seq<char>`,
//! so every append and edit is stated exactly. Conversion to and from `String`
//! happens only at the crate boundary.

use vstd::prelude::*;

verus! {

/// Append the characters of `s` to `dst`.
pub fn push_str(dst: &mut Vec<char>, s: &str)
    ensures
        final(dst)@ == old(dst)@ + s@,
{
    let v = str_chars(s);
    push_chars(dst, &v);
}

/// Append the characters of `src` to `dst`.
pub fn push_chars(dst: &mut Vec<char>, src: &Vec<char>)
    ensures
        final(dst)@ == old(dst)@ + src@,
{
    dst.extend_from_slice(src.as_slice());
}

/// The characters of a string, as a vector.
///
/// Relies on std's `str::chars` iterator collected into a `Vec`: it yields
/// exactly the characters of the string, in order.
#[verifier::external_body]
pub fn str_chars(s: &str) -> (r: Vec<char>)
    ensures
        r@ == s@,
{
    s.chars().collect()
}

/// The characters of `v`, as a `String`.
///
/// Relies on std's `FromIterator<char> for String`: collecting characters
/// concatenates them in order.
#[verifier::external_body]
pub fn chars_string(v: &Vec<char>) -> (r: String)
    ensures
        r@ == v@,
{
    v.iter().collect()
}

/// Whether two character vectors hold the same text.
pub fn chars_eq(a: &Vec<char>, b: &Vec<char>) -> (r: bool)
    ensures
        r == (a@ == b@),
{
    if a.len() != b.len() {
        proof {
            assert(a@.len() != b@.len());
        }
        return false;
    }
    let mut i: usize = 0;
    while i < a.len()
        invariant
            i <= a.len(),
            a@.len() == b@.len(),
            forall|j: int| 0 <= j < i ==> a@[j] == b@[j],
        decreases a.len() - i,
    {
        if a[i] != b[i] {
            return false;
        }
        i += 1;
    }
    proof {
        assert(a@ =~= b@);
    }
    true
}

/// Whether the text of `v` equals the string `s`.
pub fn chars_eq_str(v: &Vec<char>, s: &str) -> (r: bool)
    ensures
        r == (v@ == s@),
{
    let w = str_chars(s);
    chars_eq(v, &w)
}

/// The decimal digit for `d`.
pub open spec fn digit_char(d: nat) -> char {
    if d == 0 {
        '0'
    } else if d == 1 {
        '1'
    } else if d == 2 {
        '2'
    } else if d == 3 {
        '3'
    } else if d == 4 {
        '4'
    } else if d == 5 {
        '5'
    } else if d == 6 {
        '6'
    } else if d == 7 {
        '7'
    } else if d == 8 {
        '8'
    } else {
        '9'
    }
}

/// The decimal rendering of `n`, without leading zeros (`0` renders as "0").
pub open spec fn dec_digits(n: nat) -> Seq<char>
    decreases n,
{
    if n < 10 {
        seq![digit_char(n)]
    } else {
        dec_digits(n / 10).push(digit_char(n % 10))
    }
}

fn digit_char_exec(d: usize) -> (r: char)
    requires
        d < 10,
    ensures
        r == digit_char(d as nat),
{
    if d == 0 {
        '0'
    } else if d == 1 {
        '1'
    } else if d == 2 {
        '2'
    } else if d == 3 {
        '3'
    } else if d == 4 {
        '4'
    } else if d == 5 {
        '5'
    } else if d == 6 {
        '6'
    } else if d == 7 {
        '7'
    } else if d == 8 {
        '8'
    } else {
        '9'
    }
}

/// A decimal rendering is never empty.
pub proof fn lemma_dec_digits_len(n: nat)
    ensures
        dec_digits(n).len() >= 1,
    decreases n,
{
    if n >= 10 {
        lemma_dec_digits_len(n / 10);
    }
}

/// Distinct numbers render to distinct digit strings.
pub proof fn lemma_dec_digits_injective(a: nat, b: nat)
    requires
        dec_digits(a) == dec_digits(b),
    ensures
        a == b,
    decreases a,
{
    if a < 10 && b < 10 {
        assert(dec_digits(a)[0] == digit_char(a));
        assert(dec_digits(b)[0] == digit_char(b));
        assert(a == b);
    } else if a < 10 {
        lemma_dec_digits_len(b / 10);
        assert(dec_digits(b).len() >= 2);
        assert(dec_digits(a).len() == 1);
    } else if b < 10 {
        lemma_dec_digits_len(a / 10);
        assert(dec_digits(a).len() >= 2);
        assert(dec_digits(b).len() == 1);
    } else {
        let pa = dec_digits(a / 10);
        let pb = dec_digits(b / 10);
        assert(pa.push(digit_char(a % 10)) == pb.push(digit_char(b % 10)));
        assert(pa.push(digit_char(a % 10)).last() == digit_char(a % 10));
        assert(digit_char(a % 10) == digit_char(b % 10));
        assert(a % 10 == b % 10);
        assert(pa =~= pb) by {
            assert(pa.push(digit_char(a % 10)).drop_last() =~= pa);
            assert(pb.push(digit_char(b % 10)).drop_last() =~= pb);
        }
        lemma_dec_digits_injective(a / 10, b / 10);
    }
}

/// Concatenation with a fixed prefix is injective.
pub proof fn lemma_concat_cancel_left(a: Seq<char>, x: Seq<char>, y: Seq<char>)
    requires
        a + x == a + y,
    ensures
        x == y,
{
    assert((a + x).len() == a.len() + x.len());
    assert((a + y).len() == a.len() + y.len());
    assert(x.len() == y.len());
    assert(x =~= y) by {
        assert(forall|i: int|
            0 <= i < x.len() ==> x[i] == (a + x)[a.len() + i] && y[i] == (a + y)[a.len() + i]);
    }
}

/// Concatenation with a fixed suffix is injective.
pub proof fn lemma_concat_cancel_right(x: Seq<char>, y: Seq<char>, a: Seq<char>)
    requires
        x + a == y + a,
    ensures
        x == y,
{
    assert((x + a).len() == x.len() + a.len());
    assert((y + a).len() == y.len() + a.len());
    assert(x.len() == y.len());
    assert(x =~= y) by {
        assert(forall|i: int|
            0 <= i < x.len() ==> x[i] == (x + a)[i] && y[i] == (y + a)[i]);
    }
}

/// Append the decimal rendering of `n` to `dst`.
pub fn push_usize(dst: &mut Vec<char>, n: usize)
    ensures
        final(dst)@ == old(dst)@ + dec_digits(n as nat),
{
    let mut tmp: Vec<char> = Vec::new();
    let mut m: usize = n;
    if m < 10 {
        tmp.push(digit_char_exec(m));
        proof {
            assert(tmp@ =~= dec_digits(n as nat));
        }
    } else {
        while m >= 10
            invariant
                dec_digits(n as nat) == dec_digits(m as nat) + tmp@,
            decreases m,
        {
            let d = m % 10;
            let c = digit_char_exec(d);
            tmp.insert(0, c);
            proof {
                let t0 = tmp@.remove(0);
                assert(tmp@ =~= seq![c] + t0);
                assert(dec_digits(m as nat) == dec_digits(m as nat / 10).push(digit_char(
                    m as nat % 10,
                )));
                assert(dec_digits(m as nat / 10) + (seq![c] + t0) =~= (dec_digits(
                    m as nat / 10,
                ).push(c)) + t0);
            }
            m = m / 10;
        }
        let c = digit_char_exec(m);
        tmp.insert(0, c);
        proof {
            let t0 = tmp@.remove(0);
            assert(tmp@ =~= seq![c] + t0);
            assert(dec_digits(m as nat) =~= seq![c]);
            assert(dec_digits(n as nat) =~= tmp@);
        }
    }
    push_chars(dst, &tmp);
}

} // verus!
