//! Verified text building: decimal rendering of integers and single-character
//! appends, used by the value printer, the disassembler and the assembly
//! generators.
use vstd::prelude::*;
use vstd::std_specs::iter::IteratorSpec;

verus! {

/// Relies on `String::push`: appends one character at the end.
#[verifier::external_body]
pub(crate) fn push_char(s: &mut String, c: char)
    ensures
        final(s)@ == old(s)@.push(c),
{
    s.push(c)
}

/// The characters of a string slice, in order.
pub fn chars_vec(s: &str) -> (v: Vec<char>)
    ensures
        v@ == s@,
{
    broadcast use vstd::string::group_string_axioms;

    let mut v: Vec<char> = Vec::new();
    let mut it = s.chars();
    loop
        invariant
            it.obeys_prophetic_iter_laws(),
            v@ + IteratorSpec::remaining(&it) == s@,
            v@.len() <= s@.len(),
        decreases s@.len() - v@.len(),
    {
        match it.next() {
            Some(c) => {
                v.push(c);
                proof {
                    assert(v@ + IteratorSpec::remaining(&it) =~= s@);
                }
            },
            None => {
                proof {
                    assert(v@ + IteratorSpec::remaining(&it) =~= v@);
                }
                return v;
            },
        }
    }
}

/// Whether two string slices hold the same characters.
pub fn str_eq(a: &str, b: &str) -> (r: bool)
    ensures
        r == (a@ == b@),
{
    let sa: String = a.to_owned();
    let sb: String = b.to_owned();
    sa == sb
}

/// The character for one decimal digit.
pub open spec fn digit_char(d: nat) -> char {
    ((48 + d) as u8) as char
}

/// Decimal rendering of a natural number, most significant digit first.
pub open spec fn dec_str(n: nat) -> Seq<char>
    decreases n,
{
    if n < 10 {
        seq![digit_char(n)]
    } else {
        dec_str(n / 10).push(digit_char(n % 10))
    }
}

/// Decimal rendering of an integer, with a leading minus sign when negative.
pub open spec fn int_str(i: int) -> Seq<char> {
    if i < 0 {
        seq!['-'] + dec_str((-i) as nat)
    } else {
        dec_str(i as nat)
    }
}

/// Appends the decimal rendering of `n` to `s`.
pub fn push_u64_text(s: &mut String, n: u64)
    ensures
        final(s)@ == old(s)@ + dec_str(n as nat),
    decreases n,
{
    if n < 10 {
        push_char(s, (48 + n as u8) as char);
    } else {
        push_u64_text(s, n / 10);
        push_char(s, (48 + (n % 10) as u8) as char);
    }
    proof {
        if n >= 10 {
            assert((old(s)@ + dec_str((n / 10) as nat)).push(digit_char((n % 10) as nat))
                =~= old(s)@ + dec_str(n as nat));
        } else {
            assert(old(s)@ + dec_str(n as nat) =~= old(s)@.push(digit_char(n as nat)));
        }
    }
}

/// Decimal rendering of an unsigned number as a fresh string.
pub fn u64_text(n: u64) -> (s: String)
    ensures
        s@ == dec_str(n as nat),
{
    let mut s = String::new();
    push_u64_text(&mut s, n);
    proof {
        assert(Seq::<char>::empty() + dec_str(n as nat) =~= dec_str(n as nat));
    }
    s
}

/// The magnitude of a signed number as an unsigned one.
pub fn magnitude_u64(i: i64) -> (m: u64)
    ensures
        m == if i < 0 {
            (-(i as int)) as nat
        } else {
            i as nat
        },
{
    if i >= 0 {
        i as u64
    } else {
        ((-(i + 1)) as u64) + 1
    }
}

/// Appends the decimal rendering of `i`, signed, to `s`.
pub fn push_i64_text(s: &mut String, i: i64)
    ensures
        final(s)@ == old(s)@ + int_str(i as int),
{
    if i < 0 {
        push_char(s, '-');
        push_u64_text(s, magnitude_u64(i));
        proof {
            assert(old(s)@.push('-') + dec_str((-(i as int)) as nat) =~= old(s)@ + int_str(
                i as int,
            ));
        }
    } else {
        push_u64_text(s, i as u64);
    }
}

/// Decimal rendering of a signed number as a fresh string.
pub fn i64_text(i: i64) -> (s: String)
    ensures
        s@ == int_str(i as int),
{
    let mut s = String::new();
    push_i64_text(&mut s, i);
    proof {
        assert(Seq::<char>::empty() + int_str(i as int) =~= int_str(i as int));
    }
    s
}

} // verus!
