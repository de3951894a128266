//! Machine-width integer arithmetic of the virtual machine: wraparound
//! addition, subtraction, multiplication and exponentiation, and the
//! truncating division and remainder of the hardware divide instructions.
use vstd::prelude::*;

use vstd::arithmetic::div_mod::{
    lemma_mod_multiples_vanish, lemma_mul_mod_noop_general, lemma_small_mod,
};
use vstd::arithmetic::power::{
    lemma_pow0, lemma_pow1, lemma_pow_adds, lemma_pow_mod_noop, lemma_pow_multiplies, pow,
};
use vstd::wrapping::i64_specs;

verus! {

/// The number of 64-bit patterns.
pub open spec fn word_range() -> int {
    0x1_0000_0000_0000_0000
}

/// The wrapped sum of two machine integers.
pub open spec fn wrap_add(a: i64, b: i64) -> i64 {
    i64_specs::wrapping_add(a, b)
}

/// The wrapped difference of two machine integers.
pub open spec fn wrap_sub(a: i64, b: i64) -> i64 {
    i64_specs::wrapping_sub(a, b)
}

/// The wrapped product of two machine integers.
pub open spec fn wrap_mul(a: i64, b: i64) -> i64 {
    i64_specs::wrapping_mul(a, b)
}

/// The wrapped power of a machine integer: the mathematical power reduced
/// to the machine width.
pub open spec fn ipow_wrap(base: i64, e: nat) -> i64 {
    i64_specs::signed_crop(pow(base as int, e))
}

/// The exponent the machine uses: the low 32 bits of a non-negative count.
pub open spec fn exp32_of(b: i64) -> nat {
    ((b as int) % 0x1_0000_0000) as nat
}

/// Quotient truncated toward zero, as the hardware divide computes it;
/// the one overflowing case wraps.
pub open spec fn div_trunc(a: i64, b: i64) -> i64 {
    let x = a as int;
    let d = b as int;
    let q = if x == 0 {
        0
    } else if x > 0 && d > 0 {
        x / d
    } else if x < 0 && d < 0 {
        (x * -1) / (d * -1)
    } else if x < 0 {
        ((x * -1) / d) * -1
    } else {
        (x / (d * -1)) * -1
    };
    if q > i64::MAX {
        i64::MIN
    } else {
        q as i64
    }
}

/// Remainder with the sign of the dividend, as the hardware computes it;
/// the one overflowing case wraps to zero.
pub open spec fn rem_trunc(a: i64, b: i64) -> i64 {
    if a == i64::MIN && b == -1 {
        0
    } else {
        let x = a as int;
        let d = b as int;
        let m = if x == 0 {
            0
        } else if x > 0 && d > 0 {
            x % d
        } else if x < 0 && d < 0 {
            ((x * -1) % (d * -1)) * -1
        } else if x < 0 {
            ((x * -1) % d) * -1
        } else {
            x % (d * -1)
        };
        m as i64
    }
}

/// Truncating division, wrapping on overflow.
pub fn div_trunc_i64(a: i64, b: i64) -> (r: i64)
    requires
        b != 0,
    ensures
        r == div_trunc(a, b),
{
    match a.checked_div(b) {
        Some(q) => q,
        None => i64::MIN,
    }
}

/// Truncating remainder, wrapping on overflow.
pub fn rem_trunc_i64(a: i64, b: i64) -> (r: i64)
    requires
        b != 0,
    ensures
        r == rem_trunc(a, b),
{
    match a.checked_rem(b) {
        Some(m) => m,
        None => 0,
    }
}

/// Reducing to the machine width keeps the residue.
pub proof fn lemma_scrop_mod(x: int)
    ensures
        i64_specs::signed_crop(x) as int % word_range() == x % word_range(),
        i64::MIN <= i64_specs::signed_crop(x) <= i64::MAX,
{
    let m = word_range();
    assert(0 <= x % m < m);
    if x % m > i64::MAX {
        lemma_mod_multiples_vanish(-1, x % m, m);
        lemma_small_mod((x % m) as nat, m as nat);
    } else {
        lemma_small_mod((x % m) as nat, m as nat);
    }
}

/// Equal residues reduce to the same machine integer.
pub proof fn lemma_scrop_congruent(x: int, y: int)
    requires
        x % word_range() == y % word_range(),
    ensures
        i64_specs::signed_crop(x) == i64_specs::signed_crop(y),
{
}

/// A value already of machine width reduces to itself.
pub proof fn lemma_scrop_identity(x: int)
    requires
        i64::MIN <= x <= i64::MAX,
    ensures
        i64_specs::signed_crop(x) == x,
{
    let m = word_range();
    if x >= 0 {
        lemma_small_mod(x as nat, m as nat);
    } else {
        lemma_mod_multiples_vanish(1, x, m);
        lemma_small_mod((x + m) as nat, m as nat);
    }
}

/// Reducing the factors before a product does not change the reduced product.
pub proof fn lemma_scrop_mul(x: int, y: int)
    ensures
        i64_specs::signed_crop(i64_specs::signed_crop(x) * i64_specs::signed_crop(y))
            == i64_specs::signed_crop(x * y),
{
    let m = word_range();
    lemma_scrop_mod(x);
    lemma_scrop_mod(y);
    lemma_mul_mod_noop_general(i64_specs::signed_crop(x) as int, i64_specs::signed_crop(y) as int, m);
    lemma_mul_mod_noop_general(x, y, m);
    lemma_scrop_congruent(i64_specs::signed_crop(x) * i64_specs::signed_crop(y), x * y);
}

/// Congruent bases raise to congruent powers.
pub proof fn lemma_pow_congruent(a: int, b: int, e: nat)
    requires
        a % word_range() == b % word_range(),
    ensures
        pow(a, e) % word_range() == pow(b, e) % word_range(),
{
    let m = word_range();
    lemma_pow_mod_noop(a, e, m);
    lemma_pow_mod_noop(b, e, m);
}

/// The wrapped power of a machine integer, by squaring.
pub fn ipow_wrapping(base: i64, exp: u32) -> (r: i64)
    ensures
        r == ipow_wrap(base, exp as nat),
{
    let mut result: i64 = 1;
    let mut b: i64 = base;
    let mut e: u32 = exp;
    proof {
        lemma_pow1(base as int);
    }
    while e > 0
        invariant
            i64_specs::signed_crop(result as int * pow(b as int, e as nat)) == ipow_wrap(
                base,
                exp as nat,
            ),
        decreases e,
    {
        let ghost r0 = result as int;
        let ghost b0 = b as int;
        let ghost e0 = e as nat;
        let ghost m = word_range();
        if e % 2 == 1 {
            result = result.wrapping_mul(b);
        }
        b = b.wrapping_mul(b);
        e = e / 2;
        proof {
            let e1 = e as nat;
            let b1 = b as int;
            let r1 = result as int;
            // the squared base raised to the halved exponent
            lemma_scrop_mod(b0 * b0);
            lemma_pow_congruent(b1, b0 * b0, e1);
            lemma_pow_multiplies(b0, 2, e1);
            vstd::arithmetic::power::lemma_square_is_pow2(b0);
            assert(pow(b0, 2) == b0 * b0);
            assert(pow(b1, e1) % m == pow(b0, (2 * e1) as nat) % m);
            lemma_mul_mod_noop_general(r1, pow(b1, e1), m);
            lemma_mul_mod_noop_general(r1, pow(b0, (2 * e1) as nat), m);
            assert((r1 * pow(b1, e1)) % m == (r1 * pow(b0, (2 * e1) as nat)) % m);
            if e0 % 2 == 1 {
                // result took one factor of the base; 2*e1 == e0 - 1
                assert(2 * e1 == e0 - 1);
                lemma_scrop_mod(r0 * b0);
                lemma_mul_mod_noop_general(r1, pow(b0, (2 * e1) as nat), m);
                lemma_mul_mod_noop_general(r0 * b0, pow(b0, (e0 - 1) as nat), m);
                assert((r1 * pow(b0, (e0 - 1) as nat)) % m == ((r0 * b0) * pow(
                    b0,
                    (e0 - 1) as nat,
                )) % m);
                lemma_pow1(b0);
                lemma_pow_adds(b0, 1, (e0 - 1) as nat);
                assert(b0 * pow(b0, (e0 - 1) as nat) == pow(b0, e0));
                assert((r0 * b0) * pow(b0, (e0 - 1) as nat) == r0 * pow(b0, e0))
                    by (nonlinear_arith)
                    requires
                        b0 * pow(b0, (e0 - 1) as nat) == pow(b0, e0),
                ;
                lemma_scrop_congruent(r1 * pow(b1, e1), r0 * pow(b0, e0));
            } else {
                assert(2 * e1 == e0);
                lemma_scrop_congruent(r1 * pow(b1, e1), r0 * pow(b0, e0));
            }
        }
    }
    proof {
        lemma_pow0(b as int);
        assert(result as int * 1 == result as int);
        lemma_scrop_identity(result as int);
    }
    result
}

} // verus!
