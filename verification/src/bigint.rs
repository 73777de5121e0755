//! Whole numbers of any size, as far as the length of a token needs them:
//! written in digits of 32 bits, multiplied by the size of the alphabet, and
//! held against a power of two.

use vstd::arithmetic::power::{lemma_pow0, lemma_pow_positive, pow};
use vstd::arithmetic::power2::{
    lemma2_to64, lemma_pow2_adds, lemma_pow2_pos, lemma_pow2_strictly_increases,
    lemma_pow2_unfold, pow2,
};
use vstd::prelude::*;

verus! {

/// The base of the digits.
pub open spec fn base() -> int {
    0x1_0000_0000
}

/// The number that digits spell, the least significant one first.
pub open spec fn value(digits: Seq<u32>) -> int
    decreases digits.len(),
{
    if digits.len() == 0 {
        0
    } else {
        value(digits.drop_last()) + digits.last() * pow(base(), (digits.len() - 1) as nat)
    }
}

/// The digits are those of a positive number, without leading zeros.
pub open spec fn normal(digits: Seq<u32>) -> bool {
    digits.len() > 0 && digits.last() != 0
}

/// A power is the base times the power below.
pub proof fn lemma_pow_unfold(b: int, e: nat)
    requires
        e > 0,
    ensures
        pow(b, e) == b * pow(b, (e - 1) as nat),
{
    reveal(pow);
}

/// A power of the base is a power of two.
pub proof fn lemma_base_pow(e: nat)
    ensures
        pow(base(), e) == pow2(32 * e),
    decreases e,
{
    lemma2_to64();
    if e == 0 {
        lemma_pow0(base());
    } else {
        lemma_base_pow((e - 1) as nat);
        lemma_pow_unfold(base(), e);
        lemma_pow2_adds(32, (32 * (e - 1)) as nat);
        assert(32 + 32 * (e - 1) == 32 * e);
    }
}

/// What a further digit adds.
pub proof fn lemma_value_push(digits: Seq<u32>, digit: u32)
    ensures
        value(digits.push(digit)) == value(digits) + digit * pow(base(), digits.len()),
{
    assert(digits.push(digit).drop_last() =~= digits);
}

/// A number of `n` digits is less than the `n`-th power of the base, and at
/// least its leading digit times the power below.
pub proof fn lemma_value_bounds(digits: Seq<u32>)
    ensures
        0 <= value(digits) < pow(base(), digits.len()),
        digits.len() > 0 ==> digits.last() * pow(base(), (digits.len() - 1) as nat) <= value(
            digits,
        ) < (digits.last() + 1) * pow(base(), (digits.len() - 1) as nat),
    decreases digits.len(),
{
    if digits.len() == 0 {
        lemma_pow0(base());
    } else {
        let rest = digits.drop_last();
        let top = digits.last() as int;
        let unit = pow(base(), rest.len());
        lemma_value_bounds(rest);
        lemma_pow_positive(base(), rest.len());
        lemma_pow_unfold(base(), digits.len());
        assert(pow(base(), digits.len()) == base() * unit);
        assert(top * unit + unit == (top + 1) * unit) by (nonlinear_arith);
        assert((top + 1) * unit <= base() * unit) by (nonlinear_arith)
            requires
                top + 1 <= base(),
                unit > 0,
        ;
        assert(0 <= top * unit) by (nonlinear_arith)
            requires
                top >= 0,
                unit > 0,
        ;
    }
}

/// The digits of a number times 62.
pub fn times_62(digits: &Vec<u32>) -> (out: Vec<u32>)
    requires
        normal(digits@),
    ensures
        normal(out@),
        value(out@) == 62 * value(digits@),
        digits@.len() <= out@.len() <= digits@.len() + 1,
{
    let mut out: Vec<u32> = Vec::new();
    let mut carry: u64 = 0;
    let mut i: usize = 0;
    proof {
        lemma_pow0(base());
        assert(digits@.take(0) =~= Seq::empty());
    }
    while i < digits.len()
        invariant
            i <= digits.len(),
            out@.len() == i,
            carry < 62,
            value(out@) + carry * pow(base(), i as nat) == 62 * value(digits@.take(i as int)),
            i > 0 && carry == 0 ==> out@.last() != 0 || digits@[i - 1] == 0,
        decreases digits.len() - i,
    {
        let digit = digits[i];
        let product: u64 = digit as u64 * 62 + carry;
        let low: u32 = (product % 0x1_0000_0000) as u32;
        let high: u64 = product / 0x1_0000_0000;
        proof {
            let unit = pow(base(), i as nat);
            let done = digits@.take(i as int);
            assert(digits@.take(i + 1) =~= done.push(digit));
            lemma_value_push(done, digit);
            lemma_value_push(out@, low);
            lemma_pow_unfold(base(), (i + 1) as nat);
            assert(pow(base(), (i + 1) as nat) == base() * unit);
            assert(product == low + high * base());
            assert(low * unit + high * (base() * unit) == carry * unit + 62 * (digit * unit))
                by (nonlinear_arith)
                requires
                    low + high * base() == digit * 62 + carry,
            ;
            assert(62 * (value(done) + digit * unit) == 62 * value(done) + 62 * (digit * unit))
                by (nonlinear_arith);
        }
        out.push(low);
        carry = high;
        i = i + 1;
    }
    assert(digits@.take(digits@.len() as int) =~= digits@);
    if carry > 0 {
        proof {
            lemma_value_push(out@, carry as u32);
        }
        out.push(carry as u32);
    }
    out
}

/// The number of bits that it takes to write a positive number down.
fn bit_length(top: u32) -> (length: u32)
    requires
        top != 0,
    ensures
        1 <= length <= 32,
        pow2((length - 1) as nat) <= top < pow2(length as nat),
{
    let mut length: u32 = 0;
    let mut power: u64 = 1;
    proof {
        lemma2_to64();
    }
    while power <= top as u64
        invariant
            length <= 32,
            power == pow2(length as nat),
            length > 0 ==> pow2((length - 1) as nat) <= top,
            pow2(32) == 0x1_0000_0000,
        decreases 33 - length,
    {
        proof {
            lemma_pow2_unfold((length + 1) as nat);
            if length == 32 {
                assert(false);
            }
        }
        power = power * 2;
        length = length + 1;
    }
    length
}

/// Whether a number is at least the given power of two.
pub fn at_least_pow2(digits: &Vec<u32>, bits: u16) -> (reached: bool)
    requires
        normal(digits@),
        digits@.len() <= 0x10_0000,
    ensures
        reached == (value(digits@) >= pow2(bits as nat)),
{
    let top = digits[digits.len() - 1];
    let below: u64 = 32 * (digits.len() as u64 - 1);
    let length: u64 = below + bit_length(top) as u64;
    proof {
        let rest = (digits@.len() - 1) as nat;
        let unit = pow(base(), rest);
        let top_bits = (length - below) as nat;
        lemma_value_bounds(digits@);
        lemma_base_pow(rest);
        lemma_pow2_pos(32 * rest);
        lemma_pow2_adds((top_bits - 1) as nat, 32 * rest);
        lemma_pow2_adds(top_bits, 32 * rest);
        assert(pow2((top_bits - 1) as nat) * unit <= top * unit) by (nonlinear_arith)
            requires
                pow2((top_bits - 1) as nat) <= top,
                unit > 0,
        ;
        assert((top + 1) * unit <= pow2(top_bits) * unit) by (nonlinear_arith)
            requires
                top + 1 <= pow2(top_bits),
                unit > 0,
        ;
        assert(pow2((length - 1) as nat) <= value(digits@) < pow2(length as nat));
        if bits < length - 1 {
            lemma_pow2_strictly_increases(bits as nat, (length - 1) as nat);
        }
        if bits > length {
            lemma_pow2_strictly_increases(length as nat, bits as nat);
        }
    }
    (bits as u64) < length
}

} // verus!
