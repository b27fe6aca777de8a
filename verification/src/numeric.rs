//! Shared numeric helpers: sums of unsigned sequences and the
//! truncating signed division used by the fixed-point signal path.
use vstd::prelude::*;

verus! {

use vstd::arithmetic::div_mod::{lemma_div_is_ordered, lemma_div_multiples_vanish, lemma_div_pos_is_pos};
use vstd::arithmetic::mul::lemma_mul_is_commutative;

/// Sum of a sequence of `u64` values, as an unbounded integer.
pub open spec fn sum_u64(s: Seq<u64>) -> int
    decreases s.len(),
{
    if s.len() == 0 {
        0
    } else {
        sum_u64(s.drop_last()) + s.last()
    }
}

pub proof fn lemma_sum_u64_nonneg(s: Seq<u64>)
    ensures
        sum_u64(s) >= 0,
    decreases s.len(),
{
    if s.len() > 0 {
        lemma_sum_u64_nonneg(s.drop_last());
    }
}

/// Extending a prefix by one element adds exactly that element to its sum.
pub proof fn lemma_sum_u64_take_step(s: Seq<u64>, i: int)
    requires
        0 <= i < s.len(),
    ensures
        sum_u64(s.take(i + 1)) == sum_u64(s.take(i)) + s[i],
{
    assert(s.take(i + 1).drop_last() =~= s.take(i));
    assert(s.take(i + 1).last() == s[i]);
}

/// Every prefix sum is bounded by the sum of the whole sequence.
pub proof fn lemma_sum_u64_take_le(s: Seq<u64>, i: int)
    requires
        0 <= i <= s.len(),
    ensures
        sum_u64(s.take(i)) <= sum_u64(s),
    decreases s.len() - i,
{
    if i == s.len() {
        assert(s.take(i) =~= s);
    } else {
        lemma_sum_u64_take_step(s, i);
        lemma_sum_u64_take_le(s, i + 1);
    }
}

/// A sum of elements each at most `b` is at most `b` per element.
pub proof fn lemma_sum_u64_le(s: Seq<u64>, b: int)
    requires
        b >= 0,
        forall|i: int| 0 <= i < s.len() ==> #[trigger] s[i] <= b,
    ensures
        sum_u64(s) <= b * s.len(),
    decreases s.len(),
{
    if s.len() == 0 {
    } else {
        assert(forall|i: int| 0 <= i < s.drop_last().len() ==> #[trigger] s.drop_last()[i] <= b);
        lemma_sum_u64_le(s.drop_last(), b);
        assert(b * (s.len() - 1) + b == b * s.len()) by (nonlinear_arith);
    }
}

/// Division that truncates toward zero, the behaviour the signal path
/// uses for signed fixed-point values.
pub open spec fn div_trunc(a: int, b: int) -> int {
    if a >= 0 {
        a / b
    } else {
        -((-a) / b)
    }
}

/// A quotient truncated toward zero keeps the bound of its numerator:
/// if `|num| <= bound * den` then `|num / den| <= bound`.
pub proof fn lemma_div_trunc_bounded(num: int, den: int, bound: int)
    requires
        den >= 1,
        bound >= 0,
        -(bound * den) <= num <= bound * den,
    ensures
        -bound <= div_trunc(num, den) <= bound,
{
    lemma_mul_is_commutative(bound, den);
    if num >= 0 {
        lemma_div_is_ordered(num, bound * den, den);
        lemma_div_multiples_vanish(bound, den);
        lemma_div_pos_is_pos(num, den);
    } else {
        let m = -num;
        lemma_div_is_ordered(m, bound * den, den);
        lemma_div_multiples_vanish(bound, den);
        lemma_div_pos_is_pos(m, den);
    }
}

/// Truncating signed division on `i64`, exact against `div_trunc`.
pub fn div_trunc_i64(a: i64, b: i64) -> (r: i64)
    requires
        b >= 1,
    ensures
        r == div_trunc(a as int, b as int),
{
    if a >= 0 {
        let q: u64 = (a as u64) / (b as u64);
        assert(q <= a);
        q as i64
    } else {
        let na: u64 = (-(a as i128)) as u64;
        assert(na == -(a as int));
        let q: u64 = na / (b as u64);
        assert(q <= na);
        let qi: i128 = -(q as i128);
        assert(-(qi as int) <= -(i64::MIN as int));
        qi as i64
    }
}

/// Truncating signed division on `i128`, exact against `div_trunc`.
pub fn div_trunc_i128(a: i128, b: i128) -> (r: i128)
    requires
        b >= 1,
        a > i128::MIN,
    ensures
        r == div_trunc(a as int, b as int),
{
    if a >= 0 {
        let q: u128 = (a as u128) / (b as u128);
        assert(q <= a);
        q as i128
    } else {
        let na: u128 = (-a) as u128;
        let q: u128 = na / (b as u128);
        assert(q <= na);
        assert(na <= i128::MAX as u128);
        -(q as i128)
    }
}

} // verus!
