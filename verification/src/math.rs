//! Arithmetic facts about the fee computations: scaled integer fractions
//! (`amount * numerator / denominator`) and how a two-way percentage split
//! relates to the whole it was taken from.

use vstd::prelude::*;
use vstd::arithmetic::div_mod::{
    lemma_div_is_ordered, lemma_div_multiples_vanish, lemma_div_pos_is_pos,
    lemma_fundamental_div_mod, lemma_mod_division_less_than_divisor,
};
use vstd::arithmetic::mul::{
    lemma_mul_inequality, lemma_mul_is_commutative, lemma_mul_is_distributive_add,
    lemma_mul_nonnegative, lemma_mul_upper_bound,
};

verus! {

/// A scaled fraction of a non-negative amount stays between zero and the
/// amount itself when the numerator is at most the denominator.
pub proof fn lemma_scaled_fraction_bounds(a: int, num: int, den: int)
    requires
        0 <= a,
        0 <= num <= den,
        0 < den,
    ensures
        0 <= (a * num) / den <= a,
{
    lemma_mul_nonnegative(a, num);
    lemma_div_pos_is_pos(a * num, den);
    lemma_mul_inequality(num, den, a);
    lemma_mul_is_commutative(num, a);
    lemma_mul_is_commutative(den, a);
    lemma_div_is_ordered(a * num, a * den, den);
    lemma_div_multiples_vanish(a, den);
    lemma_mul_is_commutative(a, den);
}

/// The product of two non-negative values is bounded by the product of their
/// bounds.
pub proof fn lemma_product_bound(a: int, a_bound: int, b: int, b_bound: int)
    requires
        0 <= a <= a_bound,
        0 <= b <= b_bound,
    ensures
        0 <= a * b <= a_bound * b_bound,
{
    lemma_mul_nonnegative(a, b);
    lemma_mul_upper_bound(a, a_bound, b, b_bound);
}

/// Splitting a whole `r` into two percentage shares that sum to 100% loses at
/// most one unit to rounding, and loses nothing exactly when `r * c` is a
/// multiple of 100.
pub proof fn lemma_percentage_split(r: int, c: int, a: int)
    requires
        0 <= r,
        0 <= c,
        0 <= a,
        c + a == 100,
    ensures
        r - 1 <= (r * c) / 100 + (r * a) / 100 <= r,
        (r * c) % 100 == 0 ==> (r * c) / 100 + (r * a) / 100 == r,
{
    lemma_mul_is_distributive_add(r, c, a);
    assert(r * c + r * a == r * 100);
    lemma_mul_is_commutative(r, 100);
    lemma_div_multiples_vanish(r, 100);
    lemma_fundamental_div_mod(r * c, 100);
    lemma_fundamental_div_mod(r * a, 100);
    lemma_mul_nonnegative(r, c);
    lemma_mul_nonnegative(r, a);
    lemma_mod_division_less_than_divisor(r * c, 100);
    lemma_mod_division_less_than_divisor(r * a, 100);
}

} // verus!
