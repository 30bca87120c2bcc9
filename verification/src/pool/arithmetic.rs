//! Facts about products and quotients that rounding down relies on.
use vstd::prelude::*;

verus! {

/// A quotient of unsigned integers is no larger than its dividend.
pub proof fn lemma_quotient_fits(x: int, d: int)
    requires
        0 <= x,
        0 < d,
    ensures
        0 <= x / d <= x,
{
    vstd::arithmetic::div_mod::lemma_div_pos_is_pos(x, d);
    vstd::arithmetic::div_mod::lemma_div_is_ordered_by_denominator(x, 1, d);
    vstd::arithmetic::div_mod::lemma_div_basics(x);
}

/// The part of a whole that goes with some of its shares is no larger than the
/// whole. It is all of it exactly when all the shares go.
pub proof fn lemma_portion_bounded(shares: int, whole: int, held: int)
    requires
        0 < shares <= held,
        0 <= whole,
    ensures
        0 <= (shares * whole) / held <= whole,
        shares == held ==> (shares * whole) / held == whole,
        shares < held && whole > 0 ==> (shares * whole) / held < whole,
{
    assert(0 <= shares * whole <= whole * held) by (nonlinear_arith)
        requires
            0 < shares <= held,
            0 <= whole,
    ;
    vstd::arithmetic::div_mod::lemma_div_pos_is_pos(shares * whole, held);
    vstd::arithmetic::div_mod::lemma_div_is_ordered(shares * whole, whole * held, held);
    vstd::arithmetic::div_mod::lemma_div_by_multiple(whole, held);
    assert(shares == held ==> shares * whole == whole * held) by (nonlinear_arith);
    if shares < held && whole > 0 {
        lemma_quotient_product(shares * whole, held);
        let q = (shares * whole) / held;
        assert(q < whole) by (nonlinear_arith)
            requires
                q * held <= shares * whole,
                0 < shares < held,
                whole > 0,
        ;
    }
}

/// A quotient times its divisor does not exceed the dividend, and misses it by
/// less than the divisor.
pub proof fn lemma_quotient_product(x: int, d: int)
    requires
        0 < d,
    ensures
        (x / d) * d <= x < (x / d) * d + d,
{
    vstd::arithmetic::div_mod::lemma_fundamental_div_mod(x, d);
    assert(d * (x / d) == (x / d) * d) by (nonlinear_arith);
}

/// A quotient is at most what its dividend is a multiple of.
pub proof fn lemma_quotient_at_most(x: int, d: int, bound: int)
    requires
        0 < d,
        x <= bound * d,
    ensures
        x / d <= bound,
{
    lemma_quotient_product(x, d);
    let q = x / d;
    assert(q <= bound) by (nonlinear_arith)
        requires
            0 < d,
            q * d <= x,
            x <= bound * d,
    ;
}

} // verus!
