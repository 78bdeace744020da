use vstd::prelude::*;

verus! {

/// The quotient of `n` by `d`, rounded up to a whole number.
pub open spec fn div_ceil(n: nat, d: nat) -> nat
    recommends
        d > 0,
{
    if n % d == 0 {
        n / d
    } else {
        n / d + 1
    }
}

/// The rounded-up quotient is the least count of `d`s that reaches `n`:
/// `k` of them reach `n` exactly when `k` is no less than the quotient.
pub proof fn lemma_div_ceil_is_least(n: nat, d: nat, k: nat)
    requires
        d > 0,
    ensures
        k >= div_ceil(n, d) <==> k * d >= n,
{
    let q = n / d;
    let r = n % d;
    assert(n == q * d + r && 0 <= r < d) by (nonlinear_arith)
        requires
            d > 0,
            q == n / d,
            r == n % d,
    ;
    if k >= q + 1 {
        assert(k * d >= (q + 1) * d) by (nonlinear_arith)
            requires
                k >= q + 1,
                d > 0,
        ;
        assert((q + 1) * d == q * d + d) by (nonlinear_arith);
    } else if k == q {
    } else {
        assert(k * d <= (q - 1) * d) by (nonlinear_arith)
            requires
                k <= q - 1,
                d > 0,
        ;
        assert((q - 1) * d == q * d - d) by (nonlinear_arith);
    }
}

/// Nothing is reached by no `d` at all.
pub proof fn lemma_div_ceil_of_zero(d: nat)
    requires
        d > 0,
    ensures
        div_ceil(0, d) == 0,
{
    assert(0nat % d == 0 && 0nat / d == 0) by (nonlinear_arith)
        requires
            d > 0,
    ;
}

/// The rounded-up quotient of a count by a positive number is no more than
/// the count.
pub proof fn lemma_div_ceil_bounded(n: nat, d: nat)
    requires
        d > 0,
    ensures
        div_ceil(n, d) <= n,
{
    lemma_div_ceil_is_least(n, d, n);
    assert(n * d >= n) by (nonlinear_arith)
        requires
            d > 0,
    ;
}

} // verus!
