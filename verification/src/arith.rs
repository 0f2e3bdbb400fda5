//! Floor division and remainder on machine integers.

use vstd::prelude::*;
use vstd::arithmetic::div_mod::{
    lemma_fundamental_div_mod, lemma_fundamental_div_mod_converse, lemma_mod_bound,
};

verus! {

/// A truncated quotient and remainder, as the machine computes them for a
/// negative dividend, give the floor quotient and remainder after one step.
proof fn lemma_floor_from_truncated(a: int, b: int)
    requires
        b > 0,
        a < 0,
    ensures
        (-a) % b == 0 ==> a / b == -((-a) / b) && a % b == 0,
        (-a) % b != 0 ==> a / b == -((-a) / b) - 1 && a % b == b - (-a) % b,
{
    let n = -a;
    lemma_fundamental_div_mod(n, b);
    lemma_mod_bound(n, b);
    let q = n / b;
    let r = n % b;
    if r == 0 {
        assert(a == (-q) * b + 0) by (nonlinear_arith)
            requires
                -a == b * q + 0,
        ;
        lemma_fundamental_div_mod_converse(a, b, -q, 0);
    } else {
        assert(a == (-q - 1) * b + (b - r)) by (nonlinear_arith)
            requires
                -a == b * q + r,
        ;
        lemma_fundamental_div_mod_converse(a, b, -q - 1, b - r);
    }
}

/// The quotient of `a` by a positive `b`, rounded towards negative infinity.
pub fn div_floor(a: i64, b: i64) -> (q: i64)
    requires
        b > 0,
    ensures
        q == a as int / b as int,
{
    let q: i64 = a / b;
    let r: i64 = a % b;
    proof {
        if a < 0 {
            lemma_floor_from_truncated(a as int, b as int);
            // the quotient is no less than the dividend, so that one less
            // than it is still a number of the machine
            lemma_fundamental_div_mod(-a, b as int);
            assert(q >= a) by (nonlinear_arith)
                requires
                    -a == b * (-q) + (-r),
                    b > 0,
                    a < 0,
                    0 <= -r < b,
            ;
        }
    }
    if r < 0 {
        q - 1
    } else {
        q
    }
}

/// The remainder of `a` by a positive `b`, always in `0..b`.
pub fn mod_floor(a: i64, b: i64) -> (r: i64)
    requires
        b > 0,
    ensures
        r == a as int % b as int,
        0 <= r < b,
{
    let r: i64 = a % b;
    proof {
        lemma_mod_bound(a as int, b as int);
        if a < 0 {
            lemma_floor_from_truncated(a as int, b as int);
            lemma_mod_bound(-a, b as int);
        }
    }
    if r < 0 {
        r + b
    } else {
        r
    }
}

} // verus!
