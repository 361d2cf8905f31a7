use vstd::arithmetic::div_mod::{
    lemma_fundamental_div_mod,
    lemma_fundamental_div_mod_converse,
    lemma_mod_bound,
    lemma_mod_pos_bound,
};
use vstd::prelude::*;

verus! {

/// A quotient with a positive divisor stays within a small widening of the
/// numerator's magnitude bound.
pub proof fn lemma_div_bound(num: int, den: int, m: int)
    requires
        1 <= den,
        0 <= m,
        -m <= num <= m,
    ensures
        -(m + den) <= num / den <= m,
{
    lemma_fundamental_div_mod(num, den);
    lemma_mod_bound(num, den);
    let q = num / den;
    let r = num % den;
    assert(-(m + den) <= q <= m) by (nonlinear_arith)
        requires
            num == den * q + r,
            0 <= r < den,
            -m <= num <= m,
            1 <= den,
            0 <= m,
    ;
}

/// Floor division of `a` by a positive divisor `b`.
///
/// The quotient agrees with the mathematical (Euclidean) quotient `a / b`
/// that the contracts of this crate are written in, for every sign of `a`.
pub fn div_floor_i64(a: i64, b: i64) -> (q: i64)
    requires
        b > 0,
        a > i64::MIN,
    ensures
        q == a as int / b as int,
{
    if a >= 0 {
        a / b
    } else {
        let m: i64 = -a;
        let q0: i64 = m / b;
        let r: i64 = m % b;
        proof {
            lemma_fundamental_div_mod(m as int, b as int);
            lemma_mod_pos_bound(m as int, b as int);
            assert(m as int == b as int * q0 as int + r as int);
        }
        if r == 0 {
            proof {
                assert(a as int == (-(q0 as int)) * (b as int) + 0) by (nonlinear_arith)
                    requires
                        a as int == -(m as int),
                        m as int == b as int * q0 as int + 0,
                ;
                lemma_fundamental_div_mod_converse(a as int, b as int, -(q0 as int), 0);
            }
            -q0
        } else {
            proof {
                assert(a as int == (-(q0 as int) - 1) * (b as int) + (b as int - r as int))
                    by (nonlinear_arith)
                    requires
                        a as int == -(m as int),
                        m as int == b as int * q0 as int + r as int,
                ;
                lemma_fundamental_div_mod_converse(
                    a as int,
                    b as int,
                    -(q0 as int) - 1,
                    b as int - r as int,
                );
            }
            -q0 - 1
        }
    }
}

} // verus!
