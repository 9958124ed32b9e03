use vstd::arithmetic::div_mod::{
    lemma_add_mod_noop, lemma_fundamental_div_mod, lemma_fundamental_div_mod_converse,
    lemma_mod_bound, lemma_mod_twice, lemma_mul_mod_noop_left, lemma_sub_mod_noop,
};
use vstd::prelude::*;

verus! {

/// The absolute value of an integer.
pub open spec fn abs_int(m: int) -> int {
    if m < 0 {
        -m
    } else {
        m
    }
}

/// The Euclidean remainder against `m` is the remainder against `|m|`.
pub proof fn lemma_mod_abs(x: int, m: int)
    requires
        m != 0,
    ensures
        x % m == x % abs_int(m),
        0 <= x % m < abs_int(m),
{
    let d = abs_int(m);
    lemma_fundamental_div_mod(x, d);
    lemma_mod_bound(x, d);
    if m < 0 {
        let q = x / d;
        let r = x % d;
        assert(x == (-q) * m + r) by (nonlinear_arith)
            requires
                x == d * q + r,
                d == -m,
        ;
        assert(x % m == r) by (nonlinear_arith)
            requires
                x == (-q) * m + r,
                0 <= r < -m,
                m < 0,
        {
            lemma_fundamental_div_mod(x, m);
        }
    }
}

/// Reducing a remainder again changes nothing.
pub proof fn lemma_int_rem_idem(a: int, m: int)
    requires
        m != 0,
    ensures
        0 <= a % m < abs_int(m),
        (a % m) % m == a % m,
{
    lemma_mod_abs(a, m);
    lemma_mod_abs(a % m, m);
    lemma_mod_twice(a, abs_int(m));
}

/// The modulus reduces to zero.
pub proof fn lemma_int_rem_self(m: int)
    requires
        m != 0,
    ensures
        m % m == 0,
{
    let d = abs_int(m);
    lemma_mod_abs(m, m);
    if m > 0 {
        lemma_fundamental_div_mod_converse(m, d, 1, 0);
    } else {
        lemma_fundamental_div_mod_converse(m, d, -1, 0);
    }
}

/// Reducing an addend first does not change the reduced sum.
pub proof fn lemma_int_rem_add(a: int, b: int, m: int)
    requires
        m != 0,
    ensures
        ((a % m) + b) % m == (a + b) % m,
{
    let d = abs_int(m);
    lemma_mod_abs(a, m);
    lemma_mod_abs((a % m) + b, m);
    lemma_mod_abs(a + b, m);
    lemma_add_mod_noop(a, b, d);
    lemma_add_mod_noop(a % d, b, d);
    lemma_mod_twice(a, d);
}

/// Reducing a factor first does not change the reduced product.
pub proof fn lemma_int_rem_mul(a: int, b: int, m: int)
    requires
        m != 0,
    ensures
        ((a % m) * b) % m == (a * b) % m,
{
    let d = abs_int(m);
    lemma_mod_abs(a, m);
    lemma_mod_abs((a % m) * b, m);
    lemma_mod_abs(a * b, m);
    lemma_mul_mod_noop_left(a, b, d);
}

/// Adding `m - b` is subtracting `b`, up to the modulus.
pub proof fn lemma_int_rem_sub(a: int, b: int, m: int)
    requires
        m != 0,
    ensures
        (a + (m - b)) % m == (a - b) % m,
{
    let d = abs_int(m);
    lemma_mod_abs(a + (m - b), m);
    lemma_mod_abs(a - b, m);
    if m > 0 {
        lemma_fundamental_div_mod_converse(d, d, 1, 0);
        lemma_add_mod_noop(a - b, d, d);
        lemma_mod_twice(a - b, d);
    } else {
        lemma_fundamental_div_mod_converse(d, d, 1, 0);
        lemma_sub_mod_noop(a - b, d, d);
        lemma_mod_twice(a - b, d);
    }
}

} // verus!
