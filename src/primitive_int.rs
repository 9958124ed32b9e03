use crate::arith::{
    abs_int, lemma_int_rem_add, lemma_int_rem_idem, lemma_int_rem_mul, lemma_int_rem_self,
    lemma_int_rem_sub, lemma_mod_abs,
};
use crate::decimal::{fmt_int, fmt_nat, int_decimal};
use crate::structure::{SAdd, SEuclidean, SFusedMulAdd, SMul, SRem, SRing, SSub, Structure};
use vstd::prelude::*;
use vstd::string::StringExecFns;

verus! {

/// Signed machine integers of `W` bits.
#[derive(Debug, Clone, Copy, PartialEq, Eq)]
pub struct I<const W: usize>;

/// Unsigned machine integers of `W` bits.
#[derive(Debug, Clone, Copy, PartialEq, Eq)]
pub struct U<const W: usize>;

/// The value lies in the range of `u32`.
pub open spec fn in_u32(x: int) -> bool {
    0 <= x <= u32::MAX
}

/// The value lies in the range of `u64`.
pub open spec fn in_u64(x: int) -> bool {
    0 <= x <= u64::MAX
}

/// The value lies in the range of `i64`.
pub open spec fn in_i64(x: int) -> bool {
    i64::MIN <= x <= i64::MAX
}

/// The value lies in the range of `i32`.
pub open spec fn in_i32(x: int) -> bool {
    i32::MIN <= x <= i32::MAX
}

impl Structure for I<32> {
    type V = i32;

    type M = int;

    open spec fn wf(&self) -> bool {
        true
    }

    open spec fn inv(&self, v: &i32) -> bool {
        true
    }

    open spec fn model(&self, v: &i32) -> int {
        *v as int
    }

    open spec fn minv(&self, m: int) -> bool {
        in_i32(m)
    }

    open spec fn spec_fmt_v(&self, m: int) -> Seq<char> {
        int_decimal(m)
    }

    open spec fn spec_name(&self) -> Seq<char> {
        seq!['i', '3', '2']
    }

    fn name(&self) -> (r: String) {
        proof {
            reveal_strlit("i32");
        }
        String::from_str("i32")
    }

    fn fmt_v(&self, v: &i32) -> (r: String) {
        fmt_int(*v as i64)
    }

    fn clone_v(&self, v: &i32) -> (r: i32) {
        *v
    }

    fn clone_s(&self) -> (r: Self) {
        I
    }

    fn eq_v(&self, a: &i32, b: &i32) -> (r: bool) {
        *a == *b
    }
}

impl SAdd for I<32> {
    open spec fn spec_zero(&self) -> int {
        0
    }

    open spec fn spec_add(&self, a: int, b: int) -> int {
        a + b
    }

    open spec fn add_ok(&self, a: int, b: int) -> bool {
        in_i32(a) && in_i32(b) && in_i32(a + b)
    }

    fn zero(&self) -> (r: i32) {
        0
    }

    fn add(&self, lhs: i32, rhs: i32) -> (r: i32) {
        lhs + rhs
    }

    proof fn lemma_zero(&self) {
    }

    proof fn lemma_add_closed(&self, a: int, b: int) {
    }

    proof fn lemma_add_zero(&self, a: int) {
    }

    proof fn lemma_add_comm(&self, a: int, b: int) {
    }

    proof fn lemma_add_assoc(&self, a: int, b: int, c: int) {
    }
}

impl SSub for I<32> {
    open spec fn spec_neg(&self, a: int) -> int {
        -a
    }

    open spec fn spec_sub(&self, a: int, b: int) -> int {
        a - b
    }

    open spec fn neg_ok(&self, a: int) -> bool {
        in_i32(a) && in_i32(-a)
    }

    open spec fn sub_ok(&self, a: int, b: int) -> bool {
        in_i32(a) && in_i32(b) && in_i32(a - b)
    }

    fn negate(&self, v: &mut i32) {
        *v = 0 - *v;
    }

    fn sub(&self, lhs: i32, rhs: i32) -> (r: i32) {
        lhs - rhs
    }

    proof fn lemma_sub_zero(&self, a: int) {
    }

    proof fn lemma_neg_zero(&self) {
    }

    proof fn lemma_sub_is_add_neg(&self, a: int, b: int) {
    }
}

impl SMul for I<32> {
    open spec fn spec_one(&self) -> int {
        1
    }

    open spec fn spec_mul(&self, a: int, b: int) -> int {
        a * b
    }

    open spec fn mul_ok(&self, a: int, b: int) -> bool {
        in_i32(a) && in_i32(b) && in_i32(a * b)
    }

    fn one(&self) -> (r: i32) {
        1
    }

    fn mul(&self, lhs: i32, rhs: i32) -> (r: i32) {
        lhs * rhs
    }

    proof fn lemma_one(&self) {
    }

    proof fn lemma_mul_closed(&self, a: int, b: int) {
    }

    proof fn lemma_mul_one(&self, a: int) {
    }
}

impl SFusedMulAdd for I<32> {
    open spec fn fma_ok(&self, acc: int, a: int, b: int) -> bool {
        self.mul_ok(a, b) && self.add_ok(acc, a * b)
    }

    fn fused_mul_add_ref(&self, acc: &mut i32, lhs: &i32, rhs: &i32) {
        *acc = *acc + *lhs * *rhs;
    }

    proof fn lemma_fma_zero(&self, a: int, b: int) {
    }

    proof fn lemma_fma_closed(&self, acc: int, a: int, b: int) {
    }
}

impl SRing for I<32> {
    proof fn lemma_mul_zero(&self, a: int) {
    }

    proof fn lemma_mul_comm(&self, a: int, b: int) {
        assert(a * b == b * a) by (nonlinear_arith);
    }

    proof fn lemma_mul_assoc(&self, a: int, b: int, c: int) {
        assert((a * b) * c == a * (b * c)) by (nonlinear_arith);
    }
}

impl SRem for I<32> {
    open spec fn spec_rem(&self, a: int, m: int) -> int {
        a % m
    }

    open spec fn rem_ok(&self, a: int, m: int) -> bool {
        in_i32(a) && in_i32(m) && m != 0 && !(a == i32::MIN && m == -1)
    }

    /// The Euclidean remainder: the representative in `[0, |rhs|)`.
    fn rem(&self, lhs: i32, rhs: i32) -> (r: i32) {
        proof {
            lemma_mod_abs(lhs as int, rhs as int);
        }
        match lhs.checked_rem_euclid(rhs) {
            Some(r) => r,
            None => 0,
        }
    }
}

impl SEuclidean for I<32> {
    fn clone_exact(&self, v: &i32) -> (r: i32) {
        *v
    }

    proof fn lemma_rem_ok(&self, a: int, m: int) {
        lemma_mod_abs(1, m);
    }

    proof fn lemma_inv_minv(&self, v: &i32) {
    }

    proof fn lemma_rem_one(&self, m: int) {
        lemma_mod_abs(1, m);
        if abs_int(m) > 1 {
            vstd::arithmetic::div_mod::lemma_small_mod(1, abs_int(m) as nat);
        }
    }

    proof fn lemma_rem_idem(&self, a: int, m: int) {
        lemma_int_rem_idem(a, m);
    }

    proof fn lemma_rem_zero(&self, m: int) {
        lemma_int_rem_idem(0, m);
        lemma_mod_abs(0, m);
        vstd::arithmetic::div_mod::lemma_small_mod(0, abs_int(m) as nat);
    }

    proof fn lemma_rem_self(&self, m: int) {
        lemma_int_rem_self(m);
    }

    proof fn lemma_rem_add(&self, a: int, b: int, m: int) {
        lemma_int_rem_add(a, b, m);
    }

    proof fn lemma_rem_mul(&self, a: int, b: int, m: int) {
        lemma_int_rem_mul(a, b, m);
    }

    proof fn lemma_rem_sub(&self, a: int, b: int, m: int) {
        lemma_int_rem_sub(a, b, m);
    }
}

impl Structure for U<32> {
    type V = u32;

    type M = int;

    open spec fn wf(&self) -> bool {
        true
    }

    open spec fn inv(&self, v: &u32) -> bool {
        true
    }

    open spec fn model(&self, v: &u32) -> int {
        *v as int
    }

    open spec fn minv(&self, m: int) -> bool {
        in_u32(m)
    }

    open spec fn spec_fmt_v(&self, m: int) -> Seq<char> {
        int_decimal(m)
    }

    open spec fn spec_name(&self) -> Seq<char> {
        seq!['u', '3', '2']
    }

    fn name(&self) -> (r: String) {
        proof {
            reveal_strlit("u32");
        }
        String::from_str("u32")
    }

    fn fmt_v(&self, v: &u32) -> (r: String) {
        fmt_int(*v as i64)
    }

    fn clone_v(&self, v: &u32) -> (r: u32) {
        *v
    }

    fn clone_s(&self) -> (r: Self) {
        U
    }

    fn eq_v(&self, a: &u32, b: &u32) -> (r: bool) {
        *a == *b
    }
}

impl SAdd for U<32> {
    open spec fn spec_zero(&self) -> int {
        0
    }

    open spec fn spec_add(&self, a: int, b: int) -> int {
        a + b
    }

    open spec fn add_ok(&self, a: int, b: int) -> bool {
        in_u32(a) && in_u32(b) && in_u32(a + b)
    }

    fn zero(&self) -> (r: u32) {
        0
    }

    fn add(&self, lhs: u32, rhs: u32) -> (r: u32) {
        lhs + rhs
    }

    proof fn lemma_zero(&self) {
    }

    proof fn lemma_add_closed(&self, a: int, b: int) {
    }

    proof fn lemma_add_zero(&self, a: int) {
    }

    proof fn lemma_add_comm(&self, a: int, b: int) {
    }

    proof fn lemma_add_assoc(&self, a: int, b: int, c: int) {
    }
}

impl SSub for U<32> {
    open spec fn spec_neg(&self, a: int) -> int {
        -a
    }

    open spec fn spec_sub(&self, a: int, b: int) -> int {
        a - b
    }

    open spec fn neg_ok(&self, a: int) -> bool {
        a == 0
    }

    open spec fn sub_ok(&self, a: int, b: int) -> bool {
        in_u32(a) && in_u32(b) && in_u32(a - b)
    }

    fn negate(&self, v: &mut u32) {
        *v = 0 - *v;
    }

    fn sub(&self, lhs: u32, rhs: u32) -> (r: u32) {
        lhs - rhs
    }

    proof fn lemma_sub_zero(&self, a: int) {
    }

    proof fn lemma_neg_zero(&self) {
    }

    proof fn lemma_sub_is_add_neg(&self, a: int, b: int) {
    }
}

impl SMul for U<32> {
    open spec fn spec_one(&self) -> int {
        1
    }

    open spec fn spec_mul(&self, a: int, b: int) -> int {
        a * b
    }

    open spec fn mul_ok(&self, a: int, b: int) -> bool {
        in_u32(a) && in_u32(b) && in_u32(a * b)
    }

    fn one(&self) -> (r: u32) {
        1
    }

    fn mul(&self, lhs: u32, rhs: u32) -> (r: u32) {
        lhs * rhs
    }

    proof fn lemma_one(&self) {
    }

    proof fn lemma_mul_closed(&self, a: int, b: int) {
    }

    proof fn lemma_mul_one(&self, a: int) {
    }
}

impl SFusedMulAdd for U<32> {
    open spec fn fma_ok(&self, acc: int, a: int, b: int) -> bool {
        self.mul_ok(a, b) && self.add_ok(acc, a * b)
    }

    fn fused_mul_add_ref(&self, acc: &mut u32, lhs: &u32, rhs: &u32) {
        *acc = *acc + *lhs * *rhs;
    }

    proof fn lemma_fma_zero(&self, a: int, b: int) {
    }

    proof fn lemma_fma_closed(&self, acc: int, a: int, b: int) {
    }
}

impl SRing for U<32> {
    proof fn lemma_mul_zero(&self, a: int) {
    }

    proof fn lemma_mul_comm(&self, a: int, b: int) {
        assert(a * b == b * a) by (nonlinear_arith);
    }

    proof fn lemma_mul_assoc(&self, a: int, b: int, c: int) {
        assert((a * b) * c == a * (b * c)) by (nonlinear_arith);
    }
}

impl SRem for U<32> {
    open spec fn spec_rem(&self, a: int, m: int) -> int {
        a % m
    }

    open spec fn rem_ok(&self, a: int, m: int) -> bool {
        in_u32(a) && in_u32(m) && m != 0
    }

    /// The Euclidean remainder: the representative in `[0, |rhs|)`.
    fn rem(&self, lhs: u32, rhs: u32) -> (r: u32) {
        proof {
            lemma_mod_abs(lhs as int, rhs as int);
        }
        match lhs.checked_rem_euclid(rhs) {
            Some(r) => r,
            None => 0,
        }
    }
}

impl SEuclidean for U<32> {
    fn clone_exact(&self, v: &u32) -> (r: u32) {
        *v
    }

    proof fn lemma_rem_ok(&self, a: int, m: int) {
        lemma_mod_abs(1, m);
    }

    proof fn lemma_inv_minv(&self, v: &u32) {
    }

    proof fn lemma_rem_one(&self, m: int) {
        lemma_mod_abs(1, m);
        if abs_int(m) > 1 {
            vstd::arithmetic::div_mod::lemma_small_mod(1, abs_int(m) as nat);
        }
    }

    proof fn lemma_rem_idem(&self, a: int, m: int) {
        lemma_int_rem_idem(a, m);
    }

    proof fn lemma_rem_zero(&self, m: int) {
        lemma_int_rem_idem(0, m);
        lemma_mod_abs(0, m);
        vstd::arithmetic::div_mod::lemma_small_mod(0, abs_int(m) as nat);
    }

    proof fn lemma_rem_self(&self, m: int) {
        lemma_int_rem_self(m);
    }

    proof fn lemma_rem_add(&self, a: int, b: int, m: int) {
        lemma_int_rem_add(a, b, m);
    }

    proof fn lemma_rem_mul(&self, a: int, b: int, m: int) {
        lemma_int_rem_mul(a, b, m);
    }

    proof fn lemma_rem_sub(&self, a: int, b: int, m: int) {
        lemma_int_rem_sub(a, b, m);
    }
}

impl Structure for I<64> {
    type V = i64;

    type M = int;

    open spec fn wf(&self) -> bool {
        true
    }

    open spec fn inv(&self, v: &i64) -> bool {
        true
    }

    open spec fn model(&self, v: &i64) -> int {
        *v as int
    }

    open spec fn minv(&self, m: int) -> bool {
        in_i64(m)
    }

    open spec fn spec_fmt_v(&self, m: int) -> Seq<char> {
        int_decimal(m)
    }

    open spec fn spec_name(&self) -> Seq<char> {
        seq!['i', '6', '4']
    }

    fn name(&self) -> (r: String) {
        proof {
            reveal_strlit("i64");
        }
        String::from_str("i64")
    }

    fn fmt_v(&self, v: &i64) -> (r: String) {
        fmt_int(*v)
    }

    fn clone_v(&self, v: &i64) -> (r: i64) {
        *v
    }

    fn clone_s(&self) -> (r: Self) {
        I
    }

    fn eq_v(&self, a: &i64, b: &i64) -> (r: bool) {
        *a == *b
    }
}

impl SAdd for I<64> {
    open spec fn spec_zero(&self) -> int {
        0
    }

    open spec fn spec_add(&self, a: int, b: int) -> int {
        a + b
    }

    open spec fn add_ok(&self, a: int, b: int) -> bool {
        in_i64(a) && in_i64(b) && in_i64(a + b)
    }

    fn zero(&self) -> (r: i64) {
        0
    }

    fn add(&self, lhs: i64, rhs: i64) -> (r: i64) {
        lhs + rhs
    }

    proof fn lemma_zero(&self) {
    }

    proof fn lemma_add_closed(&self, a: int, b: int) {
    }

    proof fn lemma_add_zero(&self, a: int) {
    }

    proof fn lemma_add_comm(&self, a: int, b: int) {
    }

    proof fn lemma_add_assoc(&self, a: int, b: int, c: int) {
    }
}

impl SSub for I<64> {
    open spec fn spec_neg(&self, a: int) -> int {
        -a
    }

    open spec fn spec_sub(&self, a: int, b: int) -> int {
        a - b
    }

    open spec fn neg_ok(&self, a: int) -> bool {
        in_i64(a) && in_i64(-a)
    }

    open spec fn sub_ok(&self, a: int, b: int) -> bool {
        in_i64(a) && in_i64(b) && in_i64(a - b)
    }

    fn negate(&self, v: &mut i64) {
        *v = 0 - *v;
    }

    fn sub(&self, lhs: i64, rhs: i64) -> (r: i64) {
        lhs - rhs
    }

    proof fn lemma_sub_zero(&self, a: int) {
    }

    proof fn lemma_neg_zero(&self) {
    }

    proof fn lemma_sub_is_add_neg(&self, a: int, b: int) {
    }
}

impl SMul for I<64> {
    open spec fn spec_one(&self) -> int {
        1
    }

    open spec fn spec_mul(&self, a: int, b: int) -> int {
        a * b
    }

    open spec fn mul_ok(&self, a: int, b: int) -> bool {
        in_i64(a) && in_i64(b) && in_i64(a * b)
    }

    fn one(&self) -> (r: i64) {
        1
    }

    fn mul(&self, lhs: i64, rhs: i64) -> (r: i64) {
        lhs * rhs
    }

    proof fn lemma_one(&self) {
    }

    proof fn lemma_mul_closed(&self, a: int, b: int) {
    }

    proof fn lemma_mul_one(&self, a: int) {
    }
}

impl SFusedMulAdd for I<64> {
    open spec fn fma_ok(&self, acc: int, a: int, b: int) -> bool {
        self.mul_ok(a, b) && self.add_ok(acc, a * b)
    }

    fn fused_mul_add_ref(&self, acc: &mut i64, lhs: &i64, rhs: &i64) {
        *acc = *acc + *lhs * *rhs;
    }

    proof fn lemma_fma_zero(&self, a: int, b: int) {
    }

    proof fn lemma_fma_closed(&self, acc: int, a: int, b: int) {
    }
}

impl SRing for I<64> {
    proof fn lemma_mul_zero(&self, a: int) {
    }

    proof fn lemma_mul_comm(&self, a: int, b: int) {
        assert(a * b == b * a) by (nonlinear_arith);
    }

    proof fn lemma_mul_assoc(&self, a: int, b: int, c: int) {
        assert((a * b) * c == a * (b * c)) by (nonlinear_arith);
    }
}

impl SRem for I<64> {
    open spec fn spec_rem(&self, a: int, m: int) -> int {
        a % m
    }

    open spec fn rem_ok(&self, a: int, m: int) -> bool {
        in_i64(a) && in_i64(m) && m != 0 && !(a == i64::MIN && m == -1)
    }

    /// The Euclidean remainder: the representative in `[0, |rhs|)`.
    fn rem(&self, lhs: i64, rhs: i64) -> (r: i64) {
        proof {
            lemma_mod_abs(lhs as int, rhs as int);
        }
        match lhs.checked_rem_euclid(rhs) {
            Some(r) => r,
            None => 0,
        }
    }
}

impl SEuclidean for I<64> {
    fn clone_exact(&self, v: &i64) -> (r: i64) {
        *v
    }

    proof fn lemma_rem_ok(&self, a: int, m: int) {
        lemma_mod_abs(1, m);
    }

    proof fn lemma_inv_minv(&self, v: &i64) {
    }

    proof fn lemma_rem_one(&self, m: int) {
        lemma_mod_abs(1, m);
        if abs_int(m) > 1 {
            vstd::arithmetic::div_mod::lemma_small_mod(1, abs_int(m) as nat);
        }
    }

    proof fn lemma_rem_idem(&self, a: int, m: int) {
        lemma_int_rem_idem(a, m);
    }

    proof fn lemma_rem_zero(&self, m: int) {
        lemma_int_rem_idem(0, m);
        lemma_mod_abs(0, m);
        vstd::arithmetic::div_mod::lemma_small_mod(0, abs_int(m) as nat);
    }

    proof fn lemma_rem_self(&self, m: int) {
        lemma_int_rem_self(m);
    }

    proof fn lemma_rem_add(&self, a: int, b: int, m: int) {
        lemma_int_rem_add(a, b, m);
    }

    proof fn lemma_rem_mul(&self, a: int, b: int, m: int) {
        lemma_int_rem_mul(a, b, m);
    }

    proof fn lemma_rem_sub(&self, a: int, b: int, m: int) {
        lemma_int_rem_sub(a, b, m);
    }
}

impl Structure for U<64> {
    type V = u64;

    type M = int;

    open spec fn wf(&self) -> bool {
        true
    }

    open spec fn inv(&self, v: &u64) -> bool {
        true
    }

    open spec fn model(&self, v: &u64) -> int {
        *v as int
    }

    open spec fn minv(&self, m: int) -> bool {
        in_u64(m)
    }

    open spec fn spec_fmt_v(&self, m: int) -> Seq<char> {
        int_decimal(m)
    }

    open spec fn spec_name(&self) -> Seq<char> {
        seq!['u', '6', '4']
    }

    fn name(&self) -> (r: String) {
        proof {
            reveal_strlit("u64");
        }
        String::from_str("u64")
    }

    fn fmt_v(&self, v: &u64) -> (r: String) {
        fmt_nat(*v)
    }

    fn clone_v(&self, v: &u64) -> (r: u64) {
        *v
    }

    fn clone_s(&self) -> (r: Self) {
        U
    }

    fn eq_v(&self, a: &u64, b: &u64) -> (r: bool) {
        *a == *b
    }
}

impl SAdd for U<64> {
    open spec fn spec_zero(&self) -> int {
        0
    }

    open spec fn spec_add(&self, a: int, b: int) -> int {
        a + b
    }

    open spec fn add_ok(&self, a: int, b: int) -> bool {
        in_u64(a) && in_u64(b) && in_u64(a + b)
    }

    fn zero(&self) -> (r: u64) {
        0
    }

    fn add(&self, lhs: u64, rhs: u64) -> (r: u64) {
        lhs + rhs
    }

    proof fn lemma_zero(&self) {
    }

    proof fn lemma_add_closed(&self, a: int, b: int) {
    }

    proof fn lemma_add_zero(&self, a: int) {
    }

    proof fn lemma_add_comm(&self, a: int, b: int) {
    }

    proof fn lemma_add_assoc(&self, a: int, b: int, c: int) {
    }
}

impl SSub for U<64> {
    open spec fn spec_neg(&self, a: int) -> int {
        -a
    }

    open spec fn spec_sub(&self, a: int, b: int) -> int {
        a - b
    }

    open spec fn neg_ok(&self, a: int) -> bool {
        a == 0
    }

    open spec fn sub_ok(&self, a: int, b: int) -> bool {
        in_u64(a) && in_u64(b) && in_u64(a - b)
    }

    fn negate(&self, v: &mut u64) {
        *v = 0 - *v;
    }

    fn sub(&self, lhs: u64, rhs: u64) -> (r: u64) {
        lhs - rhs
    }

    proof fn lemma_sub_zero(&self, a: int) {
    }

    proof fn lemma_neg_zero(&self) {
    }

    proof fn lemma_sub_is_add_neg(&self, a: int, b: int) {
    }
}

impl SMul for U<64> {
    open spec fn spec_one(&self) -> int {
        1
    }

    open spec fn spec_mul(&self, a: int, b: int) -> int {
        a * b
    }

    open spec fn mul_ok(&self, a: int, b: int) -> bool {
        in_u64(a) && in_u64(b) && in_u64(a * b)
    }

    fn one(&self) -> (r: u64) {
        1
    }

    fn mul(&self, lhs: u64, rhs: u64) -> (r: u64) {
        lhs * rhs
    }

    proof fn lemma_one(&self) {
    }

    proof fn lemma_mul_closed(&self, a: int, b: int) {
    }

    proof fn lemma_mul_one(&self, a: int) {
    }
}

impl SFusedMulAdd for U<64> {
    open spec fn fma_ok(&self, acc: int, a: int, b: int) -> bool {
        self.mul_ok(a, b) && self.add_ok(acc, a * b)
    }

    fn fused_mul_add_ref(&self, acc: &mut u64, lhs: &u64, rhs: &u64) {
        *acc = *acc + *lhs * *rhs;
    }

    proof fn lemma_fma_zero(&self, a: int, b: int) {
    }

    proof fn lemma_fma_closed(&self, acc: int, a: int, b: int) {
    }
}

impl SRing for U<64> {
    proof fn lemma_mul_zero(&self, a: int) {
    }

    proof fn lemma_mul_comm(&self, a: int, b: int) {
        assert(a * b == b * a) by (nonlinear_arith);
    }

    proof fn lemma_mul_assoc(&self, a: int, b: int, c: int) {
        assert((a * b) * c == a * (b * c)) by (nonlinear_arith);
    }
}

impl SRem for U<64> {
    open spec fn spec_rem(&self, a: int, m: int) -> int {
        a % m
    }

    open spec fn rem_ok(&self, a: int, m: int) -> bool {
        in_u64(a) && in_u64(m) && m != 0
    }

    /// The Euclidean remainder: the representative in `[0, |rhs|)`.
    fn rem(&self, lhs: u64, rhs: u64) -> (r: u64) {
        proof {
            lemma_mod_abs(lhs as int, rhs as int);
        }
        match lhs.checked_rem_euclid(rhs) {
            Some(r) => r,
            None => 0,
        }
    }
}

impl SEuclidean for U<64> {
    fn clone_exact(&self, v: &u64) -> (r: u64) {
        *v
    }

    proof fn lemma_rem_ok(&self, a: int, m: int) {
        lemma_mod_abs(1, m);
    }

    proof fn lemma_inv_minv(&self, v: &u64) {
    }

    proof fn lemma_rem_one(&self, m: int) {
        lemma_mod_abs(1, m);
        if abs_int(m) > 1 {
            vstd::arithmetic::div_mod::lemma_small_mod(1, abs_int(m) as nat);
        }
    }

    proof fn lemma_rem_idem(&self, a: int, m: int) {
        lemma_int_rem_idem(a, m);
    }

    proof fn lemma_rem_zero(&self, m: int) {
        lemma_int_rem_idem(0, m);
        lemma_mod_abs(0, m);
        vstd::arithmetic::div_mod::lemma_small_mod(0, abs_int(m) as nat);
    }

    proof fn lemma_rem_self(&self, m: int) {
        lemma_int_rem_self(m);
    }

    proof fn lemma_rem_add(&self, a: int, b: int, m: int) {
        lemma_int_rem_add(a, b, m);
    }

    proof fn lemma_rem_mul(&self, a: int, b: int, m: int) {
        lemma_int_rem_mul(a, b, m);
    }

    proof fn lemma_rem_sub(&self, a: int, b: int, m: int) {
        lemma_int_rem_sub(a, b, m);
    }
}

} // verus!
