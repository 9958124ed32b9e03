use crate::arith::{
    abs_int, lemma_int_rem_add, lemma_int_rem_idem, lemma_int_rem_mul, lemma_int_rem_self,
    lemma_int_rem_sub, lemma_mod_abs,
};
use crate::decimal::{digit_char, fmt_int, int_decimal, nat_decimal};
use crate::structure::{SAdd, SEuclidean, SFusedMulAdd, SMul, SRem, SRing, SSub, Structure};
use vstd::prelude::*;
use vstd::string::StringExecFns;

verus! {

/// The value of a decimal digit character.
pub open spec fn digit_value(c: char) -> int {
    (c as u32) as int - 48
}

/// The value of a string of decimal digits.
pub open spec fn digits_value(s: Seq<char>) -> int
    decreases s.len(),
{
    if s.len() == 0 {
        0
    } else {
        digits_value(s.drop_last()) * 10 + digit_value(s.last())
    }
}

/// The value of a decimal numeral with an optional leading `-`.
pub open spec fn decimal_value(s: Seq<char>) -> int {
    if s.len() > 0 && s[0] == '-' {
        -digits_value(s.drop_first())
    } else {
        digits_value(s)
    }
}

proof fn lemma_digit_round_trip(d: int)
    requires
        0 <= d < 10,
    ensures
        digit_value(digit_char(d)) == d,
        digit_char(d) != '-',
{
}

/// Reading back a numeral of a natural number gives the number.
pub proof fn lemma_nat_round_trip(n: nat)
    ensures
        digits_value(nat_decimal(n)) == n as int,
        nat_decimal(n).len() > 0,
        nat_decimal(n)[0] != '-',
    decreases n,
{
    if n < 10 {
        lemma_digit_round_trip(n as int);
        let s = nat_decimal(n);
        assert(s.drop_last() =~= Seq::<char>::empty());
        assert(digits_value(s.drop_last()) == 0);
        assert(digits_value(s) == digits_value(s.drop_last()) * 10 + digit_value(s.last()));
    } else {
        lemma_nat_round_trip(n / 10);
        lemma_digit_round_trip((n % 10) as int);
        let s = nat_decimal(n);
        assert(s.drop_last() =~= nat_decimal(n / 10));
        assert(s.last() == digit_char((n % 10) as int));
        assert(s[0] == nat_decimal(n / 10)[0]);
        assert(digits_value(s) == digits_value(s.drop_last()) * 10 + digit_value(s.last()));
        assert((n / 10) as int * 10 + (n % 10) as int == n as int) by (nonlinear_arith);
    }
}

/// Reading back the numeral of an integer gives the integer.
pub proof fn lemma_decimal_round_trip(x: int)
    ensures
        decimal_value(int_decimal(x)) == x,
{
    if x < 0 {
        lemma_nat_round_trip((-x) as nat);
        assert((seq!['-'] + nat_decimal((-x) as nat)).drop_first() =~= nat_decimal((-x) as nat));
    } else {
        lemma_nat_round_trip(x as nat);
    }
}

/// An arbitrary-precision integer, held as its canonical decimal numeral.
#[derive(Debug, Clone, PartialEq, Eq)]
pub struct BigInt {
    pub digits: String,
}

impl BigInt {
    /// The integer that the numeral denotes.
    pub open spec fn value(&self) -> int {
        decimal_value(self.digits@)
    }

    /// The numeral is the canonical decimal form of its value.
    pub open spec fn canonical(&self) -> bool {
        self.digits@ == int_decimal(self.value())
    }

    /// The integer equal to `x`.
    pub fn from_i64(x: i64) -> (r: BigInt)
        ensures
            r.canonical(),
            r.value() == x as int,
    {
        let digits = fmt_int(x);
        proof {
            lemma_decimal_round_trip(x as int);
        }
        BigInt { digits }
    }
}

/// Relies on rug's `Integer` parsing, `+` and decimal `to_string`.
#[verifier::external_body]
fn big_add(a: &BigInt, b: &BigInt) -> (r: BigInt)
    requires
        a.canonical(),
        b.canonical(),
    ensures
        r.canonical(),
        r.value() == a.value() + b.value(),
{
    let x: rug::Integer = a.digits.parse().unwrap();
    let y: rug::Integer = b.digits.parse().unwrap();
    BigInt { digits: (x + y).to_string() }
}

/// Relies on rug's `Integer` parsing, `-` and decimal `to_string`.
#[verifier::external_body]
fn big_sub(a: &BigInt, b: &BigInt) -> (r: BigInt)
    requires
        a.canonical(),
        b.canonical(),
    ensures
        r.canonical(),
        r.value() == a.value() - b.value(),
{
    let x: rug::Integer = a.digits.parse().unwrap();
    let y: rug::Integer = b.digits.parse().unwrap();
    BigInt { digits: (x - y).to_string() }
}

/// Relies on rug's `Integer` parsing, unary `-` and decimal `to_string`.
#[verifier::external_body]
fn big_neg(a: &BigInt) -> (r: BigInt)
    requires
        a.canonical(),
    ensures
        r.canonical(),
        r.value() == -a.value(),
{
    let x: rug::Integer = a.digits.parse().unwrap();
    BigInt { digits: (-x).to_string() }
}

/// Relies on rug's `Integer` parsing, `*` and decimal `to_string`.
#[verifier::external_body]
fn big_mul(a: &BigInt, b: &BigInt) -> (r: BigInt)
    requires
        a.canonical(),
        b.canonical(),
    ensures
        r.canonical(),
        r.value() == a.value() * b.value(),
{
    let x: rug::Integer = a.digits.parse().unwrap();
    let y: rug::Integer = b.digits.parse().unwrap();
    BigInt { digits: (x * y).to_string() }
}

/// Relies on rug's `Integer` parsing, `+=` of a product and decimal `to_string`.
#[verifier::external_body]
fn big_mul_add(acc: &BigInt, a: &BigInt, b: &BigInt) -> (r: BigInt)
    requires
        acc.canonical(),
        a.canonical(),
        b.canonical(),
    ensures
        r.canonical(),
        r.value() == acc.value() + a.value() * b.value(),
{
    let mut z: rug::Integer = acc.digits.parse().unwrap();
    let x: rug::Integer = a.digits.parse().unwrap();
    let y: rug::Integer = b.digits.parse().unwrap();
    z += &x * &y;
    BigInt { digits: z.to_string() }
}

/// Relies on rug's `Integer::div_rem_euc`: the remainder lies in `[0, |m|)`.
#[verifier::external_body]
fn big_rem_euc(a: &BigInt, m: &BigInt) -> (r: BigInt)
    requires
        a.canonical(),
        m.canonical(),
        m.value() != 0,
    ensures
        r.canonical(),
        r.value() == a.value() % m.value(),
{
    let x: rug::Integer = a.digits.parse().unwrap();
    let y: rug::Integer = m.digits.parse().unwrap();
    BigInt { digits: x.div_rem_euc(y).1.to_string() }
}

/// Arbitrary-precision integers.
#[derive(Debug, Clone, Copy, PartialEq, Eq)]
pub struct Int;

impl Structure for Int {
    type V = BigInt;

    type M = int;

    open spec fn wf(&self) -> bool {
        true
    }

    open spec fn inv(&self, v: &BigInt) -> bool {
        v.canonical()
    }

    open spec fn model(&self, v: &BigInt) -> int {
        v.value()
    }

    open spec fn minv(&self, m: int) -> bool {
        true
    }

    open spec fn spec_fmt_v(&self, m: int) -> Seq<char> {
        int_decimal(m)
    }

    open spec fn spec_name(&self) -> Seq<char> {
        seq!['i', 'n', 't']
    }

    fn name(&self) -> (r: String) {
        proof {
            reveal_strlit("int");
        }
        String::from_str("int")
    }

    fn fmt_v(&self, v: &BigInt) -> (r: String) {
        v.digits.clone()
    }

    fn clone_v(&self, v: &BigInt) -> (r: BigInt) {
        BigInt { digits: v.digits.clone() }
    }

    fn clone_s(&self) -> (r: Self) {
        Int
    }

    fn eq_v(&self, a: &BigInt, b: &BigInt) -> (r: bool) {
        a.digits == b.digits
    }
}

impl SAdd for Int {
    open spec fn spec_zero(&self) -> int {
        0
    }

    open spec fn spec_add(&self, a: int, b: int) -> int {
        a + b
    }

    open spec fn add_ok(&self, a: int, b: int) -> bool {
        true
    }

    fn zero(&self) -> (r: BigInt) {
        BigInt::from_i64(0)
    }

    fn add(&self, lhs: BigInt, rhs: BigInt) -> (r: BigInt) {
        big_add(&lhs, &rhs)
    }

    proof fn lemma_zero(&self) {
    }

    proof fn lemma_add_closed(&self, a: int, b: int) {
    }

    proof fn lemma_add_zero(&self, a: int) {
    }

    proof fn lemma_add_comm(&self, a: int, b: int) {
    }

    proof fn lemma_add_assoc(&self, a: int, b: int, c: int) {
    }
}

impl SSub for Int {
    open spec fn spec_neg(&self, a: int) -> int {
        -a
    }

    open spec fn spec_sub(&self, a: int, b: int) -> int {
        a - b
    }

    open spec fn neg_ok(&self, a: int) -> bool {
        true
    }

    open spec fn sub_ok(&self, a: int, b: int) -> bool {
        true
    }

    fn negate(&self, v: &mut BigInt) {
        *v = big_neg(v);
    }

    fn sub(&self, lhs: BigInt, rhs: BigInt) -> (r: BigInt) {
        big_sub(&lhs, &rhs)
    }

    proof fn lemma_sub_zero(&self, a: int) {
    }

    proof fn lemma_neg_zero(&self) {
    }

    proof fn lemma_sub_is_add_neg(&self, a: int, b: int) {
    }
}

impl SMul for Int {
    open spec fn spec_one(&self) -> int {
        1
    }

    open spec fn spec_mul(&self, a: int, b: int) -> int {
        a * b
    }

    open spec fn mul_ok(&self, a: int, b: int) -> bool {
        true
    }

    fn one(&self) -> (r: BigInt) {
        BigInt::from_i64(1)
    }

    fn mul(&self, lhs: BigInt, rhs: BigInt) -> (r: BigInt) {
        big_mul(&lhs, &rhs)
    }

    proof fn lemma_one(&self) {
    }

    proof fn lemma_mul_closed(&self, a: int, b: int) {
    }

    proof fn lemma_mul_one(&self, a: int) {
    }
}

impl SFusedMulAdd for Int {
    open spec fn fma_ok(&self, acc: int, a: int, b: int) -> bool {
        true
    }

    fn fused_mul_add_ref(&self, acc: &mut BigInt, lhs: &BigInt, rhs: &BigInt) {
        *acc = big_mul_add(acc, lhs, rhs);
    }

    proof fn lemma_fma_zero(&self, a: int, b: int) {
    }

    proof fn lemma_fma_closed(&self, acc: int, a: int, b: int) {
    }
}

impl SRing for Int {
    proof fn lemma_mul_zero(&self, a: int) {
    }

    proof fn lemma_mul_comm(&self, a: int, b: int) {
        assert(a * b == b * a) by (nonlinear_arith);
    }

    proof fn lemma_mul_assoc(&self, a: int, b: int, c: int) {
        assert((a * b) * c == a * (b * c)) by (nonlinear_arith);
    }
}

impl SRem for Int {
    open spec fn spec_rem(&self, a: int, m: int) -> int {
        a % m
    }

    open spec fn rem_ok(&self, a: int, m: int) -> bool {
        m != 0
    }

    /// The Euclidean remainder: the representative in `[0, |rhs|)`.
    fn rem(&self, lhs: BigInt, rhs: BigInt) -> (r: BigInt) {
        big_rem_euc(&lhs, &rhs)
    }
}

impl SEuclidean for Int {
    fn clone_exact(&self, v: &BigInt) -> (r: BigInt) {
        BigInt { digits: v.digits.clone() }
    }

    proof fn lemma_rem_ok(&self, a: int, m: int) {
        lemma_mod_abs(1, m);
    }

    proof fn lemma_inv_minv(&self, v: &BigInt) {
    }

    proof fn lemma_rem_one(&self, m: int) {
        lemma_mod_abs(1, m);
        if abs_int(m) > 1 {
            vstd::arithmetic::div_mod::lemma_small_mod(1, abs_int(m) as nat);
        }
    }

    proof fn lemma_rem_idem(&self, a: int, m: int) {
        lemma_int_rem_idem(a, m);
    }

    proof fn lemma_rem_zero(&self, m: int) {
        lemma_mod_abs(0, m);
        vstd::arithmetic::div_mod::lemma_small_mod(0, abs_int(m) as nat);
    }

    proof fn lemma_rem_self(&self, m: int) {
        lemma_int_rem_self(m);
    }

    proof fn lemma_rem_add(&self, a: int, b: int, m: int) {
        lemma_int_rem_add(a, b, m);
    }

    proof fn lemma_rem_mul(&self, a: int, b: int, m: int) {
        lemma_int_rem_mul(a, b, m);
    }

    proof fn lemma_rem_sub(&self, a: int, b: int, m: int) {
        lemma_int_rem_sub(a, b, m);
    }
}

} // verus!
