use crate::arith::{abs_int, lemma_mod_abs};
use crate::big_int::Int;
use crate::dense_polynomial::{coef_or, DensePolynomial};
use crate::modulo::Mod;
use crate::primitive_int::I;
use crate::structure::{
    SAdd, SEuclidean, SFusedMulAdd, SMul, SRem, SRing, SSub, Structure, SuperStructure,
};
use vstd::prelude::*;

verus! {

/// In every additive and multiplicative structure, `zero` is an identity of
/// addition and `one` is an identity of multiplication, and neither step
/// exceeds the machine limits.
pub proof fn law_identities<S: SAdd + SMul>(s: S, x: S::M)
    requires
        s.wf(),
        s.minv(x),
    ensures
        s.add_ok(x, s.spec_zero()),
        s.spec_add(x, s.spec_zero()) == x,
        s.mul_ok(x, s.spec_one()),
        s.spec_mul(x, s.spec_one()) == x,
{
    s.lemma_add_zero(x);
    s.lemma_mul_one(x);
}

/// Addition is commutative and associative.
pub proof fn law_add_comm_assoc<S: SAdd>(s: S, a: S::M, b: S::M, c: S::M)
    requires
        s.wf(),
        s.minv(a),
        s.minv(b),
        s.minv(c),
    ensures
        s.spec_add(a, b) == s.spec_add(b, a),
        s.spec_add(s.spec_add(a, b), c) == s.spec_add(a, s.spec_add(b, c)),
{
    s.lemma_add_comm(a, b);
    s.lemma_add_assoc(a, b, c);
}

/// In a commutative ring, multiplication is commutative and associative.
pub proof fn law_mul_comm_assoc<S: SRing>(s: S, a: S::M, b: S::M, c: S::M)
    requires
        s.wf(),
        s.minv(a),
        s.minv(b),
        s.minv(c),
    ensures
        s.spec_mul(a, b) == s.spec_mul(b, a),
        s.spec_mul(s.spec_mul(a, b), c) == s.spec_mul(a, s.spec_mul(b, c)),
{
    s.lemma_mul_comm(a, b);
    s.lemma_mul_assoc(a, b, c);
}

/// The remainder of machine integers is Euclidean: it lies in `[0, |m|)`
/// whatever the signs.
pub proof fn law_rem_euclidean_i32(a: int, m: int)
    requires
        m != 0,
    ensures
        0 <= I::<32>.spec_rem(a, m) < abs_int(m),
{
    lemma_mod_abs(a, m);
}

/// The remainder of arbitrary-precision integers is Euclidean: it lies in
/// `[0, |m|)` whatever the signs.
pub proof fn law_rem_euclidean_int(a: int, m: int)
    requires
        m != 0,
    ensures
        0 <= Int.spec_rem(a, m) < abs_int(m),
{
    lemma_mod_abs(a, m);
}

/// Lifting into polynomials gives the constant polynomial, whose only
/// coefficient reads back as the lifted value.
pub proof fn law_lift_constant<S: SFusedMulAdd>(p: DensePolynomial<S>, m: S::M)
    ensures
        p.spec_lift(m).len() == 1,
        p.spec_lift(m)[0] == m,
{
}

/// Lifting into residues keeps the value unchanged.
pub proof fn law_lift_residue<S: SEuclidean>(md: Mod<S>, m: S::M)
    ensures
        md.spec_lift(m) == m,
{
}

/// A modulus of one is degenerate: `one` is congruent to zero.
pub proof fn law_modulus_one_degenerate()
    ensures
        !Mod::<I<32>>::nondegenerate(I::<32>, 1),
        !Mod::<Int>::nondegenerate(Int, 1),
{
    assert(1int % 1int == 0) by (nonlinear_arith);
}

/// The sum of a sequence of integers.
pub open spec fn sum_seq(w: Seq<int>) -> int
    decreases w.len(),
{
    if w.len() == 0 {
        0
    } else {
        sum_seq(w.drop_last()) + w.last()
    }
}

/// The sequence in reverse order.
pub open spec fn reversed(w: Seq<int>) -> Seq<int> {
    Seq::new(w.len(), |i: int| w[w.len() - 1 - i])
}

proof fn lemma_sum_first(w: Seq<int>)
    requires
        w.len() > 0,
    ensures
        sum_seq(w) == w[0] + sum_seq(w.drop_first()),
    decreases w.len(),
{
    if w.len() > 1 {
        lemma_sum_first(w.drop_last());
        assert(w.drop_last().drop_first() =~= w.drop_first().drop_last());
        assert(w.drop_first().last() == w.last());
        assert(sum_seq(w.drop_first()) == sum_seq(w.drop_first().drop_last()) + w.drop_first().last());
    } else {
        assert(w.drop_first().len() == 0);
        assert(w.drop_last().len() == 0);
        assert(sum_seq(w.drop_first()) == 0);
        assert(sum_seq(w.drop_last()) == 0);
    }
}

proof fn lemma_sum_reversed(w: Seq<int>)
    ensures
        sum_seq(reversed(w)) == sum_seq(w),
    decreases w.len(),
{
    if w.len() > 0 {
        lemma_sum_reversed(w.drop_first());
        assert(reversed(w).drop_last() =~= reversed(w.drop_first()));
        lemma_sum_first(w);
    }
}

/// The products `a[k - t] * b[t]` for `t` in `0..=k`, absent coefficients
/// counting as zero.
pub open spec fn conv_terms(a: Seq<int>, b: Seq<int>, k: int) -> Seq<int> {
    Seq::new((k + 1) as nat, |t: int| coef_or(a, k - t, 0) * coef_or(b, t, 0))
}

/// Over integer coefficients, degree `k` of a product accumulated up to
/// index `j` of the right operand is the plain sum of `a[k - t] * b[t]` for
/// `t < j`.
pub proof fn lemma_partial_is_sum(p: DensePolynomial<Int>, a: Seq<int>, b: Seq<int>, k: int, j: int)
    requires
        a.len() > 0,
        b.len() > 0,
        0 <= k < a.len() + b.len() - 1,
        1 <= j <= DensePolynomial::<Int>::conv_hi(b.len() as int, k),
    ensures
        p.conv_partial(a, b, k, j) == sum_seq(conv_terms(a, b, k).take(j)),
    decreases j,
{
    let w = conv_terms(a, b, k);
    let lo = DensePolynomial::<Int>::conv_lo(a.len() as int, k);
    if j == 1 {
        assert(w.take(1).drop_last().len() == 0);
        assert(sum_seq(w.take(1).drop_last()) == 0);
        assert(w.take(1).last() == w[0]);
        assert(coef_or(b, 0, 0) == b[0]);
    } else {
        lemma_partial_is_sum(p, a, b, k, j - 1);
        assert(w.take(j).drop_last() =~= w.take(j - 1));
        assert(w.take(j).last() == w[j - 1]);
        if j <= lo {
            assert(coef_or(a, k - (j - 1), 0) == 0);
            assert(w[j - 1] == 0);
        } else {
            assert(coef_or(a, k - (j - 1), 0) == a[k - (j - 1)]);
            assert(coef_or(b, j - 1, 0) == b[j - 1]);
        }
    }
}

/// Over integer coefficients, degree `k` of a product is the plain sum of
/// `a[k - t] * b[t]` over `t` in `0..=k`, absent coefficients counting as zero.
pub proof fn lemma_conv_is_sum(p: DensePolynomial<Int>, a: Seq<int>, b: Seq<int>, k: int, j: int)
    requires
        a.len() > 0,
        b.len() > 0,
        0 <= k < a.len() + b.len() - 1,
        DensePolynomial::<Int>::conv_hi(b.len() as int, k) <= j <= k + 1,
    ensures
        p.conv(a, b, k) == sum_seq(conv_terms(a, b, k).take(j)),
    decreases j,
{
    let w = conv_terms(a, b, k);
    let hi = DensePolynomial::<Int>::conv_hi(b.len() as int, k);
    if j == hi {
        lemma_partial_is_sum(p, a, b, k, hi);
    } else {
        lemma_conv_is_sum(p, a, b, k, j - 1);
        assert(w.take(j).drop_last() =~= w.take(j - 1));
        assert(w.take(j).last() == w[j - 1]);
        assert(coef_or(b, j - 1, 0) == 0);
        assert(w[j - 1] == 0);
    }
}

/// Over integer coefficients, the product of polynomials is commutative.
pub proof fn law_poly_int_mul_comm(p: DensePolynomial<Int>, a: Seq<int>, b: Seq<int>)
    ensures
        p.spec_mul(a, b) == p.spec_mul(b, a),
{
    if a.len() > 0 && b.len() > 0 {
        let l = p.product(a, b);
        let r = p.product(b, a);
        assert forall|k: int| 0 <= k < l.len() implies #[trigger] l[k] == r[k] by {
            let w = conv_terms(a, b, k);
            let v = conv_terms(b, a, k);
            lemma_conv_is_sum(p, a, b, k, k + 1);
            lemma_conv_is_sum(p, b, a, k, k + 1);
            assert(w.take(k + 1) =~= w);
            assert(v.take(k + 1) =~= v);
            assert forall|t: int| 0 <= t < v.len() implies #[trigger] v[t] == reversed(w)[t] by {
                let x = coef_or(b, k - t, 0);
                let y = coef_or(a, t, 0);
                assert(x * y == y * x) by (nonlinear_arith);
            }
            assert(v =~= reversed(w));
            lemma_sum_reversed(w);
        }
        assert(l =~= r);
    }
}

/// In a commutative ring, `zero` and `one` are identities on the left too.
pub proof fn law_left_identities<S: SRing>(s: S, x: S::M)
    requires
        s.wf(),
        s.minv(x),
    ensures
        s.add_ok(s.spec_zero(), x),
        s.spec_add(s.spec_zero(), x) == x,
        s.mul_ok(s.spec_one(), x),
        s.spec_mul(s.spec_one(), x) == x,
{
    s.lemma_add_zero(x);
    s.lemma_add_comm(x, s.spec_zero());
    s.lemma_mul_one(x);
    s.lemma_mul_comm(x, s.spec_one());
}

/// Over a commutative ring, the constant polynomial `one` is an identity of
/// multiplication on the left.
pub proof fn law_poly_one_left<S: SRing>(p: DensePolynomial<S>, x: Seq<S::M>)
    requires
        p.wf(),
        p.minv(x),
    ensures
        p.mul_ok(p.spec_one(), x),
        p.spec_mul(p.spec_one(), x) == x,
{
    let one = p.spec_one();
    let s = p.inner;
    s.lemma_one();
    s.lemma_zero();
    if x.len() > 0 {
        assert forall|k: int| 0 <= k < x.len() implies #[trigger] coef_or(one, k, s.spec_zero())
            == (if k == 0 {
            s.spec_one()
        } else {
            s.spec_zero()
        }) by {}
        assert forall|k: int| 0 <= k < x.len() implies {
            &&& s.mul_ok(#[trigger] coef_or(one, k, s.spec_zero()), x[0])
            &&& forall|j: int|
                DensePolynomial::<S>::conv_lo(1, k) <= j < DensePolynomial::<S>::conv_hi(
                    x.len() as int,
                    k,
                ) ==> s.fma_ok(#[trigger] p.conv_partial(one, x, k, j), one[k - j], x[j])
        } by {
            law_left_identities(s, x[0]);
            if k > 0 {
                s.lemma_mul_zero(x[0]);
                law_left_identities(s, x[k]);
                s.lemma_fma_zero(s.spec_one(), x[k]);
                assert(p.conv_partial(one, x, k, k) == s.spec_zero());
            }
        }
        let r = p.product(one, x);
        assert forall|k: int| 0 <= k < x.len() implies #[trigger] r[k] == x[k] by {
            law_left_identities(s, x[0]);
            if k > 0 {
                s.lemma_mul_zero(x[0]);
                law_left_identities(s, x[k]);
                s.lemma_fma_zero(s.spec_one(), x[k]);
                assert(p.conv_partial(one, x, k, k) == s.spec_zero());
            }
        }
        assert(r =~= x);
    } else {
        assert(p.product(one, x) =~= x);
    }
}

/// A fused multiply-add of polynomials leaves the accumulator with
/// `max(acc.len(), n + m - 1)` coefficients; where an operand is empty, each
/// coefficient gains `zero`.
pub proof fn law_poly_fma_length<S: SFusedMulAdd>(
    p: DensePolynomial<S>,
    acc: Seq<S::M>,
    a: Seq<S::M>,
    b: Seq<S::M>,
)
    requires
        a.len() + b.len() >= 1,
    ensures
        p.spec_add(acc, p.spec_mul(a, b)).len() == if acc.len() >= a.len() + b.len() - 1 {
            acc.len() as int
        } else {
            a.len() + b.len() - 1
        },
        a.len() == 0 || b.len() == 0 ==> forall|k: int|
            0 <= k < p.spec_add(acc, p.spec_mul(a, b)).len() ==> #[trigger] p.spec_add(
                acc,
                p.spec_mul(a, b),
            )[k] == if k < acc.len() && k < a.len() + b.len() - 1 {
                p.inner.spec_add(acc[k], p.inner.spec_zero())
            } else if k < acc.len() {
                acc[k]
            } else {
                p.inner.spec_zero()
            },
{
}

/// The polynomial sum is the coefficient-wise sum of the operands padded
/// with `zero`, whichever buffer the computation reuses.
pub proof fn law_poly_sum_padded<S: SFusedMulAdd>(p: DensePolynomial<S>, a: Seq<S::M>, b: Seq<S::M>)
    requires
        p.wf(),
        p.minv(a),
        p.minv(b),
    ensures
        forall|i: int|
            0 <= i < p.spec_add(a, b).len() ==> #[trigger] p.spec_add(a, b)[i]
                == p.inner.spec_add(
                coef_or(a, i, p.inner.spec_zero()),
                coef_or(b, i, p.inner.spec_zero()),
            ),
{
    let s = p.inner;
    assert forall|i: int| 0 <= i < p.spec_add(a, b).len() implies #[trigger] p.spec_add(a, b)[i]
        == s.spec_add(coef_or(a, i, s.spec_zero()), coef_or(b, i, s.spec_zero())) by {
        if i >= a.len() {
            s.lemma_add_zero(b[i]);
            s.lemma_add_comm(b[i], s.spec_zero());
        } else if i >= b.len() {
            s.lemma_add_zero(a[i]);
        }
    }
}

/// The polynomial difference is the coefficient-wise difference of the
/// operands padded with `zero`, whichever buffer the computation reuses.
pub proof fn law_poly_diff_padded<S: SFusedMulAdd + SSub>(
    p: DensePolynomial<S>,
    a: Seq<S::M>,
    b: Seq<S::M>,
)
    requires
        p.wf(),
        p.minv(a),
        p.minv(b),
        p.sub_ok(a, b),
    ensures
        forall|i: int|
            0 <= i < p.spec_sub(a, b).len() ==> #[trigger] p.spec_sub(a, b)[i]
                == p.inner.spec_sub(
                coef_or(a, i, p.inner.spec_zero()),
                coef_or(b, i, p.inner.spec_zero()),
            ),
{
    let s = p.inner;
    s.lemma_zero();
    assert forall|i: int| 0 <= i < p.spec_sub(a, b).len() implies #[trigger] p.spec_sub(a, b)[i]
        == s.spec_sub(coef_or(a, i, s.spec_zero()), coef_or(b, i, s.spec_zero())) by {
        if i >= a.len() {
            s.lemma_sub_is_add_neg(s.spec_zero(), b[i]);
            s.lemma_add_zero(s.spec_neg(b[i]));
            s.lemma_add_comm(s.spec_neg(b[i]), s.spec_zero());
        } else if i >= b.len() {
            s.lemma_sub_zero(a[i]);
        }
    }
}

} // verus!
