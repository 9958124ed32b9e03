use crate::decimal::{fmt_nat, nat_decimal};
use crate::structure::{El, SAdd, SFusedMulAdd, SMul, SSub, Structure, SuperStructure};
use vstd::pervasive::VecAdditionalExecFns;
use vstd::prelude::*;
use vstd::string::StringExecFns;

verus! {

/// Polynomials in one symbol over a coefficient structure, held densely: the
/// coefficient at index `i` is that of degree `i`. Trailing zero coefficients
/// may be present.
#[derive(Debug, Clone, PartialEq, Eq)]
pub struct DensePolynomial<S: SFusedMulAdd> {
    pub symbol: String,
    pub inner: S,
}

/// Relies on std's `Vec::capacity`: only steers which operand's buffer is
/// reused, so nothing is assumed of it.
#[verifier::external_body]
fn capacity_of<T>(v: &Vec<T>) -> usize {
    v.capacity()
}

/// Terms joined by ` + `.
pub open spec fn join_terms(ts: Seq<Seq<char>>) -> Seq<char>
    decreases ts.len(),
{
    if ts.len() == 0 {
        Seq::empty()
    } else if ts.len() == 1 {
        ts[0]
    } else {
        join_terms(ts.drop_last()) + seq![' ', '+', ' '] + ts.last()
    }
}

/// The coefficient of degree `i`, or `z` past the end.
pub open spec fn coef_or<T>(a: Seq<T>, i: int, z: T) -> T {
    if 0 <= i < a.len() {
        a[i]
    } else {
        z
    }
}

impl<S: SFusedMulAdd> DensePolynomial<S> {
    /// The polynomial structure in `symbol` over `inner`.
    pub fn new_symb(symbol: &str, inner: &S) -> (r: Self)
        ensures
            r.symbol@ == symbol@,
            r.inner == *inner,
    {
        DensePolynomial { symbol: String::from_str(symbol), inner: inner.clone_s() }
    }

    /// The symbol itself as an element: coefficients `[zero, one]`.
    pub fn symb(&self) -> (r: El<'_, Self>)
        requires
            self.wf(),
        ensures
            r.s == self,
            r.wf(),
            r.val() == seq![self.inner.spec_zero(), self.inner.spec_one()],
    {
        let v = vec![self.inner.zero(), self.inner.one()];
        proof {
            assert(self.model(&v) =~= seq![self.inner.spec_zero(), self.inner.spec_one()]);
        }
        El { v, s: self }
    }

    /// The power of the symbol in a term of degree `d`.
    pub open spec fn power_text(&self, d: int) -> Seq<char> {
        if d == 0 {
            Seq::empty()
        } else if d == 1 {
            self.symbol@
        } else {
            self.symbol@ + seq!['^'] + nat_decimal(d as nat)
        }
    }

    /// The term of degree `d`: the coefficient, left out where it is `one`
    /// and the degree is not zero, then the power of the symbol.
    pub open spec fn term(&self, c: Seq<S::M>, d: int) -> Seq<char> {
        (if d == 0 || c[d] != self.inner.spec_one() {
            self.inner.spec_fmt_v(c[d])
        } else {
            Seq::empty()
        }) + self.power_text(d)
    }

    /// The terms of the nonzero coefficients of degree `k` and above, from
    /// the highest degree down.
    pub open spec fn terms(&self, c: Seq<S::M>, k: int) -> Seq<Seq<char>>
        decreases c.len() - k,
    {
        if k < 0 || k >= c.len() {
            Seq::empty()
        } else if c[k] == self.inner.spec_zero() {
            self.terms(c, k + 1)
        } else {
            self.terms(c, k + 1).push(self.term(c, k))
        }
    }

    /// Coefficient-wise sum, where the shorter operand counts as padded.
    pub open spec fn sum(&self, a: Seq<S::M>, b: Seq<S::M>) -> Seq<S::M> {
        Seq::new(
            if a.len() >= b.len() {
                a.len()
            } else {
                b.len()
            },
            |i: int|
                if i < a.len() && i < b.len() {
                    self.inner.spec_add(a[i], b[i])
                } else if i < a.len() {
                    a[i]
                } else {
                    b[i]
                },
        )
    }

    /// The first index `j > 0` of the right operand that contributes to
    /// degree `k` of a product whose left operand has `n` coefficients.
    pub open spec fn conv_lo(n: int, k: int) -> int {
        if k >= n {
            k - n + 1
        } else {
            1
        }
    }

    /// One past the last index of the right operand (of `m` coefficients)
    /// that contributes to degree `k`.
    pub open spec fn conv_hi(m: int, k: int) -> int {
        if m < k + 1 {
            m
        } else {
            k + 1
        }
    }

    /// Degree `k` of the product `a * b` after the contributions of `b[0]`
    /// and of `b[conv_lo..j]`, accumulated in increasing `j`.
    pub open spec fn conv_partial(&self, a: Seq<S::M>, b: Seq<S::M>, k: int, j: int) -> S::M
        decreases j,
    {
        if j <= Self::conv_lo(a.len() as int, k) {
            self.inner.spec_mul(coef_or(a, k, self.inner.spec_zero()), b[0])
        } else {
            self.inner.spec_add(
                self.conv_partial(a, b, k, j - 1),
                self.inner.spec_mul(a[k - (j - 1)], b[j - 1]),
            )
        }
    }

    /// Degree `k` of the product `a * b`.
    pub open spec fn conv(&self, a: Seq<S::M>, b: Seq<S::M>, k: int) -> S::M {
        self.conv_partial(a, b, k, Self::conv_hi(b.len() as int, k))
    }

    /// The product: `n + m - 1` coefficients (none where both operands are
    /// empty); where one operand is empty, all of them are zero.
    pub open spec fn product(&self, a: Seq<S::M>, b: Seq<S::M>) -> Seq<S::M> {
        if a.len() + b.len() == 0 {
            Seq::empty()
        } else if a.len() == 0 || b.len() == 0 {
            Seq::new((a.len() + b.len() - 1) as nat, |k: int| self.inner.spec_zero())
        } else {
            Seq::new((a.len() + b.len() - 1) as nat, |k: int| self.conv(a, b, k))
        }
    }

    /// Every step of the product fits the coefficients' machine limits, and
    /// so does its length.
    pub open spec fn product_ok(&self, a: Seq<S::M>, b: Seq<S::M>) -> bool {
        a.len() > 0 && b.len() > 0 ==> {
            &&& a.len() - 1 + b.len() <= usize::MAX
            &&& forall|k: int|
                0 <= k < a.len() + b.len() - 1 ==> {
                    &&& self.inner.mul_ok(#[trigger] coef_or(a, k, self.inner.spec_zero()), b[0])
                    &&& forall|j: int|
                        Self::conv_lo(a.len() as int, k) <= j < Self::conv_hi(b.len() as int, k)
                            ==> self.inner.fma_ok(
                            #[trigger] self.conv_partial(a, b, k, j),
                            a[k - j],
                            b[j],
                        )
                }
        }
    }

    proof fn lemma_partial_minv(&self, a: Seq<S::M>, b: Seq<S::M>, k: int, j: int)
        requires
            self.wf(),
            self.minv(a),
            self.minv(b),
            a.len() > 0,
            b.len() > 0,
            self.product_ok(a, b),
            0 <= k < a.len() + b.len() - 1,
            j <= Self::conv_hi(b.len() as int, k),
        ensures
            self.inner.minv(self.conv_partial(a, b, k, j)),
        decreases j,
    {
        if j <= Self::conv_lo(a.len() as int, k) {
            self.inner.lemma_zero();
            self.inner.lemma_mul_closed(coef_or(a, k, self.inner.spec_zero()), b[0]);
        } else {
            self.lemma_partial_minv(a, b, k, j - 1);
            assert(self.inner.mul_ok(coef_or(a, k, self.inner.spec_zero()), b[0]));
            assert(self.inner.fma_ok(self.conv_partial(a, b, k, j - 1), a[k - (j - 1)], b[j - 1]));
            self.inner.lemma_fma_closed(self.conv_partial(a, b, k, j - 1), a[k - (j - 1)], b[j - 1]);
        }
    }

    /// Adds `src` into `target` coefficient by coefficient; `flip` says that
    /// `target` holds the right operand.
    fn add_into(&self, target: Vec<S::V>, src: &Vec<S::V>, flip: bool) -> (r: Vec<S::V>)
        requires
            self.wf(),
            self.inv(&target),
            self.inv(src),
            flip ==> self.add_ok(self.model(src), self.model(&target)),
            !flip ==> self.add_ok(self.model(&target), self.model(src)),
        ensures
            self.inv(&r),
            flip ==> self.model(&r) == self.sum(self.model(src), self.model(&target)),
            !flip ==> self.model(&r) == self.sum(self.model(&target), self.model(src)),
    {
        let mut t = target;
        let n = t.len();
        let mut i: usize = 0;
        while i < n && i < src.len()
            invariant
                self.wf(),
                self.inv(src),
                t.len() == n,
                n == target.len(),
                i <= n,
                i <= src.len(),
                forall|k: int| 0 <= k < n ==> self.inner.inv(#[trigger] &t[k]),
                forall|k: int| i <= k < n ==> t[k] == target[k],
                flip ==> self.add_ok(self.model(src), self.model(&target)),
                !flip ==> self.add_ok(self.model(&target), self.model(src)),
                forall|k: int|
                    0 <= k < i ==> #[trigger] self.inner.model(&t[k]) == if flip {
                        self.inner.spec_add(self.inner.model(&src[k]), self.inner.model(&target[k]))
                    } else {
                        self.inner.spec_add(self.inner.model(&target[k]), self.inner.model(&src[k]))
                    },
            decreases n - i,
        {
            let mut x = self.inner.zero();
            t.set_and_swap(i, &mut x);
            proof {
                assert(self.model(src)[i as int] == self.inner.model(&src[i as int]));
                assert(self.model(&target)[i as int] == self.inner.model(&target[i as int]));
                self.inner.lemma_add_comm(self.inner.model(&src[i as int]), self.inner.model(&x));
            }
            let y = self.inner.add(x, self.inner.clone_v(&src[i]));
            t.set(i, y);
            i += 1;
        }
        while i < src.len()
            invariant
                self.wf(),
                self.inv(src),
                i <= src.len(),
                i >= n || i == src.len(),
                n < src.len() ==> t.len() == i,
                n >= src.len() ==> t.len() == n,
                forall|k: int| 0 <= k < t.len() ==> self.inner.inv(#[trigger] &t[k]),
                forall|k: int| i <= k < t.len() ==> t[k] == target[k],
                forall|k: int|
                    0 <= k < t.len() ==> #[trigger] self.inner.model(&t[k]) == if k < n && k < src.len() {
                        if flip {
                            self.inner.spec_add(self.inner.model(&src[k]), self.inner.model(&target[k]))
                        } else {
                            self.inner.spec_add(self.inner.model(&target[k]), self.inner.model(&src[k]))
                        }
                    } else if k < n {
                        self.inner.model(&target[k])
                    } else {
                        self.inner.model(&src[k])
                    },
            decreases src.len() - i,
        {
            t.push(self.inner.clone_v(&src[i]));
            i += 1;
        }
        proof {
            let a = self.model(&target);
            let b = self.model(src);
            if flip {
                assert(self.model(&t) =~= self.sum(b, a));
            } else {
                assert(self.model(&t) =~= self.sum(a, b));
            }
        }
        t
    }
}

impl<S: SFusedMulAdd> Structure for DensePolynomial<S> {
    type V = Vec<S::V>;

    type M = Seq<S::M>;

    open spec fn wf(&self) -> bool {
        self.inner.wf()
    }

    open spec fn inv(&self, v: &Vec<S::V>) -> bool {
        forall|i: int| 0 <= i < v.len() ==> self.inner.inv(#[trigger] &v[i])
    }

    open spec fn model(&self, v: &Vec<S::V>) -> Seq<S::M> {
        Seq::new(v.len() as nat, |i: int| self.inner.model(&v[i]))
    }

    open spec fn minv(&self, m: Seq<S::M>) -> bool {
        &&& m.len() <= usize::MAX
        &&& forall|i: int| 0 <= i < m.len() ==> self.inner.minv(#[trigger] m[i])
    }

    /// The nonzero terms from the highest degree down, joined by ` + `.
    open spec fn spec_fmt_v(&self, m: Seq<S::M>) -> Seq<char> {
        join_terms(self.terms(m, 0))
    }

    /// `poly <symbol>, <inner>`.
    open spec fn spec_name(&self) -> Seq<char> {
        seq!['p', 'o', 'l', 'y', ' '] + self.symbol@ + seq![',', ' '] + self.inner.spec_name()
    }

    fn name(&self) -> (r: String) {
        proof {
            reveal_strlit("poly ");
            reveal_strlit(", ");
        }
        let mut r = String::from_str("poly ");
        r.append(self.symbol.as_str());
        r.append(", ");
        r.append(self.inner.name().as_str());
        r
    }

    fn fmt_v(&self, v: &Vec<S::V>) -> (r: String) {
        let ghost c = self.model(v);
        let zero = self.inner.zero();
        let one = self.inner.one();
        let mut r = String::new();
        let mut first = true;
        let mut k = v.len();
        while k > 0
            invariant
                self.wf(),
                self.inv(v),
                c == self.model(v),
                k <= v.len(),
                self.inner.inv(&zero),
                self.inner.model(&zero) == self.inner.spec_zero(),
                self.inner.inv(&one),
                self.inner.model(&one) == self.inner.spec_one(),
                r@ == join_terms(self.terms(c, k as int)),
                first == (self.terms(c, k as int).len() == 0),
            decreases k,
        {
            k -= 1;
            proof {
                reveal_strlit(" + ");
                reveal_strlit("^");
            }
            let ghost before = self.terms(c, k + 1);
            proof {
                assert(c[k as int] == self.inner.model(&v[k as int]));
            }
            if !self.inner.eq_v(&v[k], &zero) {
                let ghost start = r@;
                if !first {
                    r.append(" + ");
                }
                let ghost mid = r@;
                let mut tm = String::new();
                if k == 0 || !self.inner.eq_v(&v[k], &one) {
                    tm.append(self.inner.fmt_v(&v[k]).as_str());
                }
                let ghost coef_text = tm@;
                if k == 1 {
                    tm.append(self.symbol.as_str());
                } else if k > 1 {
                    tm.append(self.symbol.as_str());
                    tm.append("^");
                    tm.append(fmt_nat(k as u64).as_str());
                }
                proof {
                    let t = self.term(c, k as int);
                    assert(tm@ =~= coef_text + self.power_text(k as int));
                    assert(tm@ =~= t);
                    assert(self.terms(c, k as int) == before.push(t));
                    assert(before.push(t).drop_last() =~= before);
                }
                r.append(tm.as_str());
                first = false;
            }
        }
        r
    }

    fn clone_v(&self, v: &Vec<S::V>) -> (r: Vec<S::V>) {
        let mut r: Vec<S::V> = Vec::new();
        let mut i: usize = 0;
        while i < v.len()
            invariant
                self.wf(),
                self.inv(v),
                i <= v.len(),
                r.len() == i,
                forall|k: int| 0 <= k < i ==> self.inner.inv(#[trigger] &r[k]),
                forall|k: int| 0 <= k < i ==> #[trigger] self.inner.model(&r[k]) == self.inner.model(&v[k]),
            decreases v.len() - i,
        {
            r.push(self.inner.clone_v(&v[i]));
            i += 1;
        }
        proof {
            assert(self.model(&r) =~= self.model(v));
        }
        r
    }

    fn clone_s(&self) -> (r: Self) {
        DensePolynomial { symbol: self.symbol.clone(), inner: self.inner.clone_s() }
    }

    fn eq_v(&self, a: &Vec<S::V>, b: &Vec<S::V>) -> (r: bool) {
        if a.len() != b.len() {
            proof {
                assert(self.model(a).len() != self.model(b).len());
            }
            return false;
        }
        let mut i: usize = 0;
        while i < a.len()
            invariant
                self.wf(),
                self.inv(a),
                self.inv(b),
                a.len() == b.len(),
                i <= a.len(),
                forall|k: int| 0 <= k < i ==> #[trigger] self.inner.model(&a[k]) == self.inner.model(&b[k]),
            decreases a.len() - i,
        {
            if !self.inner.eq_v(&a[i], &b[i]) {
                proof {
                    assert(self.model(a)[i as int] != self.model(b)[i as int]);
                }
                return false;
            }
            i += 1;
        }
        proof {
            assert(self.model(a) =~= self.model(b));
        }
        true
    }
}

impl<S: SFusedMulAdd> SuperStructure for DensePolynomial<S> {
    type Inner = S;

    open spec fn spec_inner(&self) -> S {
        self.inner
    }

    /// A value becomes the constant polynomial.
    open spec fn spec_lift(&self, m: S::M) -> Seq<S::M> {
        seq![m]
    }

    proof fn lemma_inner_wf(&self) {
    }

    fn inner(&self) -> (r: &S) {
        &self.inner
    }

    fn lifted_from<'a>(&'a self, e: El<'a, S>) -> (r: El<'a, Self>) {
        let v = vec![e.v];
        proof {
            assert(self.model(&v) =~= seq![e.val()]);
        }
        El { v, s: self }
    }
}

impl<S: SFusedMulAdd> SAdd for DensePolynomial<S> {
    open spec fn spec_zero(&self) -> Seq<S::M> {
        Seq::empty()
    }

    open spec fn spec_add(&self, a: Seq<S::M>, b: Seq<S::M>) -> Seq<S::M> {
        self.sum(a, b)
    }

    open spec fn add_ok(&self, a: Seq<S::M>, b: Seq<S::M>) -> bool {
        forall|i: int| 0 <= i < a.len() && i < b.len() ==> self.inner.add_ok(#[trigger] a[i], b[i])
    }

    fn zero(&self) -> (r: Vec<S::V>) {
        let r: Vec<S::V> = Vec::new();
        proof {
            assert(self.model(&r) =~= Seq::<S::M>::empty());
        }
        r
    }

    /// Reuses the buffer of the operand with the larger spare capacity.
    fn add(&self, lhs: Vec<S::V>, rhs: Vec<S::V>) -> (r: Vec<S::V>) {
        proof {
            self.lemma_add_comm(self.model(&lhs), self.model(&rhs));
        }
        if capacity_of(&rhs) > capacity_of(&lhs) {
            self.add_into(rhs, &lhs, true)
        } else {
            self.add_into(lhs, &rhs, false)
        }
    }

    proof fn lemma_zero(&self) {
    }

    proof fn lemma_add_closed(&self, a: Seq<S::M>, b: Seq<S::M>) {
        assert forall|i: int| 0 <= i < self.sum(a, b).len() implies self.inner.minv(
            #[trigger] self.sum(a, b)[i],
        ) by {
            if i < a.len() && i < b.len() {
                self.inner.lemma_add_closed(a[i], b[i]);
            }
        }
    }

    proof fn lemma_add_zero(&self, a: Seq<S::M>) {
        assert(self.sum(a, Seq::empty()) =~= a);
    }

    proof fn lemma_add_comm(&self, a: Seq<S::M>, b: Seq<S::M>) {
        assert forall|i: int| 0 <= i < a.len() && i < b.len() implies self.inner.add_ok(
            #[trigger] a[i],
            b[i],
        ) == self.inner.add_ok(b[i], a[i]) && self.inner.spec_add(a[i], b[i])
            == self.inner.spec_add(b[i], a[i]) by {
            self.inner.lemma_add_comm(a[i], b[i]);
        }
        assert(self.sum(a, b) =~= self.sum(b, a));
    }

    proof fn lemma_add_assoc(&self, a: Seq<S::M>, b: Seq<S::M>, c: Seq<S::M>) {
        let l = self.sum(self.sum(a, b), c);
        let r = self.sum(a, self.sum(b, c));
        assert forall|i: int| 0 <= i < l.len() implies #[trigger] l[i] == r[i] by {
            if i < a.len() && i < b.len() && i < c.len() {
                self.inner.lemma_add_assoc(a[i], b[i], c[i]);
            }
        }
        assert(l =~= r);
    }
}

impl<S: SFusedMulAdd + SSub> DensePolynomial<S> {
    /// Coefficient-wise difference, where the shorter operand counts as padded.
    pub open spec fn diff(&self, a: Seq<S::M>, b: Seq<S::M>) -> Seq<S::M> {
        Seq::new(
            if a.len() >= b.len() {
                a.len()
            } else {
                b.len()
            },
            |i: int| self.diff_at(a, b, i),
        )
    }

    /// The coefficient of degree `i` of the difference.
    pub open spec fn diff_at(&self, a: Seq<S::M>, b: Seq<S::M>, i: int) -> S::M {
        if i < a.len() && i < b.len() {
            self.inner.spec_sub(a[i], b[i])
        } else if i < a.len() {
            a[i]
        } else {
            self.inner.spec_neg(b[i])
        }
    }

    /// `lhs - rhs`, computed in the buffer of `lhs`.
    fn sub_in_left(&self, lhs: Vec<S::V>, rhs: &Vec<S::V>) -> (r: Vec<S::V>)
        requires
            self.wf(),
            self.inv(&lhs),
            self.inv(rhs),
            self.sub_ok(self.model(&lhs), self.model(rhs)),
        ensures
            self.inv(&r),
            self.model(&r) == self.diff(self.model(&lhs), self.model(rhs)),
    {
        let ghost a = self.model(&lhs);
        let ghost b = self.model(rhs);
        let mut t = lhs;
        let n = t.len();
        let mut i: usize = 0;
        while i < n
            invariant
                self.wf(),
                self.inv(rhs),
                a == self.model(&lhs),
                b == self.model(rhs),
                self.sub_ok(a, b),
                t.len() == n,
                n == lhs.len(),
                i <= n,
                forall|k: int| 0 <= k < n ==> self.inner.inv(#[trigger] &t[k]),
                forall|k: int| i <= k < n ==> t[k] == lhs[k],
                forall|k: int| 0 <= k < i ==> #[trigger] self.inner.model(&t[k]) == self.diff_at(a, b, k),
            decreases n - i,
        {
            if i < rhs.len() {
                let mut x = self.inner.zero();
                t.set_and_swap(i, &mut x);
                proof {
                    assert(a[i as int] == self.inner.model(&x));
                    assert(b[i as int] == self.inner.model(&rhs[i as int]));
                }
                let y = self.inner.sub(x, self.inner.clone_v(&rhs[i]));
                t.set(i, y);
            }
            proof {
                assert(a[i as int] == self.inner.model(&lhs[i as int]));
            }
            i += 1;
        }
        while i < rhs.len()
            invariant
                self.wf(),
                self.inv(rhs),
                b == self.model(rhs),
                self.sub_ok(a, b),
                n == a.len(),
                n <= i <= rhs.len() || i == n,
                t.len() == i,
                forall|k: int| 0 <= k < i ==> self.inner.inv(#[trigger] &t[k]),
                forall|k: int| 0 <= k < i ==> #[trigger] self.inner.model(&t[k]) == self.diff_at(a, b, k),
            decreases rhs.len() - i,
        {
            let mut x = self.inner.clone_v(&rhs[i]);
            proof {
                assert(b[i as int] == self.inner.model(&rhs[i as int]));
            }
            self.inner.negate(&mut x);
            t.push(x);
            i += 1;
        }
        proof {
            assert(self.model(&t) =~= self.diff(a, b));
        }
        t
    }

    /// `lhs - rhs`, computed in the buffer of `rhs`.
    fn sub_in_right(&self, lhs: &Vec<S::V>, rhs: Vec<S::V>) -> (r: Vec<S::V>)
        requires
            self.wf(),
            self.inv(lhs),
            self.inv(&rhs),
            self.sub_ok(self.model(lhs), self.model(&rhs)),
        ensures
            self.inv(&r),
            self.model(&r) == self.diff(self.model(lhs), self.model(&rhs)),
    {
        let ghost a = self.model(lhs);
        let ghost b = self.model(&rhs);
        let mut t = rhs;
        let n = t.len();
        let mut i: usize = 0;
        while i < n
            invariant
                self.wf(),
                self.inv(lhs),
                a == self.model(lhs),
                b == self.model(&rhs),
                self.sub_ok(a, b),
                t.len() == n,
                n == rhs.len(),
                i <= n,
                forall|k: int| 0 <= k < n ==> self.inner.inv(#[trigger] &t[k]),
                forall|k: int| i <= k < n ==> t[k] == rhs[k],
                forall|k: int| 0 <= k < i ==> #[trigger] self.inner.model(&t[k]) == self.diff_at(a, b, k),
            decreases n - i,
        {
            let mut x = self.inner.zero();
            t.set_and_swap(i, &mut x);
            proof {
                assert(b[i as int] == self.inner.model(&x));
            }
            if i < lhs.len() {
                proof {
                    assert(a[i as int] == self.inner.model(&lhs[i as int]));
                }
                let y = self.inner.sub(self.inner.clone_v(&lhs[i]), x);
                t.set(i, y);
            } else {
                self.inner.negate(&mut x);
                t.set(i, x);
            }
            i += 1;
        }
        while i < lhs.len()
            invariant
                self.wf(),
                self.inv(lhs),
                a == self.model(lhs),
                n == b.len(),
                n <= i <= lhs.len() || i == n,
                t.len() == i,
                forall|k: int| 0 <= k < i ==> self.inner.inv(#[trigger] &t[k]),
                forall|k: int| 0 <= k < i ==> #[trigger] self.inner.model(&t[k]) == self.diff_at(a, b, k),
            decreases lhs.len() - i,
        {
            proof {
                assert(a[i as int] == self.inner.model(&lhs[i as int]));
            }
            t.push(self.inner.clone_v(&lhs[i]));
            i += 1;
        }
        proof {
            assert(self.model(&t) =~= self.diff(a, b));
        }
        t
    }
}

impl<S: SFusedMulAdd + SSub> SSub for DensePolynomial<S> {
    open spec fn spec_neg(&self, a: Seq<S::M>) -> Seq<S::M> {
        Seq::new(a.len(), |i: int| self.inner.spec_neg(a[i]))
    }

    open spec fn spec_sub(&self, a: Seq<S::M>, b: Seq<S::M>) -> Seq<S::M> {
        self.diff(a, b)
    }

    open spec fn neg_ok(&self, a: Seq<S::M>) -> bool {
        forall|i: int| 0 <= i < a.len() ==> self.inner.neg_ok(#[trigger] a[i])
    }

    open spec fn sub_ok(&self, a: Seq<S::M>, b: Seq<S::M>) -> bool {
        &&& forall|i: int|
            0 <= i < a.len() && i < b.len() ==> self.inner.sub_ok(#[trigger] a[i], b[i])
        &&& forall|i: int| a.len() <= i < b.len() ==> self.inner.neg_ok(#[trigger] b[i])
    }

    fn negate(&self, v: &mut Vec<S::V>) {
        let ghost a = self.model(old(v));
        let n = v.len();
        let mut i: usize = 0;
        while i < n
            invariant
                self.wf(),
                a == self.model(old(v)),
                self.neg_ok(a),
                v.len() == n,
                n == old(v).len(),
                i <= n,
                forall|k: int| 0 <= k < n ==> self.inner.inv(#[trigger] &v[k]),
                forall|k: int| i <= k < n ==> v[k] == old(v)[k],
                forall|k: int|
                    0 <= k < i ==> #[trigger] self.inner.model(&v[k]) == self.inner.spec_neg(a[k]),
            decreases n - i,
        {
            let mut x = self.inner.zero();
            v.set_and_swap(i, &mut x);
            proof {
                assert(a[i as int] == self.inner.model(&x));
            }
            self.inner.negate(&mut x);
            v.set(i, x);
            i += 1;
        }
        proof {
            assert(self.model(v) =~= self.spec_neg(a));
        }
    }

    /// Reuses the buffer of `lhs` unless `rhs` has the larger spare capacity.
    fn sub(&self, lhs: Vec<S::V>, rhs: Vec<S::V>) -> (r: Vec<S::V>) {
        if capacity_of(&lhs) >= capacity_of(&rhs) {
            self.sub_in_left(lhs, &rhs)
        } else {
            self.sub_in_right(&lhs, rhs)
        }
    }

    proof fn lemma_sub_zero(&self, a: Seq<S::M>) {
        assert(self.diff(a, Seq::empty()) =~= a);
    }

    proof fn lemma_neg_zero(&self) {
        assert(self.spec_neg(Seq::empty()) =~= Seq::<S::M>::empty());
    }

    proof fn lemma_sub_is_add_neg(&self, a: Seq<S::M>, b: Seq<S::M>) {
        let nb = self.spec_neg(b);
        let l = self.diff(a, b);
        let r = self.sum(a, nb);
        assert forall|i: int| 0 <= i < l.len() implies #[trigger] l[i] == r[i] by {
            if i < a.len() && i < b.len() {
                self.inner.lemma_sub_is_add_neg(a[i], b[i]);
            }
        }
        assert forall|i: int| 0 <= i < nb.len() implies self.inner.minv(#[trigger] nb[i]) by {
            self.inner.lemma_sub_is_add_neg(b[i], b[i]);
        }
        assert(l =~= r);
    }
}

impl<S: SFusedMulAdd> SMul for DensePolynomial<S> {
    open spec fn spec_one(&self) -> Seq<S::M> {
        seq![self.inner.spec_one()]
    }

    open spec fn spec_mul(&self, a: Seq<S::M>, b: Seq<S::M>) -> Seq<S::M> {
        self.product(a, b)
    }

    open spec fn mul_ok(&self, a: Seq<S::M>, b: Seq<S::M>) -> bool {
        self.product_ok(a, b)
    }

    fn one(&self) -> (r: Vec<S::V>) {
        let r = vec![self.inner.one()];
        proof {
            assert(self.model(&r) =~= seq![self.inner.spec_one()]);
        }
        r
    }

    /// Schoolbook convolution in the buffer of `lhs`, from the highest degree
    /// down, so that every coefficient read as a factor has not been overwritten yet.
    fn mul(&self, lhs: Vec<S::V>, rhs: Vec<S::V>) -> (r: Vec<S::V>) {
        let ghost a = self.model(&lhs);
        let ghost b = self.model(&rhs);
        if lhs.len() == 0 || rhs.len() == 0 {
            let len: usize = if lhs.len() == 0 {
                if rhs.len() == 0 {
                    0
                } else {
                    rhs.len() - 1
                }
            } else {
                lhs.len() - 1
            };
            let mut r: Vec<S::V> = Vec::new();
            while r.len() < len
                invariant
                    self.wf(),
                    r.len() <= len,
                    forall|i: int| 0 <= i < r.len() ==> self.inner.inv(#[trigger] &r[i]),
                    forall|i: int|
                        0 <= i < r.len() ==> #[trigger] self.inner.model(&r[i])
                            == self.inner.spec_zero(),
                decreases len - r.len(),
            {
                r.push(self.inner.zero());
            }
            proof {
                assert(self.model(&r) =~= self.product(a, b));
            }
            return r;
        }
        let n = lhs.len();
        let m = rhs.len();
        let len = n - 1 + m;
        let mut t = lhs;
        while t.len() < len
            invariant
                self.wf(),
                n <= t.len() <= len,
                a == self.model(&lhs),
                n == lhs.len(),
                forall|i: int| 0 <= i < t.len() ==> self.inner.inv(#[trigger] &t[i]),
                forall|i: int|
                    0 <= i < t.len() ==> #[trigger] self.inner.model(&t[i]) == coef_or(
                        a,
                        i,
                        self.inner.spec_zero(),
                    ),
            decreases len - t.len(),
        {
            t.push(self.inner.zero());
        }
        let mut k = len;
        while k > 0
            invariant
                self.wf(),
                self.inv(&rhs),
                a == self.model(&lhs),
                b == self.model(&rhs),
                n == a.len(),
                m == b.len(),
                n > 0,
                m > 0,
                len == n + m - 1,
                self.product_ok(a, b),
                t.len() == len,
                k <= len,
                forall|i: int| 0 <= i < len ==> self.inner.inv(#[trigger] &t[i]),
                forall|i: int|
                    0 <= i < k ==> #[trigger] self.inner.model(&t[i]) == coef_or(
                        a,
                        i,
                        self.inner.spec_zero(),
                    ),
                forall|i: int| k <= i < len ==> #[trigger] self.inner.model(&t[i]) == self.conv(a, b, i),
            decreases k,
        {
            k -= 1;
            let mut acc = self.inner.zero();
            t.set_and_swap(k, &mut acc);
            proof {
                assert(b[0] == self.inner.model(&rhs[0]));
                assert(self.inner.mul_ok(coef_or(a, k as int, self.inner.spec_zero()), b[0]));
            }
            acc = self.inner.mul(acc, self.inner.clone_v(&rhs[0]));
            let lo: usize = if k >= n {
                k - n + 1
            } else {
                1
            };
            let hi: usize = if m < k + 1 {
                m
            } else {
                k + 1
            };
            let mut j = lo;
            while j < hi
                invariant
                    self.wf(),
                    self.inv(&rhs),
                    a == self.model(&lhs),
                    b == self.model(&rhs),
                    n == a.len(),
                    m == b.len(),
                    len == n + m - 1,
                    self.product_ok(a, b),
                    t.len() == len,
                    k < len,
                    lo == Self::conv_lo(n as int, k as int),
                    hi == Self::conv_hi(m as int, k as int),
                    lo <= j <= hi,
                    forall|i: int| 0 <= i < len ==> self.inner.inv(#[trigger] &t[i]),
                    forall|i: int|
                        0 <= i < k ==> #[trigger] self.inner.model(&t[i]) == coef_or(
                            a,
                            i,
                            self.inner.spec_zero(),
                        ),
                    self.inner.inv(&acc),
                    self.inner.model(&acc) == self.conv_partial(a, b, k as int, j as int),
                decreases hi - j,
            {
                proof {
                    assert(self.inner.model(&t[k - j]) == a[k - j]);
                    assert(b[j as int] == self.inner.model(&rhs[j as int]));
                    assert(self.inner.mul_ok(coef_or(a, k as int, self.inner.spec_zero()), b[0]));
                    assert(self.inner.fma_ok(self.conv_partial(a, b, k as int, j as int), a[k - j], b[j as int]));
                }
                self.inner.fused_mul_add_ref(&mut acc, &t[k - j], &rhs[j]);
                j += 1;
            }
            t.set(k, acc);
        }
        proof {
            assert(self.model(&t) =~= self.product(a, b));
        }
        t
    }

    proof fn lemma_one(&self) {
        self.inner.lemma_one();
    }

    proof fn lemma_mul_closed(&self, a: Seq<S::M>, b: Seq<S::M>) {
        let p = self.product(a, b);
        self.inner.lemma_zero();
        assert forall|k: int| 0 <= k < p.len() implies self.inner.minv(#[trigger] p[k]) by {
            if a.len() > 0 && b.len() > 0 {
                self.lemma_partial_minv(a, b, k, Self::conv_hi(b.len() as int, k));
            }
        }
    }

    proof fn lemma_mul_one(&self, a: Seq<S::M>) {
        let one = seq![self.inner.spec_one()];
        assert forall|k: int| 0 <= k < a.len() implies self.inner.mul_ok(
            #[trigger] coef_or(a, k, self.inner.spec_zero()),
            one[0],
        ) && self.inner.spec_mul(coef_or(a, k, self.inner.spec_zero()), one[0]) == a[k] by {
            self.inner.lemma_mul_one(a[k]);
        }
        assert(self.product(a, one) =~= a);
    }
}

impl<S: SFusedMulAdd> SFusedMulAdd for DensePolynomial<S> {
    open spec fn fma_ok(&self, acc: Seq<S::M>, a: Seq<S::M>, b: Seq<S::M>) -> bool {
        self.product_ok(a, b) && self.add_ok(acc, self.product(a, b))
    }

    /// Adds the product to the accumulator.
    fn fused_mul_add_ref(&self, acc: &mut Vec<S::V>, lhs: &Vec<S::V>, rhs: &Vec<S::V>) {
        let p = self.mul(self.clone_v(lhs), self.clone_v(rhs));
        let mut a: Vec<S::V> = Vec::new();
        std::mem::swap(acc, &mut a);
        *acc = self.add(a, p);
    }

    proof fn lemma_fma_zero(&self, a: Seq<S::M>, b: Seq<S::M>) {
        assert(self.sum(Seq::empty(), self.product(a, b)) =~= self.product(a, b));
    }

    proof fn lemma_fma_closed(&self, acc: Seq<S::M>, a: Seq<S::M>, b: Seq<S::M>) {
        self.lemma_mul_closed(a, b);
        self.lemma_add_closed(acc, self.product(a, b));
    }
}

} // verus!
