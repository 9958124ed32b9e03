use vstd::prelude::*;
use vstd::string::StringExecFns;

verus! {

/// An algebraic structure: a descriptor of the arithmetic on values of type `V`.
///
/// Each value has a mathematical model of type `M`; the capability traits
/// state their operations over these models.
pub trait Structure: Sized {
    type V;

    type M;

    /// The structure itself is well formed (e.g. a modulus is not degenerate).
    spec fn wf(&self) -> bool;

    /// A concrete value is a well-formed value of this structure.
    spec fn inv(&self, v: &Self::V) -> bool;

    /// The mathematical model of a value.
    spec fn model(&self, v: &Self::V) -> Self::M;

    /// A model is an element in canonical form (e.g. reduced modulo the modulus).
    spec fn minv(&self, m: Self::M) -> bool;

    /// The text that displays a value with model `m`.
    spec fn spec_fmt_v(&self, m: Self::M) -> Seq<char>;

    /// The text that names the structure.
    spec fn spec_name(&self) -> Seq<char>;

    fn name(&self) -> (r: String)
        requires
            self.wf(),
        ensures
            r@ == self.spec_name(),
    ;

    fn fmt_v(&self, v: &Self::V) -> (r: String)
        requires
            self.wf(),
            self.inv(v),
        ensures
            r@ == self.spec_fmt_v(self.model(v)),
    ;

    /// Duplicates a value.
    fn clone_v(&self, v: &Self::V) -> (r: Self::V)
        requires
            self.wf(),
            self.inv(v),
        ensures
            self.inv(&r),
            self.model(&r) == self.model(v),
    ;

    /// Compares two values by their models.
    fn eq_v(&self, a: &Self::V, b: &Self::V) -> (r: bool)
        requires
            self.wf(),
            self.inv(a),
            self.inv(b),
        ensures
            r == (self.model(a) == self.model(b)),
    ;

    /// An exact copy of the structure.
    fn clone_s(&self) -> (r: Self)
        ensures
            r == *self,
    ;

    /// Wraps a raw value as an element of this structure.
    fn el<'a>(&'a self, v: Self::V) -> (r: El<'a, Self>)
        ensures
            r.s == self,
            r.v == v,
    {
        El { v, s: self }
    }
}

/// A value paired with the structure that defines its arithmetic.
pub struct El<'a, S: Structure> {
    pub v: S::V,
    pub s: &'a S,
}

impl<'a, S: Structure> El<'a, S> {
    /// The element is a well-formed value of a well-formed structure.
    pub open spec fn wf(&self) -> bool {
        self.s.wf() && self.s.inv(&self.v)
    }

    /// The model of the element's value.
    pub open spec fn val(&self) -> S::M {
        self.s.model(&self.v)
    }

    /// The element's value followed by its structure in parentheses.
    pub open spec fn spec_text(&self) -> Seq<char> {
        self.s.spec_fmt_v(self.val()) + seq![' ', '('] + self.s.spec_name() + seq![')']
    }

    /// Displays the element: its value, then its structure in parentheses.
    pub fn to_text(&self) -> (r: String)
        requires
            self.wf(),
        ensures
            r@ == self.spec_text(),
    {
        proof {
            reveal_strlit(" (");
            reveal_strlit(")");
        }
        let mut r = self.s.fmt_v(&self.v);
        r.append(" (");
        r.append(self.s.name().as_str());
        r.append(")");
        r
    }

    /// A second element with the same value and structure.
    pub fn copy(&self) -> (r: El<'a, S>)
        requires
            self.wf(),
        ensures
            r.s == self.s,
            r.wf(),
            r.val() == self.val(),
    {
        El { v: self.s.clone_v(&self.v), s: self.s }
    }

    /// Ties the element to another reference of the same structure.
    pub fn extend_lifetime<'b>(self, s: &'b S) -> (r: El<'b, S>)
        requires
            *self.s == *s,
        ensures
            r.s == s,
            r.v == self.v,
    {
        El { v: self.v, s }
    }

    /// Lifts the element into a structure one level up.
    pub fn lift<S1: SuperStructure<Inner = S>>(self, s1: &'a S1) -> (r: El<'a, S1>)
        requires
            s1.wf(),
            s1.spec_inner() == *self.s,
            self.s.inv(&self.v),
        ensures
            r.s == s1,
            r.wf(),
            r.val() == s1.spec_lift(self.val()),
    {
        s1.lifted_from(self)
    }

    /// Lifts the element through two levels of composition.
    pub fn lift2<S2: SuperStructure>(self, s2: &'a S2) -> (r: El<'a, S2>)
        where
            S2::Inner: SuperStructure<Inner = S>,
        requires
            s2.wf(),
            s2.spec_inner().spec_inner() == *self.s,
            self.s.inv(&self.v),
        ensures
            r.s == s2,
            r.wf(),
            r.val() == s2.spec_lift(s2.spec_inner().spec_lift(self.val())),
    {
        proof {
            s2.lemma_inner_wf();
        }
        self.lift(s2.inner()).lift(s2)
    }

    /// Lifts the element through three levels of composition.
    pub fn lift3<S3: SuperStructure>(self, s3: &'a S3) -> (r: El<'a, S3>)
        where
            S3::Inner: SuperStructure,
            <S3::Inner as SuperStructure>::Inner: SuperStructure<Inner = S>,
        requires
            s3.wf(),
            s3.spec_inner().spec_inner().spec_inner() == *self.s,
            self.s.inv(&self.v),
        ensures
            r.s == s3,
            r.wf(),
            r.val() == s3.spec_lift(
                s3.spec_inner().spec_lift(s3.spec_inner().spec_inner().spec_lift(self.val())),
            ),
    {
        proof {
            s3.lemma_inner_wf();
        }
        self.lift2(s3.inner()).lift(s3)
    }

    /// Lifts the element through four levels of composition.
    pub fn lift4<S4: SuperStructure>(self, s4: &'a S4) -> (r: El<'a, S4>)
        where
            S4::Inner: SuperStructure,
            <S4::Inner as SuperStructure>::Inner: SuperStructure,
            <<S4::Inner as SuperStructure>::Inner as SuperStructure>::Inner: SuperStructure<
                Inner = S,
            >,
        requires
            s4.wf(),
            s4.spec_inner().spec_inner().spec_inner().spec_inner() == *self.s,
            self.s.inv(&self.v),
        ensures
            r.s == s4,
            r.wf(),
            r.val() == s4.spec_lift(
                s4.spec_inner().spec_lift(
                    s4.spec_inner().spec_inner().spec_lift(
                        s4.spec_inner().spec_inner().spec_inner().spec_lift(self.val()),
                    ),
                ),
            ),
    {
        proof {
            s4.lemma_inner_wf();
        }
        self.lift3(s4.inner()).lift(s4)
    }
}


/// A composite structure: it wraps one inner structure and lifts the inner
/// structure's elements into itself.
pub trait SuperStructure: Structure {
    type Inner: Structure;

    spec fn spec_inner(&self) -> Self::Inner;

    /// The model of the lifted value of an inner model.
    spec fn spec_lift(&self, m: <Self::Inner as Structure>::M) -> Self::M;

    proof fn lemma_inner_wf(&self)
        requires
            self.wf(),
        ensures
            self.spec_inner().wf(),
    ;

    fn inner(&self) -> (r: &Self::Inner)
        ensures
            *r == self.spec_inner(),
    ;

    /// Lifts an element of the inner structure; the element must belong to
    /// this structure's inner structure.
    fn lifted_from<'a>(&'a self, e: El<'a, Self::Inner>) -> (r: El<'a, Self>)
        requires
            self.wf(),
            *e.s == self.spec_inner(),
            e.s.inv(&e.v),
        ensures
            r.s == self,
            r.wf(),
            r.val() == self.spec_lift(e.val()),
    ;

    /// The element of the inner structure with value `v`, lifted into this one.
    fn el1<'a>(&'a self, v: <Self::Inner as Structure>::V) -> (r: El<'a, Self>)
        requires
            self.wf(),
            self.spec_inner().inv(&v),
        ensures
            r.s == self,
            r.wf(),
            r.val() == self.spec_lift(self.spec_inner().model(&v)),
    {
        self.lifted_from(self.inner().el(v))
    }
}

impl<'a, S: SAdd> El<'a, S> {
    /// `self + rhs`; both elements must belong to the same structure.
    pub fn add(self, rhs: El<'a, S>) -> (r: El<'a, S>)
        requires
            self.s == rhs.s,
            self.wf(),
            rhs.wf(),
            self.s.add_ok(self.val(), rhs.val()),
        ensures
            r.s == self.s,
            r.wf(),
            r.val() == self.s.spec_add(self.val(), rhs.val()),
    {
        El { v: self.s.add(self.v, rhs.v), s: self.s }
    }

    /// `self += rhs`; both elements must belong to the same structure.
    pub fn add_assign(&mut self, rhs: El<'a, S>)
        requires
            old(self).s == rhs.s,
            old(self).wf(),
            rhs.wf(),
            old(self).s.add_ok(old(self).val(), rhs.val()),
        ensures
            final(self).s == old(self).s,
            final(self).wf(),
            final(self).val() == old(self).s.spec_add(old(self).val(), rhs.val()),
    {
        let mut lhs = self.s.zero();
        std::mem::swap(&mut lhs, &mut self.v);
        self.v = self.s.add(lhs, rhs.v);
    }
}

impl<'a, S: SSub> El<'a, S> {
    /// `self - rhs`; both elements must belong to the same structure.
    pub fn sub(self, rhs: El<'a, S>) -> (r: El<'a, S>)
        requires
            self.s == rhs.s,
            self.wf(),
            rhs.wf(),
            self.s.sub_ok(self.val(), rhs.val()),
        ensures
            r.s == self.s,
            r.wf(),
            r.val() == self.s.spec_sub(self.val(), rhs.val()),
    {
        El { v: self.s.sub(self.v, rhs.v), s: self.s }
    }

    /// `self -= rhs`; both elements must belong to the same structure.
    pub fn sub_assign(&mut self, rhs: El<'a, S>)
        requires
            old(self).s == rhs.s,
            old(self).wf(),
            rhs.wf(),
            old(self).s.sub_ok(old(self).val(), rhs.val()),
        ensures
            final(self).s == old(self).s,
            final(self).wf(),
            final(self).val() == old(self).s.spec_sub(old(self).val(), rhs.val()),
    {
        let mut lhs = self.s.zero();
        std::mem::swap(&mut lhs, &mut self.v);
        self.v = self.s.sub(lhs, rhs.v);
    }
}

impl<'a, S: SMul> El<'a, S> {
    /// `self * rhs`; both elements must belong to the same structure.
    pub fn mul(self, rhs: El<'a, S>) -> (r: El<'a, S>)
        requires
            self.s == rhs.s,
            self.wf(),
            rhs.wf(),
            self.s.mul_ok(self.val(), rhs.val()),
        ensures
            r.s == self.s,
            r.wf(),
            r.val() == self.s.spec_mul(self.val(), rhs.val()),
    {
        El { v: self.s.mul(self.v, rhs.v), s: self.s }
    }

    /// `self *= rhs`; both elements must belong to the same structure.
    pub fn mul_assign(&mut self, rhs: El<'a, S>)
        requires
            old(self).s == rhs.s,
            old(self).wf(),
            rhs.wf(),
            old(self).s.mul_ok(old(self).val(), rhs.val()),
        ensures
            final(self).s == old(self).s,
            final(self).wf(),
            final(self).val() == old(self).s.spec_mul(old(self).val(), rhs.val()),
    {
        let mut lhs = self.s.one();
        std::mem::swap(&mut lhs, &mut self.v);
        self.v = self.s.mul(lhs, rhs.v);
    }
}

impl<'a, S: SRem> El<'a, S> {
    /// `self % rhs`, the Euclidean remainder; both elements must belong to
    /// the same structure.
    pub fn rem(self, rhs: El<'a, S>) -> (r: El<'a, S>)
        requires
            self.s == rhs.s,
            self.wf(),
            rhs.wf(),
            self.s.rem_ok(self.val(), rhs.val()),
        ensures
            r.s == self.s,
            r.wf(),
            r.val() == self.s.spec_rem(self.val(), rhs.val()),
    {
        El { v: self.s.rem(self.v, rhs.v), s: self.s }
    }

    /// `self %= rhs`; both elements must belong to the same structure.
    pub fn rem_assign(&mut self, rhs: El<'a, S>)
        requires
            old(self).s == rhs.s,
            old(self).wf(),
            rhs.wf(),
            old(self).s.rem_ok(old(self).val(), rhs.val()),
        ensures
            final(self).s == old(self).s,
            final(self).wf(),
            final(self).val() == old(self).s.spec_rem(old(self).val(), rhs.val()),
    {
        let lhs = self.s.clone_v(&self.v);
        self.v = self.s.rem(lhs, rhs.v);
    }
}

/// A composite structure whose inner structure is composite too.
pub trait Super2Structure: SuperStructure where Self::Inner: SuperStructure {
    /// The element of the inner structure's inner structure with value `v`,
    /// lifted up to this one.
    fn el2<'a>(&'a self, v: <<Self::Inner as SuperStructure>::Inner as Structure>::V) -> (r: El<
        'a,
        Self,
    >)
        requires
            self.wf(),
            self.spec_inner().spec_inner().inv(&v),
        ensures
            r.s == self,
            r.wf(),
            r.val() == self.spec_lift(
                self.spec_inner().spec_lift(self.spec_inner().spec_inner().model(&v)),
            ),
    {
        proof {
            self.lemma_inner_wf();
        }
        self.lifted_from(self.inner().el1(v))
    }
}

impl<T: SuperStructure> Super2Structure for T where T::Inner: SuperStructure {

}

/// A composite structure nested three levels deep.
pub trait Super3Structure: SuperStructure where
    Self::Inner: Super2Structure,
    <Self::Inner as SuperStructure>::Inner: SuperStructure,
 {
    /// The element three levels down with value `v`, lifted up to this one.
    fn el3<'a>(
        &'a self,
        v: <<<Self::Inner as SuperStructure>::Inner as SuperStructure>::Inner as Structure>::V,
    ) -> (r: El<'a, Self>)
        requires
            self.wf(),
            self.spec_inner().spec_inner().spec_inner().inv(&v),
        ensures
            r.s == self,
            r.wf(),
            r.val() == self.spec_lift(
                self.spec_inner().spec_lift(
                    self.spec_inner().spec_inner().spec_lift(
                        self.spec_inner().spec_inner().spec_inner().model(&v),
                    ),
                ),
            ),
    {
        proof {
            self.lemma_inner_wf();
        }
        self.lifted_from(self.inner().el2(v))
    }
}

impl<T: SuperStructure> Super3Structure for T where
    T::Inner: Super2Structure,
    <T::Inner as SuperStructure>::Inner: SuperStructure,
 {

}

/// Additive capability: a zero and an associative, commutative addition.
pub trait SAdd: Structure {
    spec fn spec_zero(&self) -> Self::M;

    spec fn spec_add(&self, a: Self::M, b: Self::M) -> Self::M;

    /// The addition of `a` and `b` fits the structure's machine limits.
    spec fn add_ok(&self, a: Self::M, b: Self::M) -> bool;

    fn zero(&self) -> (r: Self::V)
        requires
            self.wf(),
        ensures
            self.inv(&r),
            self.model(&r) == self.spec_zero(),
    ;

    fn add(&self, lhs: Self::V, rhs: Self::V) -> (r: Self::V)
        requires
            self.wf(),
            self.inv(&lhs),
            self.inv(&rhs),
            self.add_ok(self.model(&lhs), self.model(&rhs)),
        ensures
            self.inv(&r),
            self.model(&r) == self.spec_add(self.model(&lhs), self.model(&rhs)),
    ;

    proof fn lemma_zero(&self)
        requires
            self.wf(),
        ensures
            self.minv(self.spec_zero()),
    ;

    proof fn lemma_add_closed(&self, a: Self::M, b: Self::M)
        requires
            self.wf(),
            self.minv(a),
            self.minv(b),
            self.add_ok(a, b),
        ensures
            self.minv(self.spec_add(a, b)),
    ;

    proof fn lemma_add_zero(&self, a: Self::M)
        requires
            self.wf(),
            self.minv(a),
        ensures
            self.add_ok(a, self.spec_zero()),
            self.spec_add(a, self.spec_zero()) == a,
    ;

    proof fn lemma_add_comm(&self, a: Self::M, b: Self::M)
        requires
            self.wf(),
        ensures
            self.add_ok(a, b) == self.add_ok(b, a),
            self.spec_add(a, b) == self.spec_add(b, a),
    ;

    proof fn lemma_add_assoc(&self, a: Self::M, b: Self::M, c: Self::M)
        requires
            self.wf(),
            self.minv(a),
            self.minv(b),
            self.minv(c),
        ensures
            self.spec_add(self.spec_add(a, b), c) == self.spec_add(a, self.spec_add(b, c)),
    ;
}

/// Subtractive capability: negation and subtraction, where `a - b` is `a + (-b)`.
pub trait SSub: SAdd {
    spec fn spec_neg(&self, a: Self::M) -> Self::M;

    spec fn spec_sub(&self, a: Self::M, b: Self::M) -> Self::M;

    spec fn neg_ok(&self, a: Self::M) -> bool;

    spec fn sub_ok(&self, a: Self::M, b: Self::M) -> bool;

    fn negate(&self, v: &mut Self::V)
        requires
            self.wf(),
            self.inv(old(v)),
            self.neg_ok(self.model(old(v))),
        ensures
            self.inv(final(v)),
            self.model(final(v)) == self.spec_neg(self.model(old(v))),
    ;

    fn sub(&self, lhs: Self::V, rhs: Self::V) -> (r: Self::V)
        requires
            self.wf(),
            self.inv(&lhs),
            self.inv(&rhs),
            self.sub_ok(self.model(&lhs), self.model(&rhs)),
        ensures
            self.inv(&r),
            self.model(&r) == self.spec_sub(self.model(&lhs), self.model(&rhs)),
    ;

    /// Subtracting `zero` changes nothing.
    proof fn lemma_sub_zero(&self, a: Self::M)
        requires
            self.wf(),
            self.minv(a),
        ensures
            self.sub_ok(a, self.spec_zero()),
            self.spec_sub(a, self.spec_zero()) == a,
    ;

    /// `zero` is its own negation.
    proof fn lemma_neg_zero(&self)
        requires
            self.wf(),
        ensures
            self.neg_ok(self.spec_zero()),
            self.spec_neg(self.spec_zero()) == self.spec_zero(),
    ;

    /// Subtraction agrees with adding the negation.
    proof fn lemma_sub_is_add_neg(&self, a: Self::M, b: Self::M)
        requires
            self.wf(),
            self.minv(a),
            self.minv(b),
            self.neg_ok(b),
        ensures
            self.minv(self.spec_neg(b)),
            self.spec_sub(a, b) == self.spec_add(a, self.spec_neg(b)),
    ;
}

/// Multiplicative capability: a one and a multiplication with `one` as identity.
pub trait SMul: Structure {
    spec fn spec_one(&self) -> Self::M;

    spec fn spec_mul(&self, a: Self::M, b: Self::M) -> Self::M;

    spec fn mul_ok(&self, a: Self::M, b: Self::M) -> bool;

    fn one(&self) -> (r: Self::V)
        requires
            self.wf(),
        ensures
            self.inv(&r),
            self.model(&r) == self.spec_one(),
    ;

    fn mul(&self, lhs: Self::V, rhs: Self::V) -> (r: Self::V)
        requires
            self.wf(),
            self.inv(&lhs),
            self.inv(&rhs),
            self.mul_ok(self.model(&lhs), self.model(&rhs)),
        ensures
            self.inv(&r),
            self.model(&r) == self.spec_mul(self.model(&lhs), self.model(&rhs)),
    ;

    proof fn lemma_one(&self)
        requires
            self.wf(),
        ensures
            self.minv(self.spec_one()),
    ;

    proof fn lemma_mul_closed(&self, a: Self::M, b: Self::M)
        requires
            self.wf(),
            self.minv(a),
            self.minv(b),
            self.mul_ok(a, b),
        ensures
            self.minv(self.spec_mul(a, b)),
    ;

    proof fn lemma_mul_one(&self, a: Self::M)
        requires
            self.wf(),
            self.minv(a),
        ensures
            self.mul_ok(a, self.spec_one()),
            self.spec_mul(a, self.spec_one()) == a,
    ;
}

/// Fused multiply-add: `acc = acc + lhs * rhs` as one step.
pub trait SFusedMulAdd: SAdd + SMul {
    /// The fused step on these operands fits the structure's machine limits.
    spec fn fma_ok(&self, acc: Self::M, a: Self::M, b: Self::M) -> bool;

    fn fused_mul_add_ref(&self, acc: &mut Self::V, lhs: &Self::V, rhs: &Self::V)
        requires
            self.wf(),
            self.inv(old(acc)),
            self.inv(lhs),
            self.inv(rhs),
            self.fma_ok(self.model(old(acc)), self.model(lhs), self.model(rhs)),
        ensures
            self.inv(final(acc)),
            self.model(final(acc)) == self.spec_add(
                self.model(old(acc)),
                self.spec_mul(self.model(lhs), self.model(rhs)),
            ),
    ;

    /// A fused step into `zero` is the plain product.
    proof fn lemma_fma_zero(&self, a: Self::M, b: Self::M)
        requires
            self.wf(),
            self.minv(a),
            self.minv(b),
            self.mul_ok(a, b),
        ensures
            self.fma_ok(self.spec_zero(), a, b),
            self.spec_add(self.spec_zero(), self.spec_mul(a, b)) == self.spec_mul(a, b),
    ;

    proof fn lemma_fma_closed(&self, acc: Self::M, a: Self::M, b: Self::M)
        requires
            self.wf(),
            self.minv(acc),
            self.minv(a),
            self.minv(b),
            self.fma_ok(acc, a, b),
        ensures
            self.minv(self.spec_add(acc, self.spec_mul(a, b))),
    ;
}

/// A commutative ring: multiplication is commutative and associative too.
pub trait SRing: SSub + SFusedMulAdd {
    /// `zero` annihilates.
    proof fn lemma_mul_zero(&self, a: Self::M)
        requires
            self.wf(),
            self.minv(a),
        ensures
            self.mul_ok(self.spec_zero(), a),
            self.spec_mul(self.spec_zero(), a) == self.spec_zero(),
    ;

    proof fn lemma_mul_comm(&self, a: Self::M, b: Self::M)
        requires
            self.wf(),
        ensures
            self.mul_ok(a, b) == self.mul_ok(b, a),
            self.spec_mul(a, b) == self.spec_mul(b, a),
    ;

    proof fn lemma_mul_assoc(&self, a: Self::M, b: Self::M, c: Self::M)
        requires
            self.wf(),
            self.minv(a),
            self.minv(b),
            self.minv(c),
        ensures
            self.spec_mul(self.spec_mul(a, b), c) == self.spec_mul(a, self.spec_mul(b, c)),
    ;
}

/// Remainder capability.
pub trait SRem: Structure {
    spec fn spec_rem(&self, a: Self::M, m: Self::M) -> Self::M;

    spec fn rem_ok(&self, a: Self::M, m: Self::M) -> bool;

    fn rem(&self, lhs: Self::V, rhs: Self::V) -> (r: Self::V)
        requires
            self.wf(),
            self.inv(&lhs),
            self.inv(&rhs),
            self.rem_ok(self.model(&lhs), self.model(&rhs)),
        ensures
            self.inv(&r),
            self.model(&r) == self.spec_rem(self.model(&lhs), self.model(&rhs)),
    ;
}

/// An integer-like ring whose remainder is Euclidean: the laws that let a
/// nonzero modulus define a quotient ring.
pub trait SEuclidean: SRem + SRing {
    /// An exact copy of a value.
    fn clone_exact(&self, v: &Self::V) -> (r: Self::V)
        ensures
            r == *v,
    ;

    /// Any element can be reduced against a modulus that is not degenerate.
    proof fn lemma_rem_ok(&self, a: Self::M, m: Self::M)
        requires
            self.wf(),
            self.minv(a),
            self.minv(m),
            m != self.spec_zero(),
            self.spec_rem(self.spec_one(), m) != self.spec_zero(),
        ensures
            self.rem_ok(a, m),
    ;

    /// Every well-formed value is a canonical element.
    proof fn lemma_inv_minv(&self, v: &Self::V)
        requires
            self.wf(),
            self.inv(v),
        ensures
            self.minv(self.model(v)),
    ;

    /// `one` can be reduced, and where it is not congruent to zero it is its
    /// own remainder.
    proof fn lemma_rem_one(&self, m: Self::M)
        requires
            self.wf(),
            self.minv(m),
            m != self.spec_zero(),
        ensures
            self.rem_ok(self.spec_one(), m),
            self.spec_rem(self.spec_one(), m) != self.spec_zero() ==> self.spec_rem(
                self.spec_one(),
                m,
            ) == self.spec_one(),
    ;

    /// A remainder is a canonical element and reducing it again changes nothing.
    proof fn lemma_rem_idem(&self, a: Self::M, m: Self::M)
        requires
            self.wf(),
            self.minv(m),
            m != self.spec_zero(),
        ensures
            self.minv(self.spec_rem(a, m)),
            self.spec_rem(self.spec_rem(a, m), m) == self.spec_rem(a, m),
    ;

    proof fn lemma_rem_zero(&self, m: Self::M)
        requires
            self.wf(),
            self.minv(m),
            m != self.spec_zero(),
        ensures
            self.spec_rem(self.spec_zero(), m) == self.spec_zero(),
    ;

    /// The modulus reduces to zero.
    proof fn lemma_rem_self(&self, m: Self::M)
        requires
            self.wf(),
            self.minv(m),
            m != self.spec_zero(),
        ensures
            self.spec_rem(m, m) == self.spec_zero(),
    ;

    /// Reducing an addend first does not change the reduced sum.
    proof fn lemma_rem_add(&self, a: Self::M, b: Self::M, m: Self::M)
        requires
            self.wf(),
            self.minv(m),
            m != self.spec_zero(),
        ensures
            self.spec_rem(self.spec_add(self.spec_rem(a, m), b), m) == self.spec_rem(
                self.spec_add(a, b),
                m,
            ),
    ;

    /// Reducing a factor first does not change the reduced product.
    proof fn lemma_rem_mul(&self, a: Self::M, b: Self::M, m: Self::M)
        requires
            self.wf(),
            self.minv(m),
            m != self.spec_zero(),
        ensures
            self.spec_rem(self.spec_mul(self.spec_rem(a, m), b), m) == self.spec_rem(
                self.spec_mul(a, b),
                m,
            ),
    ;

    /// Adding `m - b` is subtracting `b`, up to the modulus.
    proof fn lemma_rem_sub(&self, a: Self::M, b: Self::M, m: Self::M)
        requires
            self.wf(),
            self.minv(m),
            m != self.spec_zero(),
        ensures
            self.spec_rem(self.spec_add(a, self.spec_sub(m, b)), m) == self.spec_rem(
                self.spec_sub(a, b),
                m,
            ),
    ;
}

} // verus!
