//! Dense polynomials over the scalar field, and interpolation through points.
//!
//! A polynomial is the sequence of its coefficients, constant term first. Its
//! model is the sequence of their values; what an operation does is stated on
//! that model, and what it means for evaluation is proved beside it.

use vstd::prelude::*;
use crate::algebra::{
    lemma_fadd_cong, lemma_fadd_zero, lemma_fmul_cong, lemma_fmul_zero, lemma_reduce_bound,
};
use crate::field::{fadd, fmul, modulus, Scalar};

verus! {

/// The coefficient of `X^i`, zero beyond the stored ones.
pub open spec fn coeff(p: Seq<nat>, i: int) -> nat {
    if 0 <= i < p.len() {
        p[i]
    } else {
        0
    }
}

/// The coefficients above the constant term.
pub open spec fn tail(p: Seq<nat>) -> Seq<nat> {
    if p.len() == 0 {
        p
    } else {
        p.drop_first()
    }
}

/// The value of the polynomial with coefficients `p` at the point `x`.
pub open spec fn poly_eval(p: Seq<nat>, x: nat) -> nat
    decreases p.len(),
{
    if p.len() == 0 {
        0
    } else {
        fadd(p[0], fmul(x, poly_eval(p.drop_first(), x)))
    }
}

/// The coefficient-wise sum, as long as the longer operand.
pub open spec fn poly_add(p: Seq<nat>, q: Seq<nat>) -> Seq<nat> {
    Seq::new(
        if p.len() >= q.len() {
            p.len()
        } else {
            q.len()
        },
        |i: int| fadd(coeff(p, i), coeff(q, i)),
    )
}

/// Every coefficient multiplied by `s`.
pub open spec fn poly_scale(p: Seq<nat>, s: nat) -> Seq<nat> {
    Seq::new(p.len(), |i: int| fmul(p[i], s))
}

/// The polynomial multiplied by `X`.
pub open spec fn poly_shift(p: Seq<nat>) -> Seq<nat> {
    seq![0nat] + p
}

/// The product of two polynomials: `p = p0 + X * p'` gives
/// `p * q = p0 * q + X * (p' * q)`.
pub open spec fn poly_mul(p: Seq<nat>, q: Seq<nat>) -> Seq<nat>
    decreases p.len(),
{
    if p.len() == 0 {
        Seq::empty()
    } else {
        poly_add(poly_scale(q, p[0]), poly_shift(poly_mul(p.drop_first(), q)))
    }
}

/// All coefficients are canonical values.
pub open spec fn canonical(p: Seq<nat>) -> bool {
    forall|i: int| 0 <= i < p.len() ==> #[trigger] p[i] < modulus()
}

/// Evaluation splits into the constant term and the rest, also for the empty
/// polynomial.
pub proof fn lemma_eval_unfold(p: Seq<nat>, x: nat)
    ensures
        poly_eval(p, x) == fadd(coeff(p, 0), fmul(x, poly_eval(tail(p), x))),
        poly_eval(p, x) < modulus(),
{
    if p.len() > 0 {
        lemma_reduce_bound((p[0] + fmul(x, poly_eval(p.drop_first(), x))) as int);
    } else {
        lemma_fmul_zero(x);
    }
}

/// Evaluation is additive: the sum of two polynomials evaluates to the sum of
/// their values.
pub proof fn lemma_eval_add(p: Seq<nat>, q: Seq<nat>, x: nat)
    ensures
        poly_eval(poly_add(p, q), x) == fadd(poly_eval(p, x), poly_eval(q, x)),
    decreases p.len() + q.len(),
{
    let r = poly_add(p, q);
    if p.len() == 0 && q.len() == 0 {
    } else {
        lemma_eval_add(tail(p), tail(q), x);
        assert(r.drop_first() =~= poly_add(tail(p), tail(q)));
        lemma_eval_unfold(p, x);
        lemma_eval_unfold(q, x);
        let a: nat = coeff(p, 0);
        let b: nat = coeff(q, 0);
        let u: nat = poly_eval(tail(p), x);
        let v: nat = poly_eval(tail(q), x);
        assert(r[0] == fadd(a, b));
        let (ai, bi, ui, vi, xi): (int, int, int, int, int) = (
            a as int,
            b as int,
            u as int,
            v as int,
            x as int,
        );
        // left: (a + b) + x (u + v)
        lemma_fadd_cong(a, b, ai, bi);
        lemma_fadd_cong(u, v, ui, vi);
        lemma_fmul_cong(x, fadd(u, v), xi, ui + vi);
        lemma_fadd_cong(fadd(a, b), fmul(x, fadd(u, v)), ai + bi, xi * (ui + vi));
        // right: (a + x u) + (b + x v)
        lemma_fmul_cong(x, u, xi, ui);
        lemma_fmul_cong(x, v, xi, vi);
        lemma_fadd_cong(a, fmul(x, u), ai, xi * ui);
        lemma_fadd_cong(b, fmul(x, v), bi, xi * vi);
        lemma_fadd_cong(
            fadd(a, fmul(x, u)),
            fadd(b, fmul(x, v)),
            ai + xi * ui,
            bi + xi * vi,
        );
        assert((ai + bi) + xi * (ui + vi) == (ai + xi * ui) + (bi + xi * vi))
            by (nonlinear_arith);
    }
}

/// Evaluation commutes with scaling.
pub proof fn lemma_eval_scale(p: Seq<nat>, s: nat, x: nat)
    ensures
        poly_eval(poly_scale(p, s), x) == fmul(poly_eval(p, x), s),
    decreases p.len(),
{
    let r = poly_scale(p, s);
    if p.len() == 0 {
        lemma_fmul_zero(s);
    } else {
        lemma_eval_scale(p.drop_first(), s, x);
        assert(r.drop_first() =~= poly_scale(p.drop_first(), s));
        let a: nat = p[0];
        let u: nat = poly_eval(p.drop_first(), x);
        let (ai, ui, si, xi): (int, int, int, int) = (a as int, u as int, s as int, x as int);
        // left: a s + x (u s)
        lemma_fmul_cong(a, s, ai, si);
        lemma_fmul_cong(u, s, ui, si);
        lemma_fmul_cong(x, fmul(u, s), xi, ui * si);
        lemma_fadd_cong(fmul(a, s), fmul(x, fmul(u, s)), ai * si, xi * (ui * si));
        // right: (a + x u) s
        lemma_fmul_cong(x, u, xi, ui);
        lemma_fadd_cong(a, fmul(x, u), ai, xi * ui);
        lemma_fmul_cong(fadd(a, fmul(x, u)), s, ai + xi * ui, si);
        assert(ai * si + xi * (ui * si) == (ai + xi * ui) * si) by (nonlinear_arith);
    }
}

/// Multiplying by `X` multiplies the value by the point.
pub proof fn lemma_eval_shift(p: Seq<nat>, x: nat)
    ensures
        poly_eval(poly_shift(p), x) == fmul(x, poly_eval(p, x)),
{
    let r = poly_shift(p);
    assert(r.drop_first() =~= p);
    lemma_reduce_bound((x * poly_eval(p, x)) as int);
}

/// Evaluation is multiplicative: the product of two polynomials evaluates to
/// the product of their values.
pub proof fn lemma_eval_mul(p: Seq<nat>, q: Seq<nat>, x: nat)
    ensures
        poly_eval(poly_mul(p, q), x) == fmul(poly_eval(p, x), poly_eval(q, x)),
    decreases p.len(),
{
    if p.len() == 0 {
        lemma_fmul_zero(poly_eval(q, x));
    } else {
        let rest = poly_mul(p.drop_first(), q);
        lemma_eval_mul(p.drop_first(), q, x);
        lemma_eval_add(poly_scale(q, p[0]), poly_shift(rest), x);
        lemma_eval_scale(q, p[0], x);
        lemma_eval_shift(rest, x);
        let a: nat = p[0];
        let u: nat = poly_eval(p.drop_first(), x);
        let v: nat = poly_eval(q, x);
        let (ai, ui, vi, xi): (int, int, int, int) = (a as int, u as int, v as int, x as int);
        // left: v a + x (u v)
        lemma_fmul_cong(v, a, vi, ai);
        lemma_fmul_cong(u, v, ui, vi);
        lemma_fmul_cong(x, fmul(u, v), xi, ui * vi);
        lemma_fadd_cong(fmul(v, a), fmul(x, fmul(u, v)), vi * ai, xi * (ui * vi));
        // right: (a + x u) v
        lemma_fmul_cong(x, u, xi, ui);
        lemma_fadd_cong(a, fmul(x, u), ai, xi * ui);
        lemma_fmul_cong(fadd(a, fmul(x, u)), v, ai + xi * ui, vi);
        assert(vi * ai + xi * (ui * vi) == (ai + xi * ui) * vi) by (nonlinear_arith);
    }
}

/// The product of two non-empty polynomials has one coefficient fewer than
/// both together, and all of them are canonical.
pub proof fn lemma_mul_shape(p: Seq<nat>, q: Seq<nat>)
    requires
        q.len() > 0,
    ensures
        p.len() > 0 ==> poly_mul(p, q).len() == p.len() + q.len() - 1,
        p.len() == 0 ==> poly_mul(p, q).len() == 0,
        canonical(poly_mul(p, q)),
    decreases p.len(),
{
    if p.len() > 0 {
        lemma_mul_shape(p.drop_first(), q);
        let r = poly_mul(p, q);
        assert forall|i: int| 0 <= i < r.len() implies #[trigger] r[i] < modulus() by {
            lemma_reduce_bound(
                (coeff(poly_scale(q, p[0]), i) + coeff(
                    poly_shift(poly_mul(p.drop_first(), q)),
                    i,
                )) as int,
            );
        }
    }
}

/// A polynomial as the vector of its coefficients, constant term first.
#[derive(Clone, Debug, PartialEq, Eq)]
pub struct Polynomial(pub Vec<Scalar>);

impl View for Polynomial {
    type V = Seq<nat>;

    /// The values of the coefficients.
    open spec fn view(&self) -> Seq<nat> {
        Seq::new(self.0@.len(), |i: int| self.0@[i]@)
    }
}

impl Polynomial {
    /// Every coefficient is a canonical field element.
    pub open spec fn wf(&self) -> bool {
        forall|i: int| 0 <= i < self.0@.len() ==> (#[trigger] self.0@[i]).wf()
    }

    /// The zero polynomial with `size` coefficients.
    pub fn zero(size: usize) -> (r: Polynomial)
        ensures
            r.wf(),
            r@ == Seq::new(size as nat, |i: int| 0nat),
    {
        let mut coefficients: Vec<Scalar> = Vec::new();
        let mut i: usize = 0;
        while i < size
            invariant
                i <= size,
                coefficients@.len() == i,
                forall|j: int| 0 <= j < i ==> (#[trigger] coefficients@[j])@ == 0,
            decreases size - i,
        {
            coefficients.push(Scalar::zero());
            i += 1;
        }
        let r = Polynomial(coefficients);
        assert(r@ =~= Seq::new(size as nat, |i: int| 0nat));
        r
    }

    /// The number of stored coefficients.
    pub fn len(&self) -> (n: usize)
        ensures
            n == self@.len(),
    {
        self.0.len()
    }

    /// The value of the polynomial at `x`, by Horner's rule.
    pub fn eval(&self, x: &Scalar) -> (r: Scalar)
        requires
            self.wf(),
            x.wf(),
        ensures
            r.wf(),
            r@ == poly_eval(self@, x@),
    {
        let n: usize = self.0.len();
        let mut acc = Scalar::zero();
        let mut i: usize = n;
        while i > 0
            invariant
                i <= n,
                n == self.0@.len(),
                self.wf(),
                x.wf(),
                acc.wf(),
                acc@ == poly_eval(self@.subrange(i as int, n as int), x@),
            decreases i,
        {
            i -= 1;
            let scaled = x.times(&acc);
            acc = self.0[i].plus(&scaled);
            proof {
                let upper = self@.subrange(i as int, n as int);
                assert(upper.drop_first() =~= self@.subrange(i + 1, n as int));
            }
        }
        proof {
            assert(self@.subrange(0, n as int) =~= self@);
        }
        acc
    }

    /// Adds `rhs` to the polynomial in place, coefficient by coefficient. The
    /// value of the sum at a point is the sum of the two values there.
    pub fn add_assign(&mut self, rhs: &Polynomial)
        requires
            old(self).wf(),
            rhs.wf(),
        ensures
            final(self).wf(),
            final(self)@ == poly_add(old(self)@, rhs@),
            forall|x: nat| #[trigger]
                poly_eval(final(self)@, x) == fadd(poly_eval(old(self)@, x), poly_eval(rhs@, x)),
    {
        let n: usize = self.0.len();
        let m: usize = rhs.0.len();
        let ghost before = self@;
        let mut i: usize = 0;
        while i < n && i < m
            invariant
                i <= n,
                i <= m,
                n == self.0@.len(),
                m == rhs.0@.len(),
                before.len() == n,
                self.wf(),
                rhs.wf(),
                canonical(before),
                forall|j: int|
                    0 <= j < i ==> (#[trigger] self.0@[j])@ == fadd(before[j], rhs.0@[j]@),
                forall|j: int| i <= j < n ==> (#[trigger] self.0@[j])@ == before[j],
            decreases n - i,
        {
            let sum = self.0[i].plus(&rhs.0[i]);
            self.0.set(i, sum);
            i += 1;
        }
        while i < m
            invariant
                n <= i || i == m,
                i <= m,
                i <= n || self.0@.len() == i,
                i <= n ==> self.0@.len() == n,
                m == rhs.0@.len(),
                before.len() == n,
                self.wf(),
                rhs.wf(),
                canonical(before),
                forall|j: int|
                    0 <= j < n && j < m ==> (#[trigger] self.0@[j])@ == fadd(
                        before[j],
                        rhs.0@[j]@,
                    ),
                forall|j: int| m <= j < n ==> (#[trigger] self.0@[j])@ == before[j],
                forall|j: int| n <= j < i ==> (#[trigger] self.0@[j])@ == rhs.0@[j]@,
            decreases m - i,
        {
            self.0.push(rhs.0[i]);
            i += 1;
        }
        proof {
            let sum = poly_add(before, rhs@);
            assert forall|j: int| 0 <= j < sum.len() implies self@[j] == sum[j] by {
                if j >= m {
                    lemma_fadd_zero(before[j]);
                } else if j >= n {
                    assert(rhs.0@[j].wf());
                    assert(rhs@[j] < modulus());
                    lemma_fadd_zero(rhs@[j]);
                }
            }
            assert(self@ =~= sum);
            assert forall|x: nat| #[trigger]
                poly_eval(self@, x) == fadd(poly_eval(before, x), poly_eval(rhs@, x)) by {
                lemma_eval_add(before, rhs@, x);
            }
        }
    }

    /// The polynomial with every coefficient multiplied by `s`. Its value at a
    /// point is `s` times the value of the polynomial there.
    pub fn scale(&self, s: &Scalar) -> (r: Polynomial)
        requires
            self.wf(),
            s.wf(),
        ensures
            r.wf(),
            r@ == poly_scale(self@, s@),
            forall|x: nat| #[trigger] poly_eval(r@, x) == fmul(poly_eval(self@, x), s@),
    {
        let n: usize = self.0.len();
        let mut coefficients: Vec<Scalar> = Vec::new();
        let mut i: usize = 0;
        while i < n
            invariant
                i <= n,
                n == self.0@.len(),
                self.wf(),
                s.wf(),
                coefficients@.len() == i,
                forall|j: int| 0 <= j < i ==> (#[trigger] coefficients@[j]).wf(),
                forall|j: int| 0 <= j < i ==> (#[trigger] coefficients@[j])@ == fmul(self@[j], s@),
            decreases n - i,
        {
            coefficients.push(self.0[i].times(s));
            i += 1;
        }
        let r = Polynomial(coefficients);
        proof {
            assert(r@ =~= poly_scale(self@, s@));
            assert forall|x: nat| #[trigger]
                poly_eval(r@, x) == fmul(poly_eval(self@, x), s@) by {
                lemma_eval_scale(self@, s@, x);
            }
        }
        r
    }

    /// The polynomial multiplied by `X`.
    pub fn shifted(&self) -> (r: Polynomial)
        requires
            self.wf(),
        ensures
            r.wf(),
            r@ == poly_shift(self@),
    {
        let n: usize = self.0.len();
        let mut coefficients: Vec<Scalar> = Vec::new();
        coefficients.push(Scalar::zero());
        let mut i: usize = 0;
        while i < n
            invariant
                i <= n,
                n == self.0@.len(),
                self.wf(),
                coefficients@.len() == i + 1,
                coefficients@[0]@ == 0,
                forall|j: int| 0 <= j < i + 1 ==> (#[trigger] coefficients@[j]).wf(),
                forall|j: int| 0 <= j < i ==> (#[trigger] coefficients@[j + 1])@ == self@[j],
            decreases n - i,
        {
            coefficients.push(self.0[i]);
            i += 1;
        }
        let r = Polynomial(coefficients);
        proof {
            assert forall|j: int| 0 <= j < r@.len() implies r@[j] == poly_shift(self@)[j] by {
                if j > 0 {
                    assert(coefficients@[(j - 1) + 1]@ == self@[j - 1]);
                }
            }
            assert(r@ =~= poly_shift(self@));
        }
        r
    }

    /// The product of two polynomials. Its value at a point is the product of
    /// the two values there.
    pub fn multiply(&self, rhs: &Polynomial) -> (r: Polynomial)
        requires
            self.wf(),
            rhs.wf(),
        ensures
            r.wf(),
            r@ == poly_mul(self@, rhs@),
            forall|x: nat| #[trigger]
                poly_eval(r@, x) == fmul(poly_eval(self@, x), poly_eval(rhs@, x)),
    {
        let n: usize = self.0.len();
        let mut acc = Polynomial(Vec::new());
        let mut i: usize = n;
        proof {
            assert(self@.subrange(n as int, n as int) =~= Seq::<nat>::empty());
            assert(acc@ =~= Seq::<nat>::empty());
        }
        while i > 0
            invariant
                i <= n,
                n == self.0@.len(),
                self.wf(),
                rhs.wf(),
                acc.wf(),
                acc@ == poly_mul(self@.subrange(i as int, n as int), rhs@),
            decreases i,
        {
            i -= 1;
            let mut term = rhs.scale(&self.0[i]);
            let rest = acc.shifted();
            term.add_assign(&rest);
            proof {
                let upper = self@.subrange(i as int, n as int);
                assert(upper.drop_first() =~= self@.subrange(i + 1, n as int));
            }
            acc = term;
        }
        proof {
            assert(self@.subrange(0, n as int) =~= self@);
            assert forall|x: nat| #[trigger]
                poly_eval(acc@, x) == fmul(poly_eval(self@, x), poly_eval(rhs@, x)) by {
                lemma_eval_mul(self@, rhs@, x);
            }
        }
        acc
    }
}

} // verus!
