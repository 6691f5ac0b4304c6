//! Lagrange basis polynomials and interpolation through point pairs.

use vstd::prelude::*;
use crate::algebra::{
    lemma_fadd_cong, lemma_fadd_zero, lemma_fmul_cong, lemma_fmul_one, lemma_fmul_zero,
    lemma_fneg_cong, lemma_fsub_cong, lemma_fsub_zero_iff_equal, lemma_reduce_canonical,
};
use crate::field::{fadd, finv, fmul, fneg, fsub, Scalar};
use crate::polynomial::{
    lemma_eval_unfold, lemma_mul_shape, poly_add, poly_eval, poly_mul, poly_scale, Polynomial,
};

verus! {

/// The values of a sequence of field elements.
pub open spec fn values(v: Seq<Scalar>) -> Seq<nat> {
    Seq::new(v.len(), |i: int| v[i]@)
}

/// Every element of the sequence is canonical.
pub open spec fn all_wf(v: Seq<Scalar>) -> bool {
    forall|i: int| 0 <= i < v.len() ==> (#[trigger] v[i]).wf()
}

/// The point at `index` occurs at another position as well.
pub open spec fn occurs_elsewhere(points: Seq<nat>, index: int) -> bool {
    exists|j: int| 0 <= j < points.len() && j != index && #[trigger] points[j] == points[index]
}

/// No point occurs twice.
pub open spec fn pairwise_distinct(points: Seq<nat>) -> bool {
    forall|i: int, j: int|
        0 <= i < points.len() && 0 <= j < points.len() && i != j ==> #[trigger] points[i]
            != #[trigger] points[j]
}

/// `basis` is the Lagrange basis polynomial of `points` at `index`: it has as
/// many coefficients as there are points, is one at the point `index` and zero
/// at every other position.
pub open spec fn is_lagrange_basis(basis: Seq<nat>, points: Seq<nat>, index: int) -> bool {
    &&& basis.len() == points.len()
    &&& poly_eval(basis, points[index]) == 1
    &&& forall|j: int|
        0 <= j < points.len() && j != index ==> poly_eval(basis, #[trigger] points[j]) == 0
}

/// The product of the factors `(X - points[j]) / (points[index] - points[j])`
/// over the positions `j` below `upto` other than `index`.
pub open spec fn basis_product(points: Seq<nat>, index: int, upto: nat) -> Seq<nat>
    decreases upto,
{
    if upto == 0 {
        seq![1nat]
    } else {
        let before = basis_product(points, index, (upto - 1) as nat);
        let j = upto - 1;
        if j == index {
            before
        } else {
            poly_mul(
                before,
                poly_scale(seq![fneg(points[j]), 1nat], finv(fsub(points[index], points[j]))),
            )
        }
    }
}

/// The Lagrange basis polynomial of `points` at `index`, coefficient by
/// coefficient.
pub open spec fn lagrange_basis_of(points: Seq<nat>, index: int) -> Seq<nat> {
    basis_product(points, index, points.len())
}

/// The all-zero polynomial of `size` coefficients plus, for each position `i`
/// below `upto`, the Lagrange basis polynomial of `points` at `i` scaled by
/// `weights[i]`.
pub open spec fn basis_combination(
    points: Seq<nat>,
    weights: Seq<nat>,
    size: nat,
    upto: nat,
) -> Seq<nat>
    decreases upto,
{
    if upto == 0 {
        Seq::new(size, |i: int| 0nat)
    } else {
        poly_add(
            basis_combination(points, weights, size, (upto - 1) as nat),
            poly_scale(lagrange_basis_of(points, upto - 1), weights[upto - 1]),
        )
    }
}

/// The linear polynomial `X - root` takes the value `x - root` at `x`.
pub proof fn lemma_eval_linear(root: nat, x: nat)
    ensures
        poly_eval(seq![fneg(root), 1nat], x) == fsub(x, root),
{
    let p = seq![fneg(root), 1nat];
    let q = p.drop_first();
    assert(q =~= seq![1nat]);
    assert(q.drop_first() =~= Seq::<nat>::empty());
    lemma_eval_unfold(q, x);
    lemma_eval_unfold(p, x);
    let (ri, xi): (int, int) = (root as int, x as int);
    lemma_fmul_zero(x);
    assert(poly_eval(q.drop_first(), x) == 0);
    assert(poly_eval(q, x) == fadd(1, fmul(x, 0)));
    lemma_reduce_canonical(1);
    assert(poly_eval(q, x) == 1);
    lemma_fmul_cong(x, 1, xi, 1);
    lemma_fneg_cong(root, ri);
    lemma_fadd_cong(fneg(root), fmul(x, 1), -ri, xi * 1);
    lemma_fsub_cong(x, root, xi, ri);
    assert(-ri + xi * 1 == xi - ri);
}

/// The all-zero polynomial is zero everywhere.
pub proof fn lemma_eval_zeros(n: nat, x: nat)
    ensures
        poly_eval(Seq::new(n, |i: int| 0nat), x) == 0,
    decreases n,
{
    let p = Seq::new(n, |i: int| 0nat);
    if n > 0 {
        lemma_eval_zeros((n - 1) as nat, x);
        assert(p.drop_first() =~= Seq::new((n - 1) as nat, |i: int| 0nat));
        lemma_fmul_zero(x);
    }
}

/// The Lagrange basis polynomial of `points` at `index`: the product, over
/// every other position `j`, of `(X - points[j]) / (points[index] - points[j])`.
///
/// There is no such polynomial when the point at `index` occurs at another
/// position too, since the difference then has no inverse.
pub fn lagrange_basis_over(points: &Vec<Scalar>, index: usize) -> (r: Option<Polynomial>)
    requires
        index < points@.len(),
        all_wf(points@),
    ensures
        r is None <==> occurs_elsewhere(values(points@), index as int),
        r matches Some(basis) ==> {
            &&& basis.wf()
            &&& basis@ == lagrange_basis_of(values(points@), index as int)
            &&& is_lagrange_basis(basis@, values(points@), index as int)
        },
{
    let n: usize = points.len();
    let ghost xs = values(points@);
    let one = Scalar::one();
    let mut coefficients: Vec<Scalar> = Vec::new();
    coefficients.push(one);
    let mut basis = Polynomial(coefficients);
    proof {
        assert(basis@ =~= seq![1nat]);
        assert(basis@.drop_first() =~= Seq::<nat>::empty());
        lemma_eval_unfold(basis@, xs[index as int]);
        lemma_fmul_zero(xs[index as int]);
        lemma_reduce_canonical(1);
    }
    let mut j: usize = 0;
    while j < n
        invariant
            j <= n,
            n == points@.len(),
            index < n,
            all_wf(points@),
            xs == values(points@),
            one.wf(),
            one@ == 1,
            basis.wf(),
            basis@ == basis_product(xs, index as int, j as nat),
            basis@.len() == (if j <= index {
                j + 1
            } else {
                j as int
            }),
            poly_eval(basis@, xs[index as int]) == 1,
            forall|k: int| 0 <= k < j && k != index ==> poly_eval(basis@, #[trigger] xs[k]) == 0,
            forall|k: int| 0 <= k < j && k != index ==> #[trigger] xs[k] != xs[index as int],
        decreases n - j,
    {
        if j != index {
            let here = points[j];
            let at = points[index];
            assert(here.wf() && at.wf());
            assert(here@ == xs[j as int] && at@ == xs[index as int]);
            let difference = at.minus(&here);
            proof {
                lemma_fsub_zero_iff_equal(at@, here@);
            }
            match difference.inverse() {
                None => {
                    assert(xs[j as int] == xs[index as int]);
                    return None;
                },
                Some(inverse) => {
                    let mut linear: Vec<Scalar> = Vec::new();
                    linear.push(here.negated());
                    linear.push(one);
                    let monic = Polynomial(linear);
                    assert(monic@ =~= seq![fneg(here@), 1nat]);
                    let factor = monic.scale(&inverse);
                    let next = basis.multiply(&factor);
                    proof {
                        lemma_mul_shape(basis@, factor@);
                        let weight: nat = inverse@;
                        assert forall|x: nat| #[trigger]
                            poly_eval(factor@, x) == fmul(fsub(x, here@), weight) by {
                            lemma_eval_linear(here@, x);
                        }
                        // at the point itself the new factor is one
                        lemma_fmul_one(1);
                        // at the point just handled the new factor vanishes
                        lemma_fmul_zero(weight);
                        lemma_fmul_zero(poly_eval(basis@, here@));
                        assert(fsub(here@, here@) == 0);
                        assert(poly_eval(next@, xs[j as int]) == 0);
                        // at the points handled before, the old factors vanish
                        assert forall|k: int| 0 <= k < j && k != index implies poly_eval(
                            next@,
                            #[trigger] xs[k],
                        ) == 0 by {
                            lemma_fmul_zero(poly_eval(factor@, xs[k]));
                        }
                    }
                    basis = next;
                },
            }
        }
        j += 1;
    }
    proof {
        if occurs_elsewhere(xs, index as int) {
            let k = choose|k: int| 0 <= k < xs.len() && k != index && #[trigger] xs[k] == xs[index as int];
            assert(xs[k] != xs[index as int]);
        }
    }
    Some(basis)
}

/// Pairs of a point and the value wanted there.
#[derive(Clone, Debug, PartialEq, Eq)]
pub struct PolynomialEvaluationPoints(pub Vec<(Scalar, Scalar)>);

impl PolynomialEvaluationPoints {
    /// Every point and every value is a canonical field element.
    pub open spec fn wf(&self) -> bool {
        forall|i: int|
            0 <= i < self.0@.len() ==> (#[trigger] self.0@[i]).0.wf() && self.0@[i].1.wf()
    }

    /// The points, by value.
    pub open spec fn xs(&self) -> Seq<nat> {
        Seq::new(self.0@.len(), |i: int| self.0@[i].0@)
    }

    /// The values wanted at the points.
    pub open spec fn ys(&self) -> Seq<nat> {
        Seq::new(self.0@.len(), |i: int| self.0@[i].1@)
    }

    /// The sum of the Lagrange basis polynomials of the points, each scaled by
    /// the value wanted at its point. It has as many coefficients as there are
    /// pairs and takes the wanted value at each point.
    ///
    /// There is none when a point occurs twice.
    pub fn interpolate(&self) -> (r: Option<Polynomial>)
        requires
            self.wf(),
        ensures
            r is Some <==> pairwise_distinct(self.xs()),
            r matches Some(p) ==> {
                &&& p.wf()
                &&& p@ == basis_combination(
                    self.xs(),
                    self.ys(),
                    self.0@.len() as nat,
                    self.0@.len() as nat,
                )
                &&& p@.len() == self.0@.len()
                &&& forall|i: int|
                    0 <= i < self.0@.len() ==> poly_eval(p@, #[trigger] self.xs()[i])
                        == self.ys()[i]
            },
    {
        let n: usize = self.0.len();
        let ghost xs = self.xs();
        let ghost ys = self.ys();
        let mut points: Vec<Scalar> = Vec::new();
        let mut i: usize = 0;
        while i < n
            invariant
                i <= n,
                n == self.0@.len(),
                self.wf(),
                points@.len() == i,
                forall|k: int| 0 <= k < i ==> #[trigger] points@[k] == self.0@[k].0,
            decreases n - i,
        {
            points.push(self.0[i].0);
            i += 1;
        }
        assert(values(points@) =~= xs);
        let mut sum = Polynomial::zero(n);
        proof {
            assert forall|k: int| 0 <= k < n implies poly_eval(sum@, #[trigger] xs[k]) == 0 by {
                lemma_eval_zeros(n as nat, xs[k]);
            }
        }
        i = 0;
        while i < n
            invariant
                i <= n,
                n == self.0@.len(),
                self.wf(),
                xs == self.xs(),
                ys == self.ys(),
                points@.len() == n,
                all_wf(points@),
                values(points@) == xs,
                sum.wf(),
                sum@ == basis_combination(xs, ys, n as nat, i as nat),
                sum@.len() == n,
                forall|k: int| 0 <= k < i ==> poly_eval(sum@, #[trigger] xs[k]) == ys[k],
                forall|k: int| i <= k < n ==> poly_eval(sum@, #[trigger] xs[k]) == 0,
                forall|a: int, b: int|
                    0 <= a < i && 0 <= b < n && a != b ==> #[trigger] xs[a] != #[trigger] xs[b],
            decreases n - i,
        {
            match lagrange_basis_over(&points, i) {
                None => {
                    proof {
                        let k = choose|k: int|
                            0 <= k < xs.len() && k != i && #[trigger] xs[k] == xs[i as int];
                        assert(xs[k] == xs[i as int]);
                    }
                    return None;
                },
                Some(basis) => {
                    let wanted = self.0[i].1;
                    assert(wanted.wf() && wanted@ == ys[i as int]);
                    let term = basis.scale(&wanted);
                    let ghost before = sum@;
                    sum.add_assign(&term);
                    proof {
                        assert forall|k: int| 0 <= k < n implies poly_eval(
                            sum@,
                            #[trigger] xs[k],
                        ) == (if k <= i {
                            ys[k]
                        } else {
                            0
                        }) by {
                            assert(self.0@[k].1.wf());
                            lemma_fmul_zero(wanted@);
                            lemma_fmul_one(wanted@);
                            lemma_fadd_zero(ys[k]);
                            lemma_fadd_zero(0);
                        }
                        assert forall|a: int, b: int|
                            0 <= a < i + 1 && 0 <= b < n && a != b implies #[trigger] xs[a]
                            != #[trigger] xs[b] by {
                            if a == i {
                                if xs[a] == xs[b] {
                                    assert(occurs_elsewhere(xs, i as int));
                                }
                            }
                        }
                    }
                },
            }
            i += 1;
        }
        Some(sum)
    }
}

} // verus!
