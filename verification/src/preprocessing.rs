//! Preprocessing: from a finished circuit to the polynomials that describe it.
//!
//! The steps run in a fixed order. The domain and its extended coset come
//! first, then the rotated-coset mapping, the three permutation polynomials,
//! the five selector polynomials and the vanishing polynomial. The result
//! carries its own copy of the circuit.

use std::collections::HashMap;
use vstd::prelude::*;
use vstd::arithmetic::div_mod::{lemma_fundamental_div_mod, lemma_fundamental_div_mod_converse};
use vstd::arithmetic::power2::pow2;
use crate::algebra::{
    lemma_fadd_zero, lemma_fmul_comm, lemma_fmul_one, lemma_fmul_zero, lemma_fpow_bound,
    lemma_fpow_one,
};
use crate::domain::{
    coset_point, coset_points, coset_scale, domain_generator, domain_size, log_size, log_size_of,
    power_of_two, primitive_root, vanishing_coefficients, vanishing_polynomial, MAX_LOG_SIZE,
};
use crate::field::{fmul, fpow, fsub, Scalar};
use crate::interpolation::{
    all_wf, basis_combination, occurs_elsewhere, pairwise_distinct, values,
    PolynomialEvaluationPoints,
};
use crate::order::{lemma_extended_coset_is_distinct, lemma_generator_order};
use crate::plonk::{PlonkCircuit, PlonkError, K1, K2};
use crate::polynomial::{lemma_eval_unfold, poly_eval, Polynomial};

verus! {

broadcast use vstd::std_specs::hash::group_hash_axioms;

/// A domain for `n` gates exists within the field and fits the machine: its
/// size is at most 2^32, and one more coefficient than that can be stored.
pub open spec fn size_supported(n: nat) -> bool {
    log_size(n) <= 32 && domain_size(n) < usize::MAX
}

/// Why no domain can be built for `n` gates, if it cannot: there is no gate,
/// or the domain would be too large.
pub open spec fn domain_defect(n: nat) -> Option<PlonkError> {
    if n == 0 {
        Some(PlonkError::EmptyCircuit)
    } else if !size_supported(n) {
        Some(PlonkError::UnsupportedSize)
    } else {
        None
    }
}

/// The rotated-coset values of the wires of one class, in the order of their
/// positions.
pub open spec fn class_values(sigma_star: Map<usize, Scalar>, class: nat, n: nat) -> Seq<nat> {
    Seq::new(n, |i: int| sigma_star[(class * n + i) as usize]@)
}

/// The polynomial takes the wanted value at each point.
pub open spec fn reproduces(poly: Seq<nat>, points: Seq<nat>, wanted: Seq<nat>) -> bool {
    forall|i: int|
        0 <= i < points.len() && i < wanted.len() ==> poly_eval(poly, #[trigger] points[i])
            == wanted[i]
}

/// What preprocessing hands to the prover and the verifier: the vanishing
/// polynomial of the domain, the selector and permutation polynomials, the
/// rotated-coset mapping, and a copy of the circuit as it was preprocessed.
pub struct PreprocessedInput {
    pub blinder_polynomial: Polynomial,
    pub constraints: PlonkCircuit,
    pub sigma_star: HashMap<usize, Scalar>,
    pub qm_x: Polynomial,
    pub ql_x: Polynomial,
    pub qr_x: Polynomial,
    pub qo_x: Polynomial,
    pub qc_x: Polynomial,
    pub qs1_x: Polynomial,
    pub qs2_x: Polynomial,
    pub qs3_x: Polynomial,
}

impl PreprocessedInput {
    /// Everything in the artifact is made of canonical field elements, and the
    /// circuit in it is well formed.
    pub open spec fn wf(&self) -> bool {
        &&& self.blinder_polynomial.wf()
        &&& self.constraints.wf()
        &&& self.qm_x.wf()
        &&& self.ql_x.wf()
        &&& self.qr_x.wf()
        &&& self.qo_x.wf()
        &&& self.qc_x.wf()
        &&& self.qs1_x.wf()
        &&& self.qs2_x.wf()
        &&& self.qs3_x.wf()
        &&& forall|w: usize|
            self.sigma_star@.contains_key(w) ==> (#[trigger] self.sigma_star@[w]).wf()
    }

    /// The artifact is the preprocessing of `circuit`:
    /// - it holds a copy of the circuit;
    /// - its mapping gives every wire its rotated-coset value;
    /// - each selector polynomial is the interpolation of its column over the
    ///   domain powers;
    /// - each permutation polynomial is the combination of the Lagrange basis
    ///   polynomials of the extended coset with the rotated-coset values of
    ///   its wire class;
    /// - its vanishing polynomial is `X^N - 1` for the domain size `N`.
    pub open spec fn describes(&self, circuit: &PlonkCircuit) -> bool {
        let n = circuit.nr_constraints as nat;
        let domain = values(circuit.powers_omega@);
        let coset = values(circuit.extended_h_subgroup@);
        &&& self.constraints.same_state(circuit)
        &&& forall|w: usize| self.sigma_star@.contains_key(w) <==> w < circuit.nr_wires
        &&& forall|w: usize|
            w < circuit.nr_wires ==> (#[trigger] self.sigma_star@[w])@ == circuit.sigma_star_of(w)
        &&& self.ql_x@ == basis_combination(domain, values(circuit.constraints.ql@), n, n)
        &&& self.qr_x@ == basis_combination(domain, values(circuit.constraints.qr@), n, n)
        &&& self.qo_x@ == basis_combination(domain, values(circuit.constraints.qo@), n, n)
        &&& self.qm_x@ == basis_combination(domain, values(circuit.constraints.qm@), n, n)
        &&& self.qc_x@ == basis_combination(domain, values(circuit.constraints.qc@), n, n)
        &&& self.qs1_x@ == basis_combination(coset, class_values(self.sigma_star@, 0, n), n, n)
        &&& self.qs2_x@ == basis_combination(coset, class_values(self.sigma_star@, 1, n), n, n)
        &&& self.qs3_x@ == basis_combination(coset, class_values(self.sigma_star@, 2, n), n, n)
        &&& self.blinder_polynomial@ == vanishing_coefficients(domain_size(n))
    }

    /// The polynomials of the artifact give back what they were built from:
    /// - each selector polynomial has one coefficient per gate and takes, at
    ///   the i-th domain power, the i-th coefficient of its column;
    /// - the permutation polynomial of each wire class has one coefficient per
    ///   point of the extended coset, takes, at the i-th domain power, the
    ///   rotated-coset value of the i-th wire of the class, and is zero at the
    ///   points of the other two cosets;
    /// - the vanishing polynomial is zero at the generator of the domain.
    pub open spec fn round_trips(&self, circuit: &PlonkCircuit) -> bool {
        let n = circuit.nr_constraints as nat;
        let domain = values(circuit.powers_omega@);
        let coset = values(circuit.extended_h_subgroup@);
        &&& reproduces(self.ql_x@, domain, values(circuit.constraints.ql@))
        &&& reproduces(self.qr_x@, domain, values(circuit.constraints.qr@))
        &&& reproduces(self.qo_x@, domain, values(circuit.constraints.qo@))
        &&& reproduces(self.qm_x@, domain, values(circuit.constraints.qm@))
        &&& reproduces(self.qc_x@, domain, values(circuit.constraints.qc@))
        &&& forall|i: int|
            0 <= i < n ==> poly_eval(self.qs1_x@, #[trigger] domain[i])
                == self.sigma_star@[i as usize]@
        &&& forall|i: int|
            0 <= i < n ==> poly_eval(self.qs2_x@, #[trigger] domain[i]) == self.sigma_star@[(n
                + i) as usize]@
        &&& forall|i: int|
            0 <= i < n ==> poly_eval(self.qs3_x@, #[trigger] domain[i]) == self.sigma_star@[(2
                * n + i) as usize]@
        &&& forall|j: int|
            n <= j < 3 * n ==> {
                &&& poly_eval(self.qs1_x@, #[trigger] coset[j]) == 0
                &&& poly_eval(self.qs2_x@, coset[j]) == 0
                &&& poly_eval(self.qs3_x@, coset[j]) == 0
            }
        &&& self.ql_x@.len() == n && self.qr_x@.len() == n && self.qo_x@.len() == n
        &&& self.qm_x@.len() == n && self.qc_x@.len() == n
        &&& self.qs1_x@.len() == 3 * n && self.qs2_x@.len() == 3 * n && self.qs3_x@.len() == 3 * n
        &&& poly_eval(self.blinder_polynomial@, domain[0]) == 0
    }
}

/// The field element stored for `wire`.
fn value_of(sigma_star: &HashMap<usize, Scalar>, wire: usize) -> (value: Scalar)
    requires
        sigma_star@.contains_key(wire),
    ensures
        value == sigma_star@[wire],
{
    match sigma_star.get(&wire) {
        Some(value) => *value,
        None => vstd::pervasive::unreached(),
    }
}

/// Appends to `coset` the coset of one wire class: every domain power, scaled
/// by the constant of the class. The powers of the first class are taken as
/// they are.
fn append_coset(coset: &mut Vec<Scalar>, powers: &Vec<Scalar>, scale: &Scalar, class: usize)
    requires
        class < 3,
        powers@.len() > 0,
        old(coset)@.len() == class * powers@.len(),
        3 * powers@.len() <= usize::MAX,
        all_wf(powers@),
        all_wf(old(coset)@),
        scale.wf(),
        scale@ == coset_scale(class as int),
    ensures
        final(coset)@.len() == (class + 1) * powers@.len(),
        all_wf(final(coset)@),
        forall|w: int| 0 <= w < old(coset)@.len() ==> final(coset)@[w] == old(coset)@[w],
        forall|i: int|
            0 <= i < powers@.len() ==> (#[trigger] final(coset)@[class * powers@.len() + i])@
                == fmul(coset_scale(class as int), powers@[i]@),
{
    let n: usize = powers.len();
    let ghost start: int = class * n;
    let mut i: usize = 0;
    assert((class + 1) * n == start + n) by (nonlinear_arith)
        requires
            start == class * n,
    ;
    assert(start + n <= 3 * n) by (nonlinear_arith)
        requires
            start == class * n,
            class < 3,
    ;
    while i < n
        invariant
            i <= n,
            n == powers@.len(),
            start + n <= usize::MAX,
            coset@.len() == start + i,
            all_wf(powers@),
            all_wf(coset@),
            scale.wf(),
            scale@ == coset_scale(class as int),
            class == 0 ==> scale@ == 1,
            start == old(coset)@.len(),
            forall|w: int| 0 <= w < start ==> coset@[w] == old(coset)@[w],
            forall|w: int|
                start <= w < start + i ==> (#[trigger] coset@[w])@ == fmul(
                    coset_scale(class as int),
                    powers@[w - start]@,
                ),
        decreases n - i,
    {
        let power = powers[i];
        assert(power.wf());
        let point = if class == 0 {
            proof {
                lemma_fmul_one(power@);
            }
            power
        } else {
            proof {
                lemma_fmul_comm(power@, scale@);
            }
            power.times(scale)
        };
        coset.push(point);
        i += 1;
    }
    assert forall|j: int| 0 <= j < n implies (#[trigger] coset@[class * n + j])@ == fmul(
        coset_scale(class as int),
        powers@[j]@,
    ) by {
        assert(coset@[start + j]@ == fmul(coset_scale(class as int), powers@[start + j - start]@));
    }
}

impl PlonkCircuit {
    /// The domain of the circuit has been derived: the cached powers are
    /// `omega^1, .., omega^n` for the generator `omega` of the domain and the
    /// `n` gates of the circuit, and the extended coset holds these powers
    /// three times, scaled by one, `K1` and `K2`.
    pub open spec fn domain_ready(&self) -> bool {
        let n = self.nr_constraints as nat;
        let omega = domain_generator(n);
        &&& n >= 1
        &&& self.powers_omega@.len() == n
        &&& forall|i: int|
            0 <= i < n ==> (#[trigger] self.powers_omega@[i])@ == fpow(omega, (i + 1) as nat)
        &&& values(self.extended_h_subgroup@) == coset_points(omega, n)
    }

    /// Derives the evaluation domain: the generator whose order is the least
    /// power of two that holds every gate, its powers, and the extended coset.
    ///
    /// The generator is checked to have that order, a check that is proved
    /// never to fail. The only failures are a circuit without gates and a
    /// domain that is too large; on either the circuit is left as it was.
    pub fn build_domain(&mut self) -> (r: Result<(), PlonkError>)
        requires
            old(self).wf(),
        ensures
            final(self).wf(),
            final(self).nr_wires == old(self).nr_wires,
            final(self).nr_constraints == old(self).nr_constraints,
            final(self).constraints == old(self).constraints,
            final(self).permutations == old(self).permutations,
            r is Err <==> domain_defect(old(self).nr_constraints as nat) is Some,
            r matches Err(e) ==> domain_defect(old(self).nr_constraints as nat) == Some(e)
                && *final(self) == *old(self),
            r is Ok ==> final(self).domain_ready(),
    {
        let n: usize = self.nr_constraints;
        if n == 0 {
            return Err(PlonkError::EmptyCircuit);
        }
        let k: u32 = log_size_of(n);
        if k > MAX_LOG_SIZE {
            return Err(PlonkError::UnsupportedSize);
        }
        let size: u64 = power_of_two(k);
        if size >= usize::MAX as u64 {
            return Err(PlonkError::UnsupportedSize);
        }
        let omega = primitive_root().pow(power_of_two(MAX_LOG_SIZE - k));
        let one = Scalar::one();
        // the generator must have the order of the domain
        if !omega.pow(size).equals(&one) {
            proof {
                lemma_generator_order(n as nat);
            }
            return Err(PlonkError::DomainOrderCheckFailed);
        }
        let mut powers: Vec<Scalar> = Vec::new();
        powers.push(omega);
        proof {
            lemma_fpow_one(omega@);
        }
        let mut i: usize = 1;
        while i < n
            invariant
                1 <= i <= n,
                omega.wf(),
                powers@.len() == i,
                all_wf(powers@),
                forall|j: int|
                    0 <= j < i ==> (#[trigger] powers@[j])@ == fpow(omega@, (j + 1) as nat),
            decreases n - i,
        {
            let next = powers[i - 1].times(&omega);
            proof {
                lemma_fmul_comm(powers@[i - 1]@, omega@);
            }
            powers.push(next);
            i += 1;
        }
        let mut coset: Vec<Scalar> = Vec::new();
        append_coset(&mut coset, &powers, &one, 0);
        let ghost first = coset@;
        append_coset(&mut coset, &powers, &K1(), 1);
        let ghost second = coset@;
        append_coset(&mut coset, &powers, &K2(), 2);
        proof {
            let points = coset_points(omega@, n as nat);
            assert forall|w: int| 0 <= w < 3 * n implies (#[trigger] coset@[w])@ == points[w] by {
                let class: int = w / (n as int);
                let position: int = w % (n as int);
                lemma_fundamental_div_mod(w, n as int);
                assert(0 <= class < 3) by (nonlinear_arith)
                    requires
                        class == w / (n as int),
                        0 <= w < 3 * n,
                        n > 0,
                ;
                assert(w == class * n + position) by (nonlinear_arith)
                    requires
                        w == n * class + position,
                ;
                if class == 0 {
                    assert(first[0 * n + position]@ == fmul(1, powers@[position]@));
                    assert(second[w] == first[w]);
                } else if class == 1 {
                    assert(second[1 * n + position]@ == fmul(7, powers@[position]@));
                } else {
                    assert(coset@[2 * n + position]@ == fmul(13, powers@[position]@));
                }
            }
            assert(values(coset@) =~= points);
        }
        self.powers_omega = powers;
        self.extended_h_subgroup = coset;
        Ok(())
    }

    /// The three permutation polynomials, one per wire class: the sum, over
    /// the domain positions, of the Lagrange basis polynomial of the extended
    /// coset at the position times the rotated-coset value of the wire of the
    /// class at the position.
    ///
    /// Each one has as many coefficients as the extended coset has points. It
    /// takes, at the i-th domain power, the rotated-coset value of the i-th
    /// wire of its class, and is zero at the points of the other two cosets.
    /// Fails with an inversion of zero when one of the domain powers occurs
    /// twice in the extended coset.
    pub fn permutation_polynomials(&self, sigma_star: &HashMap<usize, Scalar>) -> (r: Result<
        (Polynomial, Polynomial, Polynomial),
        PlonkError,
    >)
        requires
            self.wf(),
            self.nr_constraints >= 1,
            self.extended_h_subgroup@.len() == 3 * self.nr_constraints,
            forall|w: usize| w < self.nr_wires ==> sigma_star@.contains_key(w),
            forall|w: usize| w < self.nr_wires ==> (#[trigger] sigma_star@[w]).wf(),
        ensures
            r is Err <==> exists|i: int|
                0 <= i < self.nr_constraints && #[trigger] occurs_elsewhere(
                    values(self.extended_h_subgroup@),
                    i,
                ),
            r matches Err(e) ==> e == PlonkError::InversionOfZero,
            r matches Ok(polys) ==> {
                let n = self.nr_constraints as int;
                let points = values(self.extended_h_subgroup@);
                &&& polys.0.wf() && polys.1.wf() && polys.2.wf()
                &&& polys.0@ == basis_combination(
                    points,
                    class_values(sigma_star@, 0, n as nat),
                    n as nat,
                    n as nat,
                )
                &&& polys.1@ == basis_combination(
                    points,
                    class_values(sigma_star@, 1, n as nat),
                    n as nat,
                    n as nat,
                )
                &&& polys.2@ == basis_combination(
                    points,
                    class_values(sigma_star@, 2, n as nat),
                    n as nat,
                    n as nat,
                )
                &&& polys.0@.len() == 3 * n && polys.1@.len() == 3 * n && polys.2@.len() == 3 * n
                &&& forall|i: int|
                    0 <= i < n ==> poly_eval(polys.0@, #[trigger] points[i])
                        == sigma_star@[i as usize]@
                &&& forall|i: int|
                    0 <= i < n ==> poly_eval(polys.1@, #[trigger] points[i]) == sigma_star@[(n
                        + i) as usize]@
                &&& forall|i: int|
                    0 <= i < n ==> poly_eval(polys.2@, #[trigger] points[i]) == sigma_star@[(2
                        * n + i) as usize]@
                &&& forall|j: int|
                    n <= j < 3 * n ==> {
                        &&& poly_eval(polys.0@, #[trigger] points[j]) == 0
                        &&& poly_eval(polys.1@, points[j]) == 0
                        &&& poly_eval(polys.2@, points[j]) == 0
                    }
            },
    {
        let n: usize = self.nr_constraints;
        let ghost points = values(self.extended_h_subgroup@);
        let mut qs1_x = Polynomial::zero(n);
        let mut qs2_x = Polynomial::zero(n);
        let mut qs3_x = Polynomial::zero(n);
        proof {
            assert forall|j: int| 0 <= j < 3 * n implies poly_eval(qs1_x@, #[trigger] points[j])
                == 0 by {
                crate::interpolation::lemma_eval_zeros(n as nat, points[j]);
            }
        }
        let mut i: usize = 0;
        while i < n
            invariant
                i <= n,
                n == self.nr_constraints,
                n >= 1,
                self.wf(),
                self.extended_h_subgroup@.len() == 3 * n,
                points == values(self.extended_h_subgroup@),
                forall|w: usize| w < self.nr_wires ==> sigma_star@.contains_key(w),
                forall|w: usize| w < self.nr_wires ==> (#[trigger] sigma_star@[w]).wf(),
                qs1_x.wf(),
                qs2_x.wf(),
                qs3_x.wf(),
                qs1_x@ == basis_combination(
                    points,
                    class_values(sigma_star@, 0, n as nat),
                    n as nat,
                    i as nat,
                ),
                qs2_x@ == basis_combination(
                    points,
                    class_values(sigma_star@, 1, n as nat),
                    n as nat,
                    i as nat,
                ),
                qs3_x@ == basis_combination(
                    points,
                    class_values(sigma_star@, 2, n as nat),
                    n as nat,
                    i as nat,
                ),
                qs1_x@.len() == (if i == 0 { n as int } else { 3 * n }),
                qs2_x@.len() == (if i == 0 { n as int } else { 3 * n }),
                qs3_x@.len() == (if i == 0 { n as int } else { 3 * n }),
                forall|j: int|
                    0 <= j < i ==> poly_eval(qs1_x@, #[trigger] points[j])
                        == sigma_star@[j as usize]@,
                forall|j: int|
                    0 <= j < i ==> poly_eval(qs2_x@, #[trigger] points[j]) == sigma_star@[(n
                        + j) as usize]@,
                forall|j: int|
                    0 <= j < i ==> poly_eval(qs3_x@, #[trigger] points[j]) == sigma_star@[(2 * n
                        + j) as usize]@,
                forall|j: int| i <= j < 3 * n ==> poly_eval(qs1_x@, #[trigger] points[j]) == 0,
                forall|j: int| i <= j < 3 * n ==> poly_eval(qs2_x@, #[trigger] points[j]) == 0,
                forall|j: int| i <= j < 3 * n ==> poly_eval(qs3_x@, #[trigger] points[j]) == 0,
                forall|j: int| 0 <= j < i ==> !#[trigger] occurs_elsewhere(points, j),
            decreases n - i,
        {
            let lp = match self.lagrange_basis(i) {
                Ok(lp) => lp,
                Err(e) => {
                    return Err(e);
                },
            };
            let s1 = value_of(sigma_star, i);
            let s2 = value_of(sigma_star, n + i);
            let s3 = value_of(sigma_star, n * 2 + i);
            proof {
                assert(class_values(sigma_star@, 0, n as nat)[i as int] == s1@);
                assert(class_values(sigma_star@, 1, n as nat)[i as int] == s2@);
                assert(class_values(sigma_star@, 2, n as nat)[i as int] == s3@);
            }
            let t1 = lp.scale(&s1);
            let t2 = lp.scale(&s2);
            let t3 = lp.scale(&s3);
            let ghost (b1, b2, b3) = (qs1_x@, qs2_x@, qs3_x@);
            qs1_x.add_assign(&t1);
            qs2_x.add_assign(&t2);
            qs3_x.add_assign(&t3);
            proof {
                lemma_fmul_zero(s1@);
                lemma_fmul_zero(s2@);
                lemma_fmul_zero(s3@);
                lemma_fmul_one(s1@);
                lemma_fmul_one(s2@);
                lemma_fmul_one(s3@);
                lemma_fadd_zero(s1@);
                lemma_fadd_zero(s2@);
                lemma_fadd_zero(s3@);
                assert forall|j: int| 0 <= j < 3 * n implies {
                    &&& poly_eval(qs1_x@, #[trigger] points[j]) == (if j == i {
                        s1@
                    } else {
                        poly_eval(b1, points[j])
                    })
                    &&& poly_eval(qs2_x@, points[j]) == (if j == i {
                        s2@
                    } else {
                        poly_eval(b2, points[j])
                    })
                    &&& poly_eval(qs3_x@, points[j]) == (if j == i {
                        s3@
                    } else {
                        poly_eval(b3, points[j])
                    })
                } by {
                    lemma_eval_unfold(b1, points[j]);
                    lemma_eval_unfold(b2, points[j]);
                    lemma_eval_unfold(b3, points[j]);
                    lemma_fadd_zero(poly_eval(b1, points[j]));
                    lemma_fadd_zero(poly_eval(b2, points[j]));
                    lemma_fadd_zero(poly_eval(b3, points[j]));
                }
            }
            i += 1;
        }
        Ok((qs1_x, qs2_x, qs3_x))
    }

    /// The selector polynomial of one column of the table: the interpolation
    /// through the pairs of the i-th cached domain power and the i-th entry of
    /// the column. It has one coefficient per gate and takes, at the i-th
    /// cached domain power, the i-th entry of the column.
    ///
    /// Fails with an inversion of zero when a cached power occurs twice.
    pub fn selector_polynomial(&self, column: &Vec<Scalar>) -> (r: Result<Polynomial, PlonkError>)
        requires
            all_wf(self.powers_omega@),
            all_wf(column@),
            column@.len() == self.powers_omega@.len(),
        ensures
            r is Ok <==> pairwise_distinct(values(self.powers_omega@)),
            r matches Err(e) ==> e == PlonkError::InversionOfZero,
            r matches Ok(p) ==> {
                &&& p.wf()
                &&& p@ == basis_combination(
                    values(self.powers_omega@),
                    values(column@),
                    column@.len(),
                    column@.len(),
                )
                &&& p@.len() == column@.len()
                &&& reproduces(p@, values(self.powers_omega@), values(column@))
            },
    {
        let n: usize = column.len();
        let mut pairs: Vec<(Scalar, Scalar)> = Vec::new();
        let mut i: usize = 0;
        while i < n
            invariant
                i <= n,
                n == column@.len(),
                n == self.powers_omega@.len(),
                all_wf(self.powers_omega@),
                all_wf(column@),
                pairs@.len() == i,
                forall|j: int|
                    0 <= j < i ==> (#[trigger] pairs@[j]) == (self.powers_omega@[j], column@[j]),
            decreases n - i,
        {
            pairs.push((self.powers_omega[i], column[i]));
            i += 1;
        }
        let points = PolynomialEvaluationPoints(pairs);
        assert(points.xs() =~= values(self.powers_omega@));
        assert(points.ys() =~= values(column@));
        match points.interpolate() {
            Some(p) => Ok(p),
            None => Err(PlonkError::InversionOfZero),
        }
    }

    /// Preprocesses the circuit: derives the domain and the extended coset,
    /// computes the rotated-coset mapping, builds the three permutation
    /// polynomials, the five selector polynomials and the vanishing polynomial
    /// of the domain, and packs them with a copy of the circuit.
    ///
    /// The circuit keeps the domain that was derived. Its table, wires and
    /// permutation are never changed. Preprocessing fails only for a circuit
    /// without gates or with too large a domain: the generator always has the
    /// order of the domain, and no two points of the extended coset coincide,
    /// so that every difference of points has an inverse.
    pub fn setup(&mut self) -> (r: Result<PreprocessedInput, PlonkError>)
        requires
            old(self).wf(),
        ensures
            final(self).wf(),
            final(self).nr_wires == old(self).nr_wires,
            final(self).nr_constraints == old(self).nr_constraints,
            final(self).constraints == old(self).constraints,
            final(self).permutations == old(self).permutations,
            r is Err <==> domain_defect(old(self).nr_constraints as nat) is Some,
            r matches Err(e) ==> domain_defect(old(self).nr_constraints as nat) == Some(e),
            r matches Ok(input) ==> {
                &&& final(self).domain_ready()
                &&& input.wf()
                &&& input.describes(final(self))
                &&& input.round_trips(final(self))
            },
    {
        match self.build_domain() {
            Ok(_) => {},
            Err(e) => {
                return Err(e);
            },
        }
        let n: usize = self.nr_constraints;
        let ghost omega = domain_generator(n as nat);
        let ghost domain = values(self.powers_omega@);
        let ghost points = values(self.extended_h_subgroup@);
        proof {
            assert(points.len() == 3 * n);
            assert forall|i: int| 0 <= i < n implies #[trigger] points[i] == domain[i] by {
                lemma_first_coset_is_domain(omega, n as nat, i);
            }
            lemma_extended_coset_is_distinct(n as nat);
            assert forall|i: int| 0 <= i < n implies !#[trigger] occurs_elsewhere(points, i) by {
                if occurs_elsewhere(points, i) {
                    let j = choose|j: int|
                        0 <= j < points.len() && j != i && #[trigger] points[j] == points[i];
                    assert(points[i] != points[j]);
                }
            }
        }

        // Next, we define the rotated-coset mapping
        let sigma_star = self.compute_sigma_star();

        // Now we create the permutation polynomials
        let (qs1_x, qs2_x, qs3_x) = match self.permutation_polynomials(&sigma_star) {
            Ok(polys) => polys,
            Err(e) => {
                return Err(e);
            },
        };
        proof {
            assert forall|i: int| 0 <= i < n implies {
                &&& poly_eval(qs1_x@, #[trigger] domain[i]) == sigma_star@[i as usize]@
                &&& poly_eval(qs2_x@, domain[i]) == sigma_star@[(n + i) as usize]@
                &&& poly_eval(qs3_x@, domain[i]) == sigma_star@[(2 * n + i) as usize]@
            } by {
                assert(points[i] == domain[i]);
            }
            // no domain power occurs twice, since none occurs twice in the coset
            assert forall|i: int, j: int| 0 <= i < n && 0 <= j < n && i != j implies #[trigger]
                domain[i] != #[trigger] domain[j] by {
                if domain[i] == domain[j] {
                    assert(points[j] == points[i]);
                    assert(occurs_elsewhere(points, i));
                }
            }
            assert(pairwise_distinct(domain));
        }

        // Next we compute the selector polynomials, by interpolating the pairs
        // of the i-th domain power and the i-th entry of each column.
        let ql_x = match self.selector_polynomial(&self.constraints.ql) {
            Ok(p) => p,
            Err(e) => {
                return Err(e);
            },
        };
        let qr_x = match self.selector_polynomial(&self.constraints.qr) {
            Ok(p) => p,
            Err(e) => {
                return Err(e);
            },
        };
        let qc_x = match self.selector_polynomial(&self.constraints.qc) {
            Ok(p) => p,
            Err(e) => {
                return Err(e);
            },
        };
        let qm_x = match self.selector_polynomial(&self.constraints.qm) {
            Ok(p) => p,
            Err(e) => {
                return Err(e);
            },
        };
        let qo_x = match self.selector_polynomial(&self.constraints.qo) {
            Ok(p) => p,
            Err(e) => {
                return Err(e);
            },
        };

        let size: u64 = power_of_two(log_size_of(n));
        proof {
            vstd::arithmetic::power2::lemma_pow2_pos(log_size(n as nat));
        }
        let blinder_polynomial = vanishing_polynomial(size as usize);
        proof {
            // the vanishing polynomial is zero at the generator, whose order
            // is the size of the domain
            lemma_generator_order(n as nat);
            lemma_fpow_bound(crate::domain::root_of_unity(), pow2((32 - log_size(n as nat)) as nat));
            lemma_fpow_one(omega);
            assert(domain[0] == omega);
            assert(fsub(1, 1) == 0);
        }

        let input = PreprocessedInput {
            blinder_polynomial,
            sigma_star,
            qm_x,
            ql_x,
            qr_x,
            qo_x,
            qc_x,
            qs1_x,
            qs2_x,
            qs3_x,
            constraints: self.snapshot(),
        };
        Ok(input)
    }
}

/// On the first `n` positions the extended coset holds the domain powers
/// themselves.
pub proof fn lemma_first_coset_is_domain(omega: nat, n: nat, i: int)
    requires
        0 <= i < n,
    ensures
        coset_point(omega, n, i) == fpow(omega, (i + 1) as nat),
{
    lemma_fundamental_div_mod_converse(i, n as int, 0, i);
    lemma_fpow_bound(omega, (i + 1) as nat);
    lemma_fmul_one(fpow(omega, (i + 1) as nat));
}

} // verus!
