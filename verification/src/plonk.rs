//! The circuit builder and the preprocessing pipeline.
//!
//! A [`PlonkCircuit`] grows by addition and multiplication gates, each with a
//! left, a right and an output wire, and ties wires together through its
//! permutation. Every gate puts the equation
//!
//! `q_L * a + q_R * b + q_O * c + q_M * a * b + q_C = 0`
//!
//! on the values `a`, `b`, `c` of its wires. Preprocessing derives the
//! evaluation domain and turns the table and the permutation into polynomials.

use std::collections::HashMap;
use vstd::prelude::*;
use crate::domain::coset_scale;
use crate::field::{fmul, fpow, Scalar};
use crate::gates::{addition_row, copy_scalars, multiplication_row};
pub use crate::gates::{ComputationTrace, Constraints};
pub use crate::preprocessing::PreprocessedInput;
use crate::interpolation::{
    all_wf, is_lagrange_basis, lagrange_basis_of, lagrange_basis_over, occurs_elsewhere, values,
};
use crate::permutation::{
    extended_by_gate, is_bijection, is_total, lemma_gate_keeps_bijection, lemma_gate_keeps_total,
    lemma_splice_bijection, lemma_splice_keeps_total, spliced,
};
use crate::polynomial::Polynomial;

verus! {

broadcast use vstd::std_specs::hash::group_hash_axioms;

/// What can go wrong while a circuit is built or preprocessed. Each of these
/// is a defect of the caller or of the configuration, not a passing condition.
#[derive(Clone, Copy, Debug, PartialEq, Eq)]
pub enum PlonkError {
    /// A wire was named that no gate has created yet.
    BoundaryViolation { wire_count: usize, in_wire: usize, out_wire: usize },
    /// Preprocessing was asked for a circuit without gates.
    EmptyCircuit,
    /// The circuit needs a domain larger than the field or the machine offers.
    UnsupportedSize,
    /// The generator of the domain does not have the expected order. The
    /// generator that preprocessing derives is proved to have it.
    DomainOrderCheckFailed,
    /// Two points of the domain coincide, so that a difference has no inverse.
    InversionOfZero,
}

/// The constant that scales the coset of the right wires.
#[allow(non_snake_case)]
pub fn K1() -> (r: Scalar)
    ensures
        r.wf(),
        r@ == coset_scale(1),
{
    Scalar::from_u64(7)
}

/// The constant that scales the coset of the output wires.
#[allow(non_snake_case)]
pub fn K2() -> (r: Scalar)
    ensures
        r.wf(),
        r@ == coset_scale(2),
{
    Scalar::from_u64(13)
}

/// The value that the rotated-coset mapping gives to the wire `w`: the
/// generator raised to the position of the wire's target within its class,
/// scaled by the constant of the wire's own class.
pub open spec fn sigma_star_value(omega: nat, n: nat, perm: Map<usize, usize>, w: usize) -> nat {
    let power = fpow(omega, (perm[w] as nat) % n);
    let class = (w as int) / (n as int);
    if class == 0 {
        power
    } else {
        fmul(coset_scale(class), power)
    }
}

/// A circuit under construction: its constraint table, its wires and their
/// permutation, and the evaluation domain once preprocessing has derived it.
#[derive(Clone, Debug)]
pub struct PlonkCircuit {
    pub extended_h_subgroup: Vec<Scalar>,
    pub constraints: Constraints,
    pub permutations: HashMap<usize, usize>,
    pub nr_wires: usize,
    pub nr_constraints: usize,
    pub powers_omega: Vec<Scalar>,
}

/// A circuit together with a trace of values for its wires.
pub struct PlonkConstraintSystem(pub ComputationTrace, pub PlonkCircuit);

/// The wire that the permutation gives for `wire`.
fn target_of(permutations: &HashMap<usize, usize>, wire: usize) -> (target: usize)
    requires
        permutations@.contains_key(wire),
    ensures
        target == permutations@[wire],
{
    match permutations.get(&wire) {
        Some(target) => *target,
        None => vstd::pervasive::unreached(),
    }
}

impl PlonkCircuit {
    /// The invariant of a circuit: three wires per gate, one table row per
    /// gate, a permutation defined on exactly the existing wires, and
    /// canonical field elements throughout.
    pub open spec fn wf(&self) -> bool {
        &&& self.nr_wires == 3 * self.nr_constraints
        &&& self.constraints.wf()
        &&& self.constraints.len() == self.nr_constraints
        &&& is_total(self.permutations@, self.nr_wires as nat)
        &&& all_wf(self.extended_h_subgroup@)
        &&& all_wf(self.powers_omega@)
    }

    /// The permutation is a bijection on the wires of the circuit.
    pub open spec fn permutation_is_bijection(&self) -> bool {
        is_bijection(self.permutations@, self.nr_wires as nat)
    }

    /// The two circuits hold the same table, wires, permutation and domain.
    pub open spec fn same_state(&self, other: &PlonkCircuit) -> bool {
        &&& self.nr_wires == other.nr_wires
        &&& self.nr_constraints == other.nr_constraints
        &&& self.constraints.rows() == other.constraints.rows()
        &&& self.permutations@ == other.permutations@
        &&& values(self.extended_h_subgroup@) == values(other.extended_h_subgroup@)
        &&& values(self.powers_omega@) == values(other.powers_omega@)
    }

    /// The value that the rotated-coset mapping gives to the wire `w`, with
    /// the first cached domain power as the generator.
    pub open spec fn sigma_star_of(&self, w: usize) -> nat
        recommends
            self.powers_omega@.len() > 0,
    {
        sigma_star_value(
            self.powers_omega@[0]@,
            self.nr_constraints as nat,
            self.permutations@,
            w,
        )
    }

    /// The circuit without gates.
    pub fn init() -> (r: PlonkCircuit)
        ensures
            r.wf(),
            r.nr_wires == 0,
            r.nr_constraints == 0,
            r.constraints.rows() == Seq::<(nat, nat, nat, nat, nat)>::empty(),
            r.permutations@ == Map::<usize, usize>::empty(),
            r.extended_h_subgroup@.len() == 0,
            r.powers_omega@.len() == 0,
            r.permutation_is_bijection(),
    {
        PlonkCircuit {
            constraints: Default::default(),
            permutations: HashMap::new(),
            nr_wires: 0,
            nr_constraints: 0,
            extended_h_subgroup: Vec::new(),
            powers_omega: Vec::new(),
        }
    }

    /// Registers the three wires of a new gate, each mapped to itself, and
    /// counts it.
    fn register_gate(&mut self)
        requires
            old(self).nr_wires == 3 * old(self).nr_constraints,
            old(self).nr_wires + 3 <= usize::MAX,
            is_total(old(self).permutations@, old(self).nr_wires as nat),
        ensures
            final(self).nr_wires == old(self).nr_wires + 3,
            final(self).nr_constraints == old(self).nr_constraints + 1,
            final(self).permutations@ == extended_by_gate(
                old(self).permutations@,
                old(self).nr_wires,
            ),
            is_total(final(self).permutations@, final(self).nr_wires as nat),
            old(self).permutation_is_bijection() ==> final(self).permutation_is_bijection(),
            final(self).constraints == old(self).constraints,
            final(self).extended_h_subgroup == old(self).extended_h_subgroup,
            final(self).powers_omega == old(self).powers_omega,
    {
        proof {
            lemma_gate_keeps_total(self.permutations@, self.nr_wires);
            if self.permutation_is_bijection() {
                lemma_gate_keeps_bijection(self.permutations@, self.nr_wires);
            }
        }
        // we extend the permutation with the identity permutation
        self.permutations.insert(self.nr_wires, self.nr_wires);
        self.permutations.insert(self.nr_wires + 1, self.nr_wires + 1);
        self.permutations.insert(self.nr_wires + 2, self.nr_wires + 2);

        self.nr_wires += 3;
        self.nr_constraints += 1;
    }

    /// Appends an addition gate, which enforces `a + b - c = 0` on its three
    /// new wires.
    pub fn add_gate(&mut self)
        requires
            old(self).wf(),
            old(self).nr_wires + 3 <= usize::MAX,
        ensures
            final(self).wf(),
            final(self).nr_wires == old(self).nr_wires + 3,
            final(self).nr_constraints == old(self).nr_constraints + 1,
            final(self).nr_wires == 3 * final(self).nr_constraints,
            final(self).constraints.rows() == old(self).constraints.rows().push(addition_row()),
            final(self).permutations@ == extended_by_gate(
                old(self).permutations@,
                old(self).nr_wires,
            ),
            old(self).permutation_is_bijection() ==> final(self).permutation_is_bijection(),
            final(self).extended_h_subgroup == old(self).extended_h_subgroup,
            final(self).powers_omega == old(self).powers_omega,
    {
        let one = Scalar::one();
        let zero = Scalar::zero();
        self.constraints.push_row(one, one, one.negated(), zero, zero);
        self.register_gate();
    }

    /// Appends a multiplication gate, which enforces `a * b - c = 0` on its
    /// three new wires.
    pub fn mult_gate(&mut self)
        requires
            old(self).wf(),
            old(self).nr_wires + 3 <= usize::MAX,
        ensures
            final(self).wf(),
            final(self).nr_wires == old(self).nr_wires + 3,
            final(self).nr_constraints == old(self).nr_constraints + 1,
            final(self).nr_wires == 3 * final(self).nr_constraints,
            final(self).constraints.rows() == old(self).constraints.rows().push(
                multiplication_row(),
            ),
            final(self).permutations@ == extended_by_gate(
                old(self).permutations@,
                old(self).nr_wires,
            ),
            old(self).permutation_is_bijection() ==> final(self).permutation_is_bijection(),
            final(self).extended_h_subgroup == old(self).extended_h_subgroup,
            final(self).powers_omega == old(self).powers_omega,
    {
        let one = Scalar::one();
        let zero = Scalar::zero();
        self.constraints.push_row(zero, zero, one.negated(), one, zero);
        self.register_gate();
    }

    /// Connects the wire `in_wire` to the wire `out_wire`: `in_wire` now points
    /// to `out_wire`, which takes over the old successor of `in_wire`.
    ///
    /// Both wires must exist already; otherwise the circuit is left as it was
    /// and the boundary violation is reported. A bijection stays a bijection
    /// exactly when `out_wire` was still mapped to itself, or both are one
    /// wire.
    pub fn connect_wires(&mut self, in_wire: &usize, out_wire: &usize) -> (r: Result<
        (),
        PlonkError,
    >)
        requires
            old(self).wf(),
        ensures
            final(self).wf(),
            final(self).nr_wires == old(self).nr_wires,
            final(self).nr_constraints == old(self).nr_constraints,
            final(self).constraints == old(self).constraints,
            final(self).extended_h_subgroup == old(self).extended_h_subgroup,
            final(self).powers_omega == old(self).powers_omega,
            match r {
                Ok(_) => {
                    &&& *in_wire < old(self).nr_wires
                    &&& *out_wire < old(self).nr_wires
                    &&& final(self).permutations@ == spliced(
                        old(self).permutations@,
                        *in_wire,
                        *out_wire,
                    )
                    &&& old(self).permutation_is_bijection() ==> {
                        final(self).permutation_is_bijection() <==> {
                            ||| *in_wire == *out_wire
                            ||| old(self).permutations@[*out_wire] == *out_wire
                        }
                    }
                },
                Err(e) => {
                    &&& (*in_wire >= old(self).nr_wires || *out_wire >= old(self).nr_wires)
                    &&& e == (PlonkError::BoundaryViolation {
                        wire_count: old(self).nr_wires,
                        in_wire: *in_wire,
                        out_wire: *out_wire,
                    })
                    &&& final(self).permutations@ == old(self).permutations@
                },
            },
    {
        if *in_wire >= self.nr_wires || *out_wire >= self.nr_wires {
            return Err(
                PlonkError::BoundaryViolation {
                    wire_count: self.nr_wires,
                    in_wire: *in_wire,
                    out_wire: *out_wire,
                },
            );
        }
        proof {
            lemma_splice_keeps_total(
                self.permutations@,
                self.nr_wires as nat,
                *in_wire,
                *out_wire,
            );
            if self.permutation_is_bijection() {
                lemma_splice_bijection(
                    self.permutations@,
                    self.nr_wires as nat,
                    *in_wire,
                    *out_wire,
                );
            }
        }
        let end = target_of(&self.permutations, *in_wire);  // we know each key is populated
        self.permutations.insert(*in_wire, *out_wire);
        self.permutations.insert(*out_wire, end);
        Ok(())
    }

    /// The Lagrange basis polynomial of the extended coset at `index`: the
    /// product, over every other position `j` of the coset, of
    /// `(X - h_j) / (h_index - h_j)`. It is one at the point `index` and zero
    /// at every other point of the coset.
    ///
    /// Fails with an inversion of zero when the point at `index` occurs at
    /// another position of the coset as well.
    pub fn lagrange_basis(&self, index: usize) -> (r: Result<Polynomial, PlonkError>)
        requires
            self.wf(),
            index < self.extended_h_subgroup@.len(),
        ensures
            r is Err <==> occurs_elsewhere(values(self.extended_h_subgroup@), index as int),
            r matches Ok(basis) ==> {
                &&& basis.wf()
                &&& basis@ == lagrange_basis_of(values(self.extended_h_subgroup@), index as int)
                &&& is_lagrange_basis(basis@, values(self.extended_h_subgroup@), index as int)
            },
            r matches Err(e) ==> e == PlonkError::InversionOfZero,
    {
        match lagrange_basis_over(&self.extended_h_subgroup, index) {
            Some(basis) => Ok(basis),
            None => Err(PlonkError::InversionOfZero),
        }
    }

    /// The rotated-coset mapping: for every wire, the generator raised to the
    /// position of the wire's target within its class, scaled by one, `K1` or
    /// `K2` according to the wire's own class.
    pub fn compute_sigma_star(&self) -> (r: HashMap<usize, Scalar>)
        requires
            self.wf(),
            self.nr_constraints > 0,
            self.powers_omega@.len() > 0,
        ensures
            forall|w: usize| r@.contains_key(w) <==> w < self.nr_wires,
            forall|w: usize|
                w < self.nr_wires ==> (#[trigger] r@[w]).wf() && r@[w]@ == self.sigma_star_of(w),
    {
        let n: usize = self.nr_constraints;
        let omega = self.powers_omega[0];
        let k1 = K1();
        let k2 = K2();
        let mut sigma_star: HashMap<usize, Scalar> = HashMap::new();
        let mut wire: usize = 0;
        while wire < self.nr_wires
            invariant
                wire <= self.nr_wires,
                n == self.nr_constraints,
                n > 0,
                self.wf(),
                self.powers_omega@.len() > 0,
                omega == self.powers_omega@[0],
                omega.wf(),
                k1.wf(),
                k1@ == coset_scale(1),
                k2.wf(),
                k2@ == coset_scale(2),
                forall|w: usize| sigma_star@.contains_key(w) <==> w < wire,
                forall|w: usize|
                    w < wire ==> (#[trigger] sigma_star@[w]).wf() && sigma_star@[w]@
                        == self.sigma_star_of(w),
            decreases self.nr_wires - wire,
        {
            let target = target_of(&self.permutations, wire);
            let position: usize = target % n;
            let power = omega.pow(position as u64);
            let class: usize = wire / n;
            assert(class < 3) by (nonlinear_arith)
                requires
                    class == wire as int / n as int,
                    wire < 3 * n,
                    n > 0,
            ;
            let value = if class == 0 {
                power
            } else if class == 1 {
                k1.times(&power)
            } else {
                k2.times(&power)
            };
            sigma_star.insert(wire, value);
            wire += 1;
        }
        sigma_star
    }

    /// An independent copy of the circuit.
    pub fn snapshot(&self) -> (r: PlonkCircuit)
        ensures
            r.same_state(self),
            self.wf() ==> r.wf(),
            r.constraints.qm@ == self.constraints.qm@,
            r.constraints.ql@ == self.constraints.ql@,
            r.constraints.qr@ == self.constraints.qr@,
            r.constraints.qo@ == self.constraints.qo@,
            r.constraints.qc@ == self.constraints.qc@,
            r.extended_h_subgroup@ == self.extended_h_subgroup@,
            r.powers_omega@ == self.powers_omega@,
    {
        let r = PlonkCircuit {
            extended_h_subgroup: copy_scalars(&self.extended_h_subgroup),
            constraints: self.constraints.snapshot(),
            permutations: self.permutations.clone(),
            nr_wires: self.nr_wires,
            nr_constraints: self.nr_constraints,
            powers_omega: copy_scalars(&self.powers_omega),
        };
        assert(r.constraints.rows() =~= self.constraints.rows());
        r
    }
}

} // verus!
