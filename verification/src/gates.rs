//! The constraint table: one row of five selector coefficients per gate, and
//! the equation that a row puts on the three wires of its gate.

use vstd::prelude::*;
use crate::algebra::{
    lemma_fadd_cong, lemma_fmul_cong, lemma_fneg_cong, lemma_fsub_cong,
    lemma_fsub_zero_iff_equal, lemma_reduce_bound,
};
use crate::field::{fadd, fmul, fneg, modulus, Scalar};
use crate::interpolation::all_wf;

verus! {

/// The left-hand side of a gate's equation
/// `qL a + qR b + qO c + qM a b + qC = 0`, for the row `(qL, qR, qO, qM, qC)`
/// and the wire values `a`, `b`, `c`.
pub open spec fn gate_value(row: (nat, nat, nat, nat, nat), a: nat, b: nat, c: nat) -> nat {
    fadd(
        fadd(fadd(fadd(fmul(row.0, a), fmul(row.1, b)), fmul(row.2, c)), fmul(row.3, fmul(a, b))),
        row.4,
    )
}

/// The row of an addition gate: `a + b - c = 0`.
pub open spec fn addition_row() -> (nat, nat, nat, nat, nat) {
    (1, 1, fneg(1), 0, 0)
}

/// The row of a multiplication gate: `a b - c = 0`.
pub open spec fn multiplication_row() -> (nat, nat, nat, nat, nat) {
    (0, 0, fneg(1), 1, 0)
}

/// The row of an addition gate is satisfied by exactly the wire values whose
/// output is the sum of the two inputs.
pub proof fn lemma_addition_gate(a: nat, b: nat, c: nat)
    requires
        a < modulus(),
        b < modulus(),
        c < modulus(),
    ensures
        gate_value(addition_row(), a, b, c) == 0 <==> c == fadd(a, b),
{
    let (ai, bi, ci): (int, int, int) = (a as int, b as int, c as int);
    lemma_fneg_cong(1, 1);
    lemma_fmul_cong(1, a, 1, ai);
    lemma_fmul_cong(1, b, 1, bi);
    lemma_fmul_cong(fneg(1), c, -1, ci);
    lemma_fmul_cong(a, b, ai, bi);
    lemma_fmul_cong(0, fmul(a, b), 0, ai * bi);
    lemma_fadd_cong(fmul(1, a), fmul(1, b), 1 * ai, 1 * bi);
    lemma_fadd_cong(fadd(fmul(1, a), fmul(1, b)), fmul(fneg(1), c), 1 * ai + 1 * bi, -1 * ci);
    lemma_fadd_cong(
        fadd(fadd(fmul(1, a), fmul(1, b)), fmul(fneg(1), c)),
        fmul(0, fmul(a, b)),
        1 * ai + 1 * bi + -1 * ci,
        0 * (ai * bi),
    );
    lemma_fadd_cong(
        fadd(
            fadd(fadd(fmul(1, a), fmul(1, b)), fmul(fneg(1), c)),
            fmul(0, fmul(a, b)),
        ),
        0,
        1 * ai + 1 * bi + -1 * ci + 0 * (ai * bi),
        0,
    );
    assert(1 * ai + 1 * bi + -1 * ci + 0 * (ai * bi) + 0 == (ai + bi) - ci) by (nonlinear_arith);
    lemma_fadd_cong(a, b, ai, bi);
    lemma_fsub_cong(fadd(a, b), c, ai + bi, ci);
    lemma_reduce_bound(ai + bi);
    lemma_fsub_zero_iff_equal(fadd(a, b), c);
}

/// The row of a multiplication gate is satisfied by exactly the wire values
/// whose output is the product of the two inputs.
pub proof fn lemma_multiplication_gate(a: nat, b: nat, c: nat)
    requires
        a < modulus(),
        b < modulus(),
        c < modulus(),
    ensures
        gate_value(multiplication_row(), a, b, c) == 0 <==> c == fmul(a, b),
{
    let (ai, bi, ci): (int, int, int) = (a as int, b as int, c as int);
    lemma_fneg_cong(1, 1);
    lemma_fmul_cong(0, a, 0, ai);
    lemma_fmul_cong(0, b, 0, bi);
    lemma_fmul_cong(fneg(1), c, -1, ci);
    lemma_fmul_cong(a, b, ai, bi);
    lemma_fmul_cong(1, fmul(a, b), 1, ai * bi);
    lemma_fadd_cong(fmul(0, a), fmul(0, b), 0 * ai, 0 * bi);
    lemma_fadd_cong(fadd(fmul(0, a), fmul(0, b)), fmul(fneg(1), c), 0 * ai + 0 * bi, -1 * ci);
    lemma_fadd_cong(
        fadd(fadd(fmul(0, a), fmul(0, b)), fmul(fneg(1), c)),
        fmul(1, fmul(a, b)),
        0 * ai + 0 * bi + -1 * ci,
        1 * (ai * bi),
    );
    lemma_fadd_cong(
        fadd(
            fadd(fadd(fmul(0, a), fmul(0, b)), fmul(fneg(1), c)),
            fmul(1, fmul(a, b)),
        ),
        0,
        0 * ai + 0 * bi + -1 * ci + 1 * (ai * bi),
        0,
    );
    assert(0 * ai + 0 * bi + -1 * ci + 1 * (ai * bi) + 0 == ai * bi - ci) by (nonlinear_arith);
    lemma_fsub_cong(fmul(a, b), c, ai * bi, ci);
    lemma_reduce_bound(ai * bi);
    lemma_fsub_zero_iff_equal(fmul(a, b), c);
}

/// The values assigned to the left, right and output wire of every gate.
pub struct ComputationTrace {
    pub a: Vec<Scalar>,
    pub b: Vec<Scalar>,
    pub c: Vec<Scalar>,
}

impl ComputationTrace {
    /// The three columns have one length and hold canonical field elements.
    pub open spec fn wf(&self) -> bool {
        &&& self.a@.len() == self.b@.len()
        &&& self.a@.len() == self.c@.len()
        &&& all_wf(self.a@)
        &&& all_wf(self.b@)
        &&& all_wf(self.c@)
    }

    /// The number of gates that the trace assigns.
    pub open spec fn len(&self) -> nat {
        self.a@.len()
    }
}

/// The constraint table: five columns of selector coefficients with one entry
/// per gate.
#[derive(Clone, Debug, PartialEq, Eq)]
pub struct Constraints {
    pub qm: Vec<Scalar>,
    pub ql: Vec<Scalar>,
    pub qr: Vec<Scalar>,
    pub qo: Vec<Scalar>,
    pub qc: Vec<Scalar>,
}

impl Constraints {
    /// The five columns have one length and hold canonical field elements.
    pub open spec fn wf(&self) -> bool {
        &&& self.qm@.len() == self.ql@.len()
        &&& self.qr@.len() == self.ql@.len()
        &&& self.qo@.len() == self.ql@.len()
        &&& self.qc@.len() == self.ql@.len()
        &&& all_wf(self.qm@)
        &&& all_wf(self.ql@)
        &&& all_wf(self.qr@)
        &&& all_wf(self.qo@)
        &&& all_wf(self.qc@)
    }

    /// The number of rows.
    pub open spec fn len(&self) -> nat {
        self.ql@.len()
    }

    /// The row of gate `i`, as `(qL, qR, qO, qM, qC)`.
    pub open spec fn row(&self, i: int) -> (nat, nat, nat, nat, nat) {
        (self.ql@[i]@, self.qr@[i]@, self.qo@[i]@, self.qm@[i]@, self.qc@[i]@)
    }

    /// The rows of all gates, in the order in which the gates were added.
    pub open spec fn rows(&self) -> Seq<(nat, nat, nat, nat, nat)> {
        Seq::new(self.len(), |i: int| self.row(i))
    }

    /// Appends the row `(qL, qR, qO, qM, qC)`.
    pub fn push_row(&mut self, ql: Scalar, qr: Scalar, qo: Scalar, qm: Scalar, qc: Scalar)
        requires
            old(self).wf(),
            ql.wf(),
            qr.wf(),
            qo.wf(),
            qm.wf(),
            qc.wf(),
        ensures
            final(self).wf(),
            final(self).len() == old(self).len() + 1,
            final(self).rows() == old(self).rows().push((ql@, qr@, qo@, qm@, qc@)),
    {
        self.ql.push(ql);
        self.qr.push(qr);
        self.qo.push(qo);
        self.qm.push(qm);
        self.qc.push(qc);
        assert(self.rows() =~= old(self).rows().push((ql@, qr@, qo@, qm@, qc@)));
    }

    /// A copy of the table.
    pub fn snapshot(&self) -> (r: Constraints)
        ensures
            r.qm@ == self.qm@,
            r.ql@ == self.ql@,
            r.qr@ == self.qr@,
            r.qo@ == self.qo@,
            r.qc@ == self.qc@,
    {
        Constraints {
            qm: copy_scalars(&self.qm),
            ql: copy_scalars(&self.ql),
            qr: copy_scalars(&self.qr),
            qo: copy_scalars(&self.qo),
            qc: copy_scalars(&self.qc),
        }
    }
}

impl Default for Constraints {
    /// The table without rows.
    fn default() -> (r: Constraints)
        ensures
            r.wf(),
            r.len() == 0,
            r.rows() == Seq::<(nat, nat, nat, nat, nat)>::empty(),
    {
        let r = Constraints {
            qm: Vec::new(),
            ql: Vec::new(),
            qr: Vec::new(),
            qo: Vec::new(),
            qc: Vec::new(),
        };
        assert(r.rows() =~= Seq::<(nat, nat, nat, nat, nat)>::empty());
        r
    }
}

/// The values of a trace meet the equations of a table of addition and
/// multiplication gates exactly when every output is the sum, or the
/// product, of the two inputs of its gate.
pub proof fn lemma_satisfying_traces(trace: &ComputationTrace, table: &Constraints)
    requires
        trace.wf(),
        table.wf(),
        trace.len() == table.len(),
        forall|i: int|
            0 <= i < table.len() ==> #[trigger] table.row(i) == addition_row() || table.row(i)
                == multiplication_row(),
    ensures
        satisfies(trace, table) <==> forall|i: int|
            0 <= i < table.len() ==> (#[trigger] trace.c@[i])@ == (if table.row(i)
                == addition_row() {
                fadd(trace.a@[i]@, trace.b@[i]@)
            } else {
                fmul(trace.a@[i]@, trace.b@[i]@)
            }),
{
    assert forall|i: int| 0 <= i < table.len() implies (gate_value(
        #[trigger] table.row(i),
        trace.a@[i]@,
        trace.b@[i]@,
        trace.c@[i]@,
    ) == 0 <==> trace.c@[i]@ == (if table.row(i) == addition_row() {
        fadd(trace.a@[i]@, trace.b@[i]@)
    } else {
        fmul(trace.a@[i]@, trace.b@[i]@)
    })) by {
        assert(trace.a@[i].wf() && trace.b@[i].wf() && trace.c@[i].wf());
        lemma_addition_gate(trace.a@[i]@, trace.b@[i]@, trace.c@[i]@);
        lemma_multiplication_gate(trace.a@[i]@, trace.b@[i]@, trace.c@[i]@);
    }
    if satisfies(trace, table) {
        assert forall|i: int| 0 <= i < table.len() implies (#[trigger] trace.c@[i])@ == (if table.row(
            i,
        ) == addition_row() {
            fadd(trace.a@[i]@, trace.b@[i]@)
        } else {
            fmul(trace.a@[i]@, trace.b@[i]@)
        }) by {
            assert(gate_value(table.row(i), trace.a@[i]@, trace.b@[i]@, trace.c@[i]@) == 0);
        }
    }
}

/// A copy of a vector of field elements.
pub fn copy_scalars(v: &Vec<Scalar>) -> (r: Vec<Scalar>)
    ensures
        r@ == v@,
{
    let n: usize = v.len();
    let mut r: Vec<Scalar> = Vec::new();
    let mut i: usize = 0;
    while i < n
        invariant
            i <= n,
            n == v@.len(),
            r@.len() == i,
            forall|j: int| 0 <= j < i ==> r@[j] == v@[j],
        decreases n - i,
    {
        r.push(v[i]);
        i += 1;
    }
    assert(r@ =~= v@);
    r
}

/// The trace satisfies the table: they have one length, and the values of
/// every gate meet the equation of its row.
pub open spec fn satisfies(trace: &ComputationTrace, table: &Constraints) -> bool {
    &&& trace.len() == table.len()
    &&& forall|i: int|
        0 <= i < table.len() ==> gate_value(
            #[trigger] table.row(i),
            trace.a@[i]@,
            trace.b@[i]@,
            trace.c@[i]@,
        ) == 0
}

} // verus!
