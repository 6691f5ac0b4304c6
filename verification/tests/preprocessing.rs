use plonk_circuit::domain::primitive_root;
use plonk_circuit::field::Scalar;
use plonk_circuit::plonk::{PlonkCircuit, PlonkError, PreprocessedInput, K1, K2};
use plonk_circuit::polynomial::Polynomial;

fn s(value: u64) -> Scalar {
    Scalar::from_u64(value)
}

fn neg(value: u64) -> Scalar {
    Scalar::from_u64(value).negated()
}

fn preprocess(circuit: &mut PlonkCircuit) -> PreprocessedInput {
    circuit.setup().ok().unwrap()
}

fn scenario() -> PlonkCircuit {
    let mut circuit = PlonkCircuit::init();
    circuit.add_gate();
    circuit.mult_gate();
    assert_eq!(circuit.connect_wires(&2, &3), Ok(()));
    circuit
}

fn mixed_circuit(gates: usize) -> PlonkCircuit {
    let mut circuit = PlonkCircuit::init();
    for gate in 0..gates {
        if gate % 3 == 1 {
            circuit.mult_gate();
        } else {
            circuit.add_gate();
        }
    }
    for gate in 1..gates {
        // the output of each gate feeds the left input of the next
        assert_eq!(circuit.connect_wires(&(2 * gates + gate - 1), &gate), Ok(()));
    }
    circuit
}

#[test]
fn coset_constants() {
    assert_eq!(K1(), s(7));
    assert_eq!(K2(), s(13));
}

#[test]
fn empty_circuit_cannot_be_preprocessed() {
    let mut circuit = PlonkCircuit::init();
    assert!(matches!(circuit.setup(), Err(PlonkError::EmptyCircuit)));
    assert_eq!(circuit.build_domain(), Err(PlonkError::EmptyCircuit));
    assert!(circuit.powers_omega.is_empty());
    assert!(circuit.extended_h_subgroup.is_empty());
}

#[test]
fn scenario_two_gates_counts_and_rows() {
    let mut circuit = scenario();
    let input = preprocess(&mut circuit);
    assert_eq!(circuit.nr_constraints, 2);
    assert_eq!(circuit.nr_wires, 6);
    let table = &circuit.constraints;
    assert_eq!(
        [table.ql[0], table.qr[0], table.qo[0], table.qm[0], table.qc[0]],
        [s(1), s(1), neg(1), s(0), s(0)]
    );
    assert_eq!(
        [table.ql[1], table.qr[1], table.qo[1], table.qm[1], table.qc[1]],
        [s(0), s(0), neg(1), s(1), s(0)]
    );
    assert_eq!(input.constraints.nr_constraints, 2);
    assert_eq!(input.constraints.nr_wires, 6);
    assert_eq!(input.constraints.constraints, circuit.constraints);
    assert_eq!(input.constraints.permutations, circuit.permutations);
}

#[test]
fn scenario_two_gates_domain() {
    let mut circuit = scenario();
    assert_eq!(circuit.build_domain(), Ok(()));
    // two gates: the domain has size two and the generator is minus one
    assert_eq!(circuit.powers_omega, vec![neg(1), s(1)]);
    assert_eq!(circuit.extended_h_subgroup, vec![neg(1), s(1), neg(7), s(7), neg(13), s(13)]);
}

#[test]
fn scenario_two_gates_sigma_star() {
    let mut circuit = scenario();
    let input = preprocess(&mut circuit);
    // the permutation is 0 1 3 2 4 5
    let expected = [s(1), neg(1), neg(7), s(7), s(13), neg(13)];
    assert_eq!(input.sigma_star.len(), 6);
    for (wire, value) in expected.iter().enumerate() {
        assert_eq!(input.sigma_star[&wire], *value);
    }
    assert_eq!(circuit.compute_sigma_star(), input.sigma_star);
}

#[test]
fn scenario_two_gates_permutation_polynomials() {
    let mut circuit = scenario();
    let input = preprocess(&mut circuit);
    let first = neg(1);
    let second = s(1);
    assert_eq!(input.qs1_x.eval(&first), s(1));
    assert_eq!(input.qs1_x.eval(&second), neg(1));
    assert_eq!(input.qs2_x.eval(&first), neg(7));
    assert_eq!(input.qs2_x.eval(&second), s(7));
    assert_eq!(input.qs3_x.eval(&first), s(13));
    assert_eq!(input.qs3_x.eval(&second), neg(13));
    assert_eq!(input.qs1_x.len(), 6);
    assert_eq!(input.qs2_x.len(), 6);
    assert_eq!(input.qs3_x.len(), 6);
}

#[test]
fn scenario_two_gates_selectors_and_vanishing() {
    let mut circuit = scenario();
    let input = preprocess(&mut circuit);
    // through (-1, 1) and (1, 0): 1/2 - X/2
    let half = s(2).inverse().unwrap();
    assert_eq!(input.ql_x, Polynomial(vec![half, half.negated()]));
    assert_eq!(input.qr_x, Polynomial(vec![half, half.negated()]));
    // through (-1, 0) and (1, 1): 1/2 + X/2
    assert_eq!(input.qm_x, Polynomial(vec![half, half]));
    assert_eq!(input.qo_x, Polynomial(vec![neg(1), s(0)]));
    assert_eq!(input.qc_x, Polynomial(vec![s(0), s(0)]));
    assert_eq!(input.blinder_polynomial, Polynomial(vec![neg(1), s(0), s(1)]));
    assert_eq!(input.blinder_polynomial.eval(&circuit.powers_omega[0]), s(0));
}

#[test]
fn one_gate_has_the_trivial_domain() {
    let mut circuit = PlonkCircuit::init();
    circuit.mult_gate();
    let input = preprocess(&mut circuit);
    assert_eq!(circuit.powers_omega, vec![s(1)]);
    assert_eq!(circuit.extended_h_subgroup, vec![s(1), s(7), s(13)]);
    assert_eq!(input.blinder_polynomial, Polynomial(vec![neg(1), s(1)]));
    assert_eq!(input.sigma_star[&0], s(1));
    assert_eq!(input.sigma_star[&1], s(7));
    assert_eq!(input.sigma_star[&2], s(13));
    assert_eq!(input.qm_x, Polynomial(vec![s(1)]));
    assert_eq!(input.qo_x, Polynomial(vec![neg(1)]));
}

#[test]
fn domain_generator_has_the_order_of_the_domain() {
    // gates, exponent of the domain size
    for (gates, exponent) in [(1usize, 0u32), (2, 1), (3, 2), (4, 2), (5, 3), (9, 4)] {
        let mut circuit = mixed_circuit(gates);
        assert_eq!(circuit.build_domain(), Ok(()));
        let omega = circuit.powers_omega[0];
        assert_eq!(omega, primitive_root().pow(1 << (32 - exponent)));
        assert_eq!(omega.pow(1 << exponent), s(1));
        if exponent > 0 {
            assert_eq!(omega.pow(1 << (exponent - 1)), neg(1));
        }
        assert_eq!(circuit.powers_omega.len(), gates);
        assert_eq!(circuit.extended_h_subgroup.len(), 3 * gates);
        for i in 0..gates {
            let power = omega.pow(i as u64 + 1);
            assert_eq!(circuit.powers_omega[i], power);
            assert_eq!(circuit.extended_h_subgroup[i], power);
            assert_eq!(circuit.extended_h_subgroup[gates + i], s(7).times(&power));
            assert_eq!(circuit.extended_h_subgroup[2 * gates + i], s(13).times(&power));
        }
    }
}

#[test]
fn extended_coset_has_no_repeated_point() {
    let mut circuit = mixed_circuit(6);
    assert_eq!(circuit.build_domain(), Ok(()));
    let points = &circuit.extended_h_subgroup;
    for i in 0..points.len() {
        for j in 0..i {
            assert_ne!(points[i], points[j]);
        }
    }
}

#[test]
fn selector_polynomials_reproduce_their_columns() {
    for gates in [1usize, 3, 5, 8] {
        let mut circuit = mixed_circuit(gates);
        let input = preprocess(&mut circuit);
        for i in 0..gates {
            let point = circuit.powers_omega[i];
            assert_eq!(input.ql_x.eval(&point), circuit.constraints.ql[i]);
            assert_eq!(input.qr_x.eval(&point), circuit.constraints.qr[i]);
            assert_eq!(input.qo_x.eval(&point), circuit.constraints.qo[i]);
            assert_eq!(input.qm_x.eval(&point), circuit.constraints.qm[i]);
            assert_eq!(input.qc_x.eval(&point), circuit.constraints.qc[i]);
        }
        assert_eq!(input.ql_x.len(), gates);
    }
}

#[test]
fn permutation_polynomials_reproduce_sigma_star() {
    for gates in [1usize, 3, 5, 8] {
        let mut circuit = mixed_circuit(gates);
        let input = preprocess(&mut circuit);
        let omega = circuit.powers_omega[0];
        for wire in 0..3 * gates {
            let target = circuit.permutations[&wire];
            let power = omega.pow((target % gates) as u64);
            let expected = match wire / gates {
                0 => power,
                1 => s(7).times(&power),
                _ => s(13).times(&power),
            };
            assert_eq!(input.sigma_star[&wire], expected);
        }
        for i in 0..gates {
            let point = circuit.powers_omega[i];
            assert_eq!(input.qs1_x.eval(&point), input.sigma_star[&i]);
            assert_eq!(input.qs2_x.eval(&point), input.sigma_star[&(gates + i)]);
            assert_eq!(input.qs3_x.eval(&point), input.sigma_star[&(2 * gates + i)]);
        }
    }
}

#[test]
fn vanishing_polynomial_is_zero_on_the_domain() {
    for (gates, size) in [(1usize, 1usize), (3, 4), (5, 8), (8, 8)] {
        let mut circuit = mixed_circuit(gates);
        let input = preprocess(&mut circuit);
        assert_eq!(input.blinder_polynomial.len(), size + 1);
        assert_eq!(input.blinder_polynomial.0[0], neg(1));
        assert_eq!(input.blinder_polynomial.0[size], s(1));
        for point in &circuit.powers_omega {
            assert_eq!(input.blinder_polynomial.eval(point), s(0));
        }
        assert_ne!(input.blinder_polynomial.eval(&s(7)), s(0));
    }
}

#[test]
fn lagrange_basis_of_the_circuit_is_over_the_extended_coset() {
    let mut circuit = mixed_circuit(3);
    assert_eq!(circuit.build_domain(), Ok(()));
    for index in [0usize, 4, 8] {
        let basis = circuit.lagrange_basis(index).ok().unwrap();
        assert_eq!(basis.len(), 9);
        for (j, point) in circuit.extended_h_subgroup.iter().enumerate() {
            let expected = if j == index { s(1) } else { s(0) };
            assert_eq!(basis.eval(point), expected);
        }
    }
}

#[test]
fn lagrange_basis_reports_an_inversion_of_zero() {
    let mut circuit = mixed_circuit(2);
    assert_eq!(circuit.build_domain(), Ok(()));
    circuit.extended_h_subgroup[5] = circuit.extended_h_subgroup[0];
    assert_eq!(circuit.lagrange_basis(0), Err(PlonkError::InversionOfZero));
    assert_eq!(circuit.lagrange_basis(5), Err(PlonkError::InversionOfZero));
    assert!(circuit.lagrange_basis(1).is_ok());
    let sigma_star = circuit.compute_sigma_star();
    assert!(matches!(
        circuit.permutation_polynomials(&sigma_star),
        Err(PlonkError::InversionOfZero)
    ));
}

#[test]
fn selector_polynomial_reports_a_repeated_power() {
    let mut circuit = mixed_circuit(2);
    assert_eq!(circuit.build_domain(), Ok(()));
    circuit.powers_omega[1] = circuit.powers_omega[0];
    let column = circuit.constraints.ql.clone();
    assert_eq!(circuit.selector_polynomial(&column), Err(PlonkError::InversionOfZero));
}

#[test]
fn artifact_keeps_its_own_copy_of_the_circuit() {
    let mut circuit = scenario();
    let input = preprocess(&mut circuit);
    circuit.add_gate();
    assert_eq!(circuit.connect_wires(&0, &7), Ok(()));
    assert_eq!(input.constraints.nr_constraints, 2);
    assert_eq!(input.constraints.nr_wires, 6);
    assert_eq!(input.constraints.permutations.len(), 6);
    assert_eq!(input.constraints.permutations[&0], 0);
    assert_eq!(input.constraints.constraints.ql.len(), 2);
    assert_eq!(input.constraints.powers_omega, vec![neg(1), s(1)]);
}

#[test]
fn snapshot_is_an_equal_copy() {
    let mut circuit = scenario();
    assert_eq!(circuit.build_domain(), Ok(()));
    let copy = circuit.snapshot();
    assert_eq!(copy.nr_wires, circuit.nr_wires);
    assert_eq!(copy.nr_constraints, circuit.nr_constraints);
    assert_eq!(copy.constraints, circuit.constraints);
    assert_eq!(copy.permutations, circuit.permutations);
    assert_eq!(copy.powers_omega, circuit.powers_omega);
    assert_eq!(copy.extended_h_subgroup, circuit.extended_h_subgroup);
}

#[test]
fn preprocessing_leaves_table_and_permutation_alone() {
    let mut circuit = mixed_circuit(4);
    let table = circuit.constraints.clone();
    let permutations = circuit.permutations.clone();
    assert!(circuit.setup().is_ok());
    assert_eq!(circuit.constraints, table);
    assert_eq!(circuit.permutations, permutations);
    assert_eq!(circuit.nr_wires, 12);
    assert_eq!(circuit.nr_constraints, 4);
}
