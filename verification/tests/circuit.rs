use plonk_circuit::field::Scalar;
use plonk_circuit::plonk::{PlonkCircuit, PlonkError};

fn one() -> Scalar {
    Scalar::from_u64(1)
}

fn zero() -> Scalar {
    Scalar::from_u64(0)
}

fn minus_one() -> Scalar {
    Scalar::from_u64(1).negated()
}

fn two_gates() -> PlonkCircuit {
    let mut circuit = PlonkCircuit::init();
    circuit.add_gate();
    circuit.mult_gate();
    circuit
}

#[test]
fn empty_circuit_has_no_wires() {
    let circuit = PlonkCircuit::init();
    assert_eq!(circuit.nr_wires, 0);
    assert_eq!(circuit.nr_constraints, 0);
    assert!(circuit.permutations.is_empty());
    assert!(circuit.constraints.ql.is_empty());
    assert!(circuit.powers_omega.is_empty());
    assert!(circuit.extended_h_subgroup.is_empty());
}

#[test]
fn every_gate_adds_three_wires() {
    let mut circuit = PlonkCircuit::init();
    for gates in 1..=7usize {
        if gates % 2 == 0 {
            circuit.add_gate();
        } else {
            circuit.mult_gate();
        }
        assert_eq!(circuit.nr_constraints, gates);
        assert_eq!(circuit.nr_wires, 3 * gates);
        assert_eq!(circuit.permutations.len(), 3 * gates);
        assert_eq!(circuit.constraints.ql.len(), gates);
        assert_eq!(circuit.constraints.qr.len(), gates);
        assert_eq!(circuit.constraints.qo.len(), gates);
        assert_eq!(circuit.constraints.qm.len(), gates);
        assert_eq!(circuit.constraints.qc.len(), gates);
    }
}

#[test]
fn addition_gate_row() {
    let mut circuit = PlonkCircuit::init();
    circuit.add_gate();
    assert_eq!(circuit.constraints.ql[0], one());
    assert_eq!(circuit.constraints.qr[0], one());
    assert_eq!(circuit.constraints.qo[0], minus_one());
    assert_eq!(circuit.constraints.qm[0], zero());
    assert_eq!(circuit.constraints.qc[0], zero());
}

#[test]
fn multiplication_gate_row() {
    let mut circuit = PlonkCircuit::init();
    circuit.mult_gate();
    assert_eq!(circuit.constraints.ql[0], zero());
    assert_eq!(circuit.constraints.qr[0], zero());
    assert_eq!(circuit.constraints.qo[0], minus_one());
    assert_eq!(circuit.constraints.qm[0], one());
    assert_eq!(circuit.constraints.qc[0], zero());
}

#[test]
fn new_wires_map_to_themselves() {
    let circuit = two_gates();
    for wire in 0..6usize {
        assert_eq!(circuit.permutations[&wire], wire);
    }
}

fn gate_value(circuit: &PlonkCircuit, gate: usize, a: u64, b: u64, c: &Scalar) -> Scalar {
    let a = Scalar::from_u64(a);
    let b = Scalar::from_u64(b);
    let table = &circuit.constraints;
    table.ql[gate]
        .times(&a)
        .plus(&table.qr[gate].times(&b))
        .plus(&table.qo[gate].times(c))
        .plus(&table.qm[gate].times(&a.times(&b)))
        .plus(&table.qc[gate])
}

#[test]
fn satisfying_witness_meets_the_gate_equations() {
    let circuit = two_gates();
    assert_eq!(gate_value(&circuit, 0, 5, 3, &Scalar::from_u64(8)), zero());
    assert_eq!(gate_value(&circuit, 1, 5, 3, &Scalar::from_u64(15)), zero());
    assert_ne!(gate_value(&circuit, 0, 5, 3, &Scalar::from_u64(9)), zero());
    assert_ne!(gate_value(&circuit, 1, 5, 3, &Scalar::from_u64(8)), zero());
}

#[test]
fn connecting_splices_the_cycles() {
    let mut circuit = two_gates();
    assert_eq!(circuit.connect_wires(&2, &3), Ok(()));
    assert_eq!(circuit.permutations[&2], 3);
    assert_eq!(circuit.permutations[&3], 2);
    for wire in [0usize, 1, 4, 5] {
        assert_eq!(circuit.permutations[&wire], wire);
    }
}

#[test]
fn chained_connections_form_one_cycle() {
    let mut circuit = two_gates();
    assert_eq!(circuit.connect_wires(&0, &2), Ok(()));
    assert_eq!(circuit.connect_wires(&2, &4), Ok(()));
    assert_eq!(circuit.permutations[&0], 2);
    assert_eq!(circuit.permutations[&2], 4);
    assert_eq!(circuit.permutations[&4], 0);
}

fn is_bijection(circuit: &PlonkCircuit) -> bool {
    let mut hit = vec![0usize; circuit.nr_wires];
    for wire in 0..circuit.nr_wires {
        match circuit.permutations.get(&wire) {
            Some(target) if *target < circuit.nr_wires => hit[*target] += 1,
            _ => return false,
        }
    }
    circuit.permutations.len() == circuit.nr_wires && hit.iter().all(|count| *count == 1)
}

#[test]
fn permutation_stays_a_bijection() {
    let mut circuit = PlonkCircuit::init();
    assert!(is_bijection(&circuit));
    circuit.add_gate();
    assert!(is_bijection(&circuit));
    circuit.mult_gate();
    assert!(is_bijection(&circuit));
    assert_eq!(circuit.connect_wires(&2, &3), Ok(()));
    assert!(is_bijection(&circuit));
    assert_eq!(circuit.connect_wires(&3, &5), Ok(()));
    assert!(is_bijection(&circuit));
    assert_eq!(circuit.connect_wires(&1, &1), Ok(()));
    assert!(is_bijection(&circuit));
    circuit.add_gate();
    assert!(is_bijection(&circuit));
}

#[test]
fn connecting_to_a_wire_already_on_a_cycle_breaks_the_bijection() {
    let mut circuit = two_gates();
    assert_eq!(circuit.connect_wires(&0, &1), Ok(()));
    assert!(is_bijection(&circuit));
    assert_eq!(circuit.connect_wires(&2, &1), Ok(()));
    assert_eq!(circuit.permutations[&2], 1);
    assert_eq!(circuit.permutations[&1], 2);
    assert_eq!(circuit.permutations[&0], 1);
    assert!(!is_bijection(&circuit));
}

#[test]
fn connecting_a_missing_wire_is_a_boundary_violation() {
    let mut circuit = two_gates();
    let outcome = circuit.connect_wires(&0, &99);
    assert_eq!(
        outcome,
        Err(PlonkError::BoundaryViolation { wire_count: 6, in_wire: 0, out_wire: 99 })
    );
    for wire in 0..6usize {
        assert_eq!(circuit.permutations[&wire], wire);
    }
    assert_eq!(circuit.permutations.len(), 6);
    assert_eq!(circuit.nr_wires, 6);
}

#[test]
fn connecting_from_a_missing_wire_is_a_boundary_violation() {
    let mut circuit = two_gates();
    assert_eq!(
        circuit.connect_wires(&6, &0),
        Err(PlonkError::BoundaryViolation { wire_count: 6, in_wire: 6, out_wire: 0 })
    );
    let mut empty = PlonkCircuit::init();
    assert_eq!(
        empty.connect_wires(&0, &0),
        Err(PlonkError::BoundaryViolation { wire_count: 0, in_wire: 0, out_wire: 0 })
    );
}
