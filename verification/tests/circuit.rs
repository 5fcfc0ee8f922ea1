use quad_circuit::field::{Felt, Value};
use quad_circuit::solution::{MockProver, MyCircuit};
use quad_circuit::table::{RegionName, SynthError};

#[test]
fn test_solve_quad() {
    let k: usize = 5;
    let a = Felt::from_u64(1);
    let b = Felt::from_u64(2);
    let c = Felt::from_u64(3);
    let x = Felt::from_u64(1);

    let circuit = MyCircuit { x: Value::Known(x) };

    let prover = MockProver::run(k, &circuit, vec![a, b, c]).unwrap();
    assert!(prover.verify());
}

#[test]
fn test_fail_quad() {
    let k: usize = 5;
    let a = Felt::from_u64(1);
    let b = Felt::from_u64(1);
    let c = Felt::from_u64(3);
    let x = Felt::from_u64(1);

    let circuit = MyCircuit { x: Value::Known(x) };

    let prover = MockProver::run(k, &circuit, vec![a, b, c]).unwrap();
    assert!(!prover.verify());
}

#[test]
fn synthesis_is_deterministic() {
    let k: usize = 5;
    let a = Felt::from_u64(4);
    let b = Felt::from_u64(9);
    let c = Felt::from_u64(77);
    let x = Felt::from_u64(12);

    let circuit = MyCircuit { x: Value::Known(x) };

    let p1 = MockProver::run(k, &circuit, vec![a, b, c]).unwrap();
    let p2 = MockProver::run(k, &circuit, vec![a, b, c]).unwrap();
    assert_eq!(p1.table, p2.table);
    assert_eq!(p1.cs, p2.cs);
    assert_eq!(p1.config, p2.config);
}

#[test]
fn quadratic_with_larger_values() {
    // a = 2, b = 5, x = 7: 2*49 + 5*7 = 133, exposed at instance row 2.
    let k: usize = 5;
    let a = Felt::from_u64(2);
    let b = Felt::from_u64(5);
    let x = Felt::from_u64(7);

    let circuit = MyCircuit { x: Value::Known(x) };

    let good = MockProver::run(k, &circuit, vec![a, b, Felt::from_u64(133)]).unwrap();
    assert!(good.verify());
    let bad = MockProver::run(k, &circuit, vec![a, b, Felt::from_u64(134)]).unwrap();
    assert!(!bad.verify());
}

#[test]
fn unknown_witness_synthesizes_but_fails_verification() {
    // Synthesis with no witness (as for key generation) must succeed, but
    // the assigned table cannot verify: its gate cells stay unknown.
    let k: usize = 5;
    let a = Felt::from_u64(1);
    let b = Felt::from_u64(2);
    let c = Felt::from_u64(3);

    let circuit = MyCircuit { x: Value::Unknown };

    let prover = MockProver::run(k, &circuit, vec![a, b, c]).unwrap();
    assert!(!prover.verify());
}

#[test]
fn table_too_small_is_a_layout_error() {
    // 2^2 = 4 rows: the private input and the constants fit, the first mul
    // region does not.
    let k: usize = 2;
    let a = Felt::from_u64(1);
    let b = Felt::from_u64(2);
    let c = Felt::from_u64(3);
    let x = Felt::from_u64(1);

    let circuit = MyCircuit { x: Value::Known(x) };

    let err = MockProver::run(k, &circuit, vec![a, b, c]).unwrap_err();
    assert_eq!(err, SynthError::Layout(RegionName::MulRegion));
}

#[test]
fn missing_instance_rows_is_a_constraint_error() {
    let k: usize = 5;
    let a = Felt::from_u64(1);
    let x = Felt::from_u64(1);

    let circuit = MyCircuit { x: Value::Known(x) };

    let err = MockProver::run(k, &circuit, vec![a]).unwrap_err();
    assert_eq!(err, SynthError::Constraint(RegionName::LoadConstants));
}

#[test]
fn smallest_sufficient_table_accepts() {
    // 2^4 = 16 rows: exactly the sixteen the synthesis pass lays out.
    let k: usize = 4;
    let a = Felt::from_u64(1);
    let b = Felt::from_u64(2);
    let c = Felt::from_u64(3);
    let x = Felt::from_u64(1);

    let circuit = MyCircuit { x: Value::Known(x) };

    let prover = MockProver::run(k, &circuit, vec![a, b, c]).unwrap();
    assert!(prover.verify());
}

#[test]
fn constants_region_without_room_is_a_layout_error() {
    // 2^1 = 2 rows: the private input fits, the constants region does not.
    let k: usize = 1;
    let a = Felt::from_u64(1);
    let b = Felt::from_u64(2);
    let c = Felt::from_u64(3);
    let x = Felt::from_u64(1);

    let circuit = MyCircuit { x: Value::Known(x) };

    let err = MockProver::run(k, &circuit, vec![a, b, c]).unwrap_err();
    assert_eq!(err, SynthError::Layout(RegionName::LoadConstants));
}

#[test]
fn without_witnesses_drops_the_witness() {
    let circuit = MyCircuit { x: Value::Known(Felt::from_u64(3)) };
    let stripped = circuit.without_witnesses();
    assert_eq!(stripped.x, Value::Unknown);
}
