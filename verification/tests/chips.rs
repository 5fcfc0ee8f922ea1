use quad_circuit::checker::check_satisfied;
use quad_circuit::field::{Felt, Value, MODULUS};
use quad_circuit::solution::{SolutionChip, SolutionConfig};
use quad_circuit::system::ConstraintSystem;
use quad_circuit::table::{CellRef, Number, RegionName, SynthError, Table};

fn configured(instance: Vec<Value>, max_rows: usize) -> (ConstraintSystem, SolutionChip, Table) {
    let mut cs = ConstraintSystem::new();
    let advice = cs.advice_column();
    let instance_col = cs.instance_column();
    let config: SolutionConfig = SolutionChip::configure(&mut cs, advice, instance_col);
    let chip = SolutionChip::construct(config);
    let table = Table::new(max_rows, instance);
    (cs, chip, table)
}

#[test]
fn felt_reduction_and_wraparound() {
    assert_eq!(Felt::from_u64(MODULUS), Felt::from_u64(0));
    assert_eq!(Felt::from_u64(MODULUS - 1).add(Felt::from_u64(1)), Felt::from_u64(0));
    // (-1) * (-1) = 1 in the field.
    let minus_one = Felt::from_u64(MODULUS - 1);
    assert_eq!(minus_one.mul(minus_one), Felt::from_u64(1));
    assert_eq!(Felt::from_u64(6).mul(Felt::from_u64(7)), Felt::from_u64(42));
}

#[test]
fn value_propagates_unknown() {
    let known = Value::Known(Felt::from_u64(5));
    assert_eq!(known.add(Value::Unknown), Value::Unknown);
    assert_eq!(Value::Unknown.mul(known), Value::Unknown);
    assert_eq!(known.add(known), Value::Known(Felt::from_u64(10)));
}

#[test]
fn add_region_computes_sum_and_satisfies_gate() {
    let (cs, chip, mut t) = configured(vec![], 32);
    let p = chip.load_private(&mut t, Value::Known(Felt::from_u64(3))).unwrap();
    let q = chip.load_private(&mut t, Value::Known(Felt::from_u64(4))).unwrap();
    let w = chip.add(&mut t, p, q).unwrap();
    assert_eq!(w.value, Value::Known(Felt::from_u64(7)));
    assert!(check_satisfied(&cs, &t));
}

#[test]
fn mul_region_computes_product_and_satisfies_gate() {
    let (cs, chip, mut t) = configured(vec![], 32);
    let p = chip.load_private(&mut t, Value::Known(Felt::from_u64(3))).unwrap();
    let q = chip.load_private(&mut t, Value::Known(Felt::from_u64(4))).unwrap();
    let w = chip.mul(&mut t, p, q).unwrap();
    assert_eq!(w.value, Value::Known(Felt::from_u64(12)));
    assert!(check_satisfied(&cs, &t));
}

#[test]
fn gate_with_unknown_cell_fails_verification() {
    let (cs, chip, mut t) = configured(vec![], 32);
    let p = chip.load_private(&mut t, Value::Unknown).unwrap();
    let q = chip.load_private(&mut t, Value::Known(Felt::from_u64(4))).unwrap();
    let w = chip.add(&mut t, p, q).unwrap();
    assert_eq!(w.value, Value::Unknown);
    assert!(!check_satisfied(&cs, &t));
}

#[test]
fn disabled_rows_impose_nothing() {
    // Arbitrary advice values on rows where no selector is enabled leave
    // the table satisfied, although both gates are declared.
    let (cs, chip, mut t) = configured(vec![], 32);
    chip.load_private(&mut t, Value::Known(Felt::from_u64(123))).unwrap();
    chip.load_private(&mut t, Value::Known(Felt::from_u64(456))).unwrap();
    chip.load_private(&mut t, Value::Unknown).unwrap();
    assert!(check_satisfied(&cs, &t));
}

#[test]
fn copy_leaves_the_source_cell_unchanged() {
    let (_cs, chip, mut t) = configured(vec![], 32);
    let p = chip.load_private(&mut t, Value::Known(Felt::from_u64(3))).unwrap();
    let q = chip.load_private(&mut t, Value::Known(Felt::from_u64(4))).unwrap();
    let source_cell = p.cell;
    chip.add(&mut t, p, q).unwrap();
    // The add region copied p into its own rows; the source cell still
    // holds the value it was assigned.
    assert_eq!(t.lookup(source_cell), Value::Known(Felt::from_u64(3)));
}

#[test]
fn expose_public_checks_against_the_instance_row() {
    let (cs, chip, mut t) = configured(vec![Value::Known(Felt::from_u64(7))], 8);
    let w = chip.load_private(&mut t, Value::Known(Felt::from_u64(7))).unwrap();
    chip.expose_public(&mut t, w, 0).unwrap();
    assert!(check_satisfied(&cs, &t));

    let (cs2, chip2, mut t2) = configured(vec![Value::Known(Felt::from_u64(8))], 8);
    let w2 = chip2.load_private(&mut t2, Value::Known(Felt::from_u64(7))).unwrap();
    chip2.expose_public(&mut t2, w2, 0).unwrap();
    assert!(!check_satisfied(&cs2, &t2));
}

#[test]
fn expose_public_at_a_missing_row_fails_verification() {
    let (cs, chip, mut t) = configured(vec![Value::Known(Felt::from_u64(7))], 8);
    let w = chip.load_private(&mut t, Value::Known(Felt::from_u64(7))).unwrap();
    chip.expose_public(&mut t, w, 5).unwrap();
    assert!(!check_satisfied(&cs, &t));
}

#[test]
fn load_constants_binds_the_instance_values() {
    let instance = vec![
        Value::Known(Felt::from_u64(1)),
        Value::Known(Felt::from_u64(2)),
        Value::Known(Felt::from_u64(3)),
    ];
    let (cs, chip, mut t) = configured(instance, 16);
    let (a, b, c) = chip.load_constants(&mut t).unwrap();
    assert_eq!(a.value, Value::Known(Felt::from_u64(1)));
    assert_eq!(b.value, Value::Known(Felt::from_u64(2)));
    assert_eq!(c.value, Value::Known(Felt::from_u64(3)));
    assert!(check_satisfied(&cs, &t));
}

#[test]
fn exhausted_table_is_a_layout_error() {
    let (_cs, chip, mut t) = configured(vec![], 0);
    let err = chip.load_private(&mut t, Value::Known(Felt::from_u64(1))).unwrap_err();
    assert_eq!(err, SynthError::Layout(RegionName::LoadPrivate));

    let (_cs2, chip2, mut t2) = configured(vec![], 2);
    let p = chip2.load_private(&mut t2, Value::Known(Felt::from_u64(1))).unwrap();
    let err2 = chip2.add(&mut t2, p, p).unwrap_err();
    assert_eq!(err2, SynthError::Layout(RegionName::AddRegion));
}

#[test]
fn inconsistent_wire_is_a_constraint_error() {
    let (_cs, chip, mut t) = configured(vec![], 32);
    let p = chip.load_private(&mut t, Value::Known(Felt::from_u64(3))).unwrap();
    let forged = Number { cell: p.cell, value: Value::Known(Felt::from_u64(4)) };
    let err = chip.add(&mut t, p, forged).unwrap_err();
    assert_eq!(err, SynthError::Constraint(RegionName::AddRegion));

    let dangling = Number { cell: CellRef { col: 0, row: 20 }, value: Value::Unknown };
    let err2 = chip.mul(&mut t, dangling, p).unwrap_err();
    assert_eq!(err2, SynthError::Constraint(RegionName::MulRegion));

    let err3 = chip.expose_public(&mut t, forged, 0).unwrap_err();
    assert_eq!(err3, SynthError::Constraint(RegionName::ExposePublic));
}
