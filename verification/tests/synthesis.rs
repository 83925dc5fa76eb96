use fib_arith::chip::FibConfig;
use fib_arith::circuit::FibCircuit;
use fib_arith::felt::{Felt, MOD_L1, MOD_L3};
use fib_arith::lazy::LazyFelt;
use fib_arith::table::{row_gate_check, table_check, CellRef, Row, SynthesisError, Wire};

fn known(x: u64) -> LazyFelt {
    LazyFelt::Known(Felt::from_u64(x))
}

fn circuit(a: u64, b: u64, k: usize, z: u64) -> FibCircuit {
    FibCircuit { a: known(a), b: known(b), k: Some(k), z: known(z) }
}

fn synthesize(c: &FibCircuit) -> Result<Vec<Row>, SynthesisError> {
    let cfg = FibCircuit::configure();
    c.synthesize(&cfg)
}

#[test]
fn complete_witness_satisfies_all_constraints() {
    let rows = synthesize(&circuit(1, 2, 9, 89)).unwrap();
    assert_eq!(rows.len(), 8);
    assert!(table_check(&rows));
    assert_eq!(rows[0].a, known(1));
    assert_eq!(rows[0].b, known(2));
    assert_eq!(rows[0].c, known(3));
    assert_eq!(rows[7].a, known(34));
    assert_eq!(rows[7].b, known(55));
    assert_eq!(rows[7].c, known(89));
    assert!(rows.iter().all(|r| r.selector));
}

#[test]
fn wrong_claim_violates_terminal_gate() {
    let rows = synthesize(&circuit(5, 8, 11, 55)).unwrap();
    assert_eq!(rows.len(), 10);
    assert!(!table_check(&rows));
    assert!(!row_gate_check(&rows[9]));
    let mut x: usize = 0;
    while x < 9 {
        assert!(row_gate_check(&rows[x]));
        x += 1;
    }
}

#[test]
fn rows_chain_through_copy_constraints() {
    let rows = synthesize(&circuit(1, 2, 9, 89)).unwrap();
    assert_eq!(rows[0].b_copy, None);
    let mut x: usize = 1;
    while x < rows.len() {
        assert_eq!(rows[x].b_copy, Some(CellRef { wire: Wire::C, row: x - 1 }));
        assert_eq!(rows[x].b, rows[x - 1].c);
        x += 1;
    }
}

#[test]
fn synthesis_is_deterministic() {
    let c = circuit(7, 13, 20, 999);
    let first = synthesize(&c).unwrap();
    let second = synthesize(&c).unwrap();
    assert_eq!(first, second);
}

#[test]
fn index_below_two_is_rejected() {
    assert_eq!(synthesize(&circuit(1, 2, 1, 55)), Err(SynthesisError::IndexTooSmall));
    assert_eq!(synthesize(&circuit(1, 2, 0, 55)), Err(SynthesisError::IndexTooSmall));
}

#[test]
fn structural_pass_builds_empty_table() {
    let c = circuit(1, 2, 9, 89).without_witnesses();
    assert_eq!(c.k, None);
    let rows = synthesize(&c).unwrap();
    assert!(rows.is_empty());
}

#[test]
fn unknown_inputs_leave_cells_unknown() {
    let c = FibCircuit { a: LazyFelt::Unknown, b: LazyFelt::Unknown, k: Some(5), z: LazyFelt::Unknown };
    let rows = synthesize(&c).unwrap();
    assert_eq!(rows.len(), 4);
    for r in rows.iter() {
        assert_eq!(r.a, LazyFelt::Unknown);
        assert_eq!(r.b, LazyFelt::Unknown);
        assert_eq!(r.c, LazyFelt::Unknown);
        assert!(r.selector);
    }
}

#[test]
fn chaining_without_permission_is_fatal() {
    let cfg = FibConfig { eq_a: true, eq_b: true, eq_c: false };
    let c = circuit(1, 2, 4, 5);
    assert_eq!(c.synthesize(&cfg), Err(SynthesisError::CopyNotPermitted));
    let single_row = circuit(1, 2, 2, 3);
    assert!(single_row.synthesize(&cfg).is_ok());
}

#[test]
fn minimal_index_yields_one_terminal_row() {
    let rows = synthesize(&circuit(1, 2, 2, 3)).unwrap();
    assert_eq!(rows.len(), 1);
    assert_eq!(rows[0].a, known(1));
    assert_eq!(rows[0].b, known(2));
    assert_eq!(rows[0].c, known(3));
    assert_eq!(rows[0].b_copy, None);
    assert!(table_check(&rows));
    let wrong = synthesize(&circuit(1, 2, 2, 4)).unwrap();
    assert!(!table_check(&wrong));
}

#[test]
fn field_addition_small_values() {
    let two = Felt::from_u64(2);
    let three = Felt::from_u64(3);
    assert_eq!(two.add(three), Felt::from_u64(5));
}

#[test]
fn field_addition_wraps_at_modulus() {
    let p_minus_one = Felt::from_limbs(0x992d30ed00000000, MOD_L1, 0, MOD_L3).unwrap();
    let one = Felt::from_u64(1);
    assert_eq!(p_minus_one.add(one), Felt::zero());
    assert_eq!(Felt::zero().add(one), one);
}

#[test]
fn non_canonical_limbs_are_rejected() {
    assert_eq!(Felt::from_limbs(0x992d30ed00000001, MOD_L1, 0, MOD_L3), None);
    assert!(Felt::from_limbs(u64::MAX, 0, 0, 0).is_some());
}
