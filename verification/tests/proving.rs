use fib_arith::circuit::FibCircuit;
use fib_arith::felt::Felt;
use fib_arith::lazy::LazyFelt;
use halo2_proofs::circuit::{AssignedCell, Layouter, SimpleFloorPlanner, Value};
use halo2_proofs::dev::MockProver;
use halo2_proofs::pasta::Fp;
use halo2_proofs::plonk::{Advice, Circuit, Column, ConstraintSystem, Error, Selector};
use halo2_proofs::poly::Rotation;

#[derive(Clone, Debug)]
struct ProverConfig {
    advice: [Column<Advice>; 3],
    selector: Selector,
}

struct ProverCircuit {
    circ: FibCircuit,
}

fn to_fp(f: &Felt) -> Fp {
    Fp::from_raw([f.l0, f.l1, f.l2, f.l3])
}

fn to_value(l: &LazyFelt) -> Value<Fp> {
    match l {
        LazyFelt::Known(f) => Value::known(to_fp(f)),
        LazyFelt::Unknown => Value::unknown(),
    }
}

impl Circuit<Fp> for ProverCircuit {
    type Config = ProverConfig;
    type FloorPlanner = SimpleFloorPlanner;

    fn without_witnesses(&self) -> Self {
        ProverCircuit { circ: self.circ.without_witnesses() }
    }

    fn configure(meta: &mut ConstraintSystem<Fp>) -> Self::Config {
        let col_a = meta.advice_column();
        let col_b = meta.advice_column();
        let col_c = meta.advice_column();
        let selector = meta.selector();
        meta.enable_equality(col_a);
        meta.enable_equality(col_b);
        meta.enable_equality(col_c);
        meta.create_gate("add", |vc| {
            let s = vc.query_selector(selector);
            let a = vc.query_advice(col_a, Rotation::cur());
            let b = vc.query_advice(col_b, Rotation::cur());
            let c = vc.query_advice(col_c, Rotation::cur());
            vec![s * (a + b - c)]
        });
        ProverConfig { advice: [col_a, col_b, col_c], selector }
    }

    fn synthesize(
        &self,
        config: Self::Config,
        mut layouter: impl Layouter<Fp>,
    ) -> Result<(), Error> {
        let model_cfg = FibCircuit::configure();
        let rows = match self.circ.synthesize(&model_cfg) {
            Ok(rows) => rows,
            Err(_) => return Err(Error::Synthesis),
        };
        let mut prev_c: Option<AssignedCell<Fp, Fp>> = None;
        for row in rows.iter() {
            let prev = prev_c.clone();
            let c_cell = layouter.assign_region(
                || "row",
                |mut region| {
                    config.selector.enable(&mut region, 0)?;
                    region.assign_advice(|| "a", config.advice[0], 0, || to_value(&row.a))?;
                    match (&row.b_copy, &prev) {
                        (Some(_), Some(cell)) => {
                            cell.copy_advice(|| "b", &mut region, config.advice[1], 0)?;
                        }
                        _ => {
                            region.assign_advice(
                                || "b",
                                config.advice[1],
                                0,
                                || to_value(&row.b),
                            )?;
                        }
                    }
                    region.assign_advice(|| "c", config.advice[2], 0, || to_value(&row.c))
                },
            )?;
            prev_c = Some(c_cell);
        }
        Ok(())
    }
}

fn prover_circuit(a: u64, b: u64, k: usize, z: u64) -> ProverCircuit {
    ProverCircuit {
        circ: FibCircuit {
            a: LazyFelt::Known(Felt::from_u64(a)),
            b: LazyFelt::Known(Felt::from_u64(b)),
            k: Some(k),
            z: LazyFelt::Known(Felt::from_u64(z)),
        },
    }
}

#[test]
fn test_complete() {
    let circ = prover_circuit(1, 2, 9, 89);
    let prover = MockProver::run(8, &circ, vec![]).unwrap();
    assert_eq!(prover.verify(), Ok(()));
}

#[test]
#[should_panic]
fn test_sound() {
    let circ = prover_circuit(5, 8, 11, 55);
    let prover = MockProver::run(8, &circ, vec![]).unwrap();
    assert_eq!(prover.verify(), Ok(()));
}

#[test]
fn completeness_holds_where_the_sequence_reaches_the_claim() {
    // 1, 2, 3, 5, 8, 13, 21, 34, 55: term eight of the recurrence is 55.
    let circ = prover_circuit(1, 2, 8, 55);
    let prover = MockProver::run(8, &circ, vec![]).unwrap();
    assert_eq!(prover.verify(), Ok(()));
}

#[test]
fn index_one_is_rejected_by_the_driver() {
    let circ = prover_circuit(1, 1, 1, 1);
    assert!(MockProver::run(8, &circ, vec![]).is_err());
}

#[test]
fn large_values_round_trip_to_the_backend_field() {
    let x = Felt::from_limbs(0x992d30ed00000000, 0x224698fc094cf91b, 0, 0x4000000000000000)
        .unwrap();
    let one = Felt::from_u64(1);
    let sum = x.add(one);
    assert_eq!(to_fp(&x) + to_fp(&one), to_fp(&sum));
}
