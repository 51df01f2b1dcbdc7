//! End-to-end checks of the is-zero gadget against the real proving
//! backend: the same three polynomial constraints are registered with the
//! backend, the witness values are computed by the library, and the mock
//! prover's verdict is compared with what the library's contracts predict.

use halo2_proofs::{
    circuit::{Layouter, SimpleFloorPlanner, Value},
    dev::MockProver,
    pasta::group::ff::PrimeField,
    pasta::Fp,
    plonk::{
        Advice, Circuit, Column, ConstraintSystem, Error, Expression, Instance, Selector,
    },
    poly::Rotation,
};
use halo2_playground::backend::{AssignedCell as ModelCell, Backend};
use halo2_playground::chips::is_zero::{IsZeroChip, ValueIZ};
use halo2_playground::field::Fe;

const K: u32 = 4;

fn fe_of_fp(v: &Fp) -> Fe {
    Fe { bytes: v.to_repr().to_vec() }
}

fn fp_of_fe(v: &Fe) -> Fp {
    let repr: [u8; 32] = v.bytes.as_slice().try_into().unwrap();
    Fp::from_repr(repr).unwrap()
}

fn model_chip() -> IsZeroChip {
    let mut meta = Backend::new();
    let value = meta.advice_column();
    let value_inverse = meta.advice_column();
    let result = meta.advice_column();
    let config = IsZeroChip::configure(&mut meta, value, value_inverse, result);
    IsZeroChip::construct(config)
}

#[derive(Clone, Debug)]
struct TestCircuitConfig {
    value: Column<Advice>,
    value_inverse: Column<Advice>,
    result: Column<Advice>,
    selector: Selector,
    instance: Column<Instance>,
}

#[derive(Default)]
struct TestCircuit {
    number: Value<Fp>,
}

impl Circuit<Fp> for TestCircuit {
    type Config = TestCircuitConfig;
    type FloorPlanner = SimpleFloorPlanner;

    fn without_witnesses(&self) -> Self {
        Self::default()
    }

    fn configure(meta: &mut ConstraintSystem<Fp>) -> Self::Config {
        let value = meta.advice_column();
        let value_inverse = meta.advice_column();
        let result = meta.advice_column();
        let instance = meta.instance_column();

        meta.enable_equality(value);
        meta.enable_equality(value_inverse);
        meta.enable_equality(result);
        meta.enable_equality(instance);

        let selector = meta.selector();
        meta.create_gate("is zero gate", |meta| {
            let s = meta.query_selector(selector);
            let v = meta.query_advice(value, Rotation::cur());
            let v_inv = meta.query_advice(value_inverse, Rotation::cur());
            let is_zero = meta.query_advice(result, Rotation::cur());
            let one = Expression::Constant(Fp::from(1));
            vec![
                s.clone() * is_zero.clone() * (is_zero.clone() - one.clone()),
                s.clone()
                    * ((one.clone() - is_zero.clone()) * (v.clone() * v_inv.clone() - one)
                        + is_zero.clone() * (v.clone() - v_inv)),
                s * v * is_zero,
            ]
        });

        TestCircuitConfig { value, value_inverse, result, selector, instance }
    }

    fn synthesize(
        &self,
        config: Self::Config,
        mut layouter: impl Layouter<Fp>,
    ) -> Result<(), Error> {
        let chip = model_chip();

        let value_cell = layouter.assign_region(
            || "load private",
            |mut region| region.assign_advice(|| "value", config.value, 0, || self.number),
        )?;
        let value_inverse_cell = layouter.assign_region(
            || "load private",
            |mut region| {
                region.assign_advice(
                    || "value inverse",
                    config.value,
                    0,
                    || {
                        self.number.map(|v| {
                            let cells = chip.load_value(fe_of_fp(&v));
                            fp_of_fe(&cells.1.value)
                        })
                    },
                )
            },
        )?;

        let result_cell = layouter.assign_region(
            || "region",
            |mut region| {
                config.selector.enable(&mut region, 0)?;
                let v0 = value_cell.copy_advice(|| "copy value", &mut region, config.value, 0)?;
                let v1 = value_inverse_cell.copy_advice(
                    || "copy value inverse",
                    &mut region,
                    config.value_inverse,
                    0,
                )?;
                let result = v0.value().zip(v1.value()).map(|(a, b)| {
                    let pair = ValueIZ(
                        ModelCell { value: fe_of_fp(a) },
                        ModelCell { value: fe_of_fp(b) },
                    );
                    fp_of_fe(&chip.is_zero(pair).value)
                });
                region.assign_advice(|| "result", config.result, 0, || result)
            },
        )?;

        layouter.constrain_instance(result_cell.cell(), config.instance, 0)?;

        Ok(())
    }
}

#[test]
fn test_circuit_0_pass() {
    // Number is 0, hence is_zero should be true or 1.
    let prover = MockProver::run(
        K,
        &TestCircuit { number: Value::known(Fp::from(0)) },
        vec![vec![Fp::from(1)]],
    )
    .unwrap();

    assert_eq!(prover.verify(), Ok(()));
}

#[test]
fn test_circuit_0_fail() {
    // Number is 0, hence is_zero should be true or 1. But is_zero = 0 should fail.
    let prover = MockProver::run(
        K,
        &TestCircuit { number: Value::known(Fp::from(0)) },
        vec![vec![Fp::from(0)]],
    )
    .unwrap();

    assert!(prover.verify().is_err());
}

#[test]
fn test_circuit_123_pass() {
    // Number is 9, hence is_zero should be false or 0.
    let prover = MockProver::run(
        K,
        &TestCircuit { number: Value::known(Fp::from(9)) },
        vec![vec![Fp::from(0)]],
    )
    .unwrap();

    assert_eq!(prover.verify(), Ok(()));
}

#[test]
fn test_circuit_123_fail() {
    // Number is 123, hence is_zero should be false or 0. But is_zero = 1 should fail.
    let prover = MockProver::run(
        K,
        &TestCircuit { number: Value::known(Fp::from(123)) },
        vec![vec![Fp::from(1)]],
    )
    .unwrap();

    assert!(prover.verify().is_err());
}
