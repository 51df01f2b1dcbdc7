use halo2_playground::backend::Backend;
use halo2_playground::chips::is_zero::{check_is_zero_row, IsZeroChip};
use halo2_playground::field::Fe;

fn configured_chip() -> IsZeroChip {
    let mut meta = Backend::new();
    let value = meta.advice_column();
    let value_inverse = meta.advice_column();
    let result = meta.advice_column();
    meta.enable_equality(value);
    meta.enable_equality(value_inverse);
    meta.enable_equality(result);
    let config = IsZeroChip::configure(&mut meta, value, value_inverse, result);
    IsZeroChip::construct(config)
}

#[test]
fn zero_value_yields_result_one() {
    let chip = configured_chip();
    let cells = chip.load_value(Fe::from_u64(0));
    let result = chip.is_zero(cells);
    assert_eq!(result.value.lower_128(), 1);
}

#[test]
fn nonzero_value_yields_result_zero() {
    let chip = configured_chip();
    let cells = chip.load_value(Fe::from_u64(9));
    let result = chip.is_zero(cells);
    assert_eq!(result.value.lower_128(), 0);
    assert!(result.value.is_zero_value());
}

#[test]
fn large_nonzero_value_yields_result_zero() {
    let chip = configured_chip();
    let cells = chip.load_value(Fe::from_u128(u128::MAX));
    let result = chip.is_zero(cells);
    assert!(result.value.is_zero_value());
}

#[test]
fn honest_rows_satisfy_the_gate() {
    let chip = configured_chip();
    // v = 0: the convention assigns v_inv = 0 and the result witness is 1.
    assert!(check_is_zero_row(&Fe::from_u64(0), &Fe::from_u64(0), &Fe::from_u64(1)));
    // v = 123: v_inv is the field inverse and the result witness is 0.
    let cells = chip.load_value(Fe::from_u64(123));
    assert!(check_is_zero_row(&cells.0.value, &cells.1.value, &Fe::from_u64(0)));
}

#[test]
fn zero_value_with_declared_result_zero_is_rejected() {
    // Binding the public result 0 to the row for v = 0 cannot be satisfied
    // by any inverse witness; the convention's witness is rejected here.
    assert!(!check_is_zero_row(&Fe::from_u64(0), &Fe::from_u64(0), &Fe::from_u64(0)));
    // Nor does an arbitrary claimed inverse help.
    assert!(!check_is_zero_row(&Fe::from_u64(0), &Fe::from_u64(77), &Fe::from_u64(0)));
}

#[test]
fn nonzero_value_with_declared_result_one_is_rejected() {
    let chip = configured_chip();
    let cells = chip.load_value(Fe::from_u64(123));
    assert!(!check_is_zero_row(&cells.0.value, &cells.1.value, &Fe::from_u64(1)));
}

#[test]
fn non_boolean_result_is_rejected() {
    let chip = configured_chip();
    let cells = chip.load_value(Fe::from_u64(5));
    assert!(!check_is_zero_row(&cells.0.value, &cells.1.value, &Fe::from_u64(2)));
}

#[test]
fn wrong_inverse_witness_is_rejected_for_nonzero_value() {
    // v = 9 with a claimed inverse that is not 9^(-1): constraint 2 fails
    // whatever the result cell holds.
    assert!(!check_is_zero_row(&Fe::from_u64(9), &Fe::from_u64(4), &Fe::from_u64(0)));
    assert!(!check_is_zero_row(&Fe::from_u64(9), &Fe::from_u64(4), &Fe::from_u64(1)));
}

#[test]
fn loading_twice_gives_the_same_witness() {
    let chip = configured_chip();
    let first = chip.load_value(Fe::from_u64(42));
    let second = chip.load_value(Fe::from_u64(42));
    assert_eq!(first.0.value.lower_128(), second.0.value.lower_128());
    assert_eq!(first.1.value.lower_128(), second.1.value.lower_128());
    let r1 = chip.is_zero(first);
    let r2 = chip.is_zero(second);
    assert_eq!(r1.value.lower_128(), r2.value.lower_128());
}

#[test]
fn configuring_twice_registers_identical_structure() {
    let mut m1 = Backend::new();
    let v1 = m1.advice_column();
    let i1 = m1.advice_column();
    let r1 = m1.advice_column();
    let c1 = IsZeroChip::configure(&mut m1, v1, i1, r1);
    let mut m2 = Backend::new();
    let v2 = m2.advice_column();
    let i2 = m2.advice_column();
    let r2 = m2.advice_column();
    let c2 = IsZeroChip::configure(&mut m2, v2, i2, r2);
    assert!(c1 == c2);
    assert!(IsZeroChip::construct(c1).config() == IsZeroChip::construct(c2).config());
}
