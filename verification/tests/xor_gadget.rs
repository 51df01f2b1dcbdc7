use halo2_playground::backend::{AssignedCell, Backend};
use halo2_playground::chips::xor::{XorChip, XorInput};
use halo2_playground::chips::xor_table::XorTableConfig;
use halo2_playground::field::Fe;

fn configured_chip(bits: usize) -> XorChip {
    let mut meta = Backend::new();
    XorChip::construct(&mut meta, bits)
}

#[test]
fn table_has_one_row_per_operand_pair() {
    let chip = configured_chip(4);
    let rows = chip.xor_table.load();
    assert_eq!(rows.len(), 256);
    // Lexicographic by (left, right), left outer.
    assert_eq!((rows[0].left, rows[0].right, rows[0].result), (0, 0, 0));
    assert_eq!((rows[1].left, rows[1].right, rows[1].result), (0, 1, 1));
    assert_eq!((rows[16].left, rows[16].right, rows[16].result), (1, 0, 1));
    assert_eq!((rows[255].left, rows[255].right, rows[255].result), (15, 15, 0));
    for (k, row) in rows.iter().enumerate() {
        assert_eq!(row.left as usize, k / 16);
        assert_eq!(row.right as usize, k % 16);
        assert_eq!(row.result, row.left ^ row.right);
    }
}

#[test]
fn table_contains_no_out_of_range_operand() {
    let chip = configured_chip(4);
    let rows = chip.xor_table.load();
    for row in rows.iter() {
        assert!(row.left < 16);
        assert!(row.right < 16);
        assert!(row.result < 16);
    }
}

#[test]
fn loading_twice_builds_the_same_table() {
    let chip = configured_chip(3);
    let first = chip.xor_table.load();
    let second = chip.xor_table.load();
    assert_eq!(first.len(), 64);
    assert!(first == second);
}

#[test]
fn origin_variant_computes_xor() {
    let chip = configured_chip(4);
    let result = chip.calculate_xor_values(3, 1);
    assert_eq!(result.value.lower_128(), 2);
}

#[test]
fn origin_variant_of_equal_operands_is_zero() {
    let chip = configured_chip(4);
    let result = chip.calculate_xor_values(3, 3);
    assert!(result.value.is_zero_value());
    // A declared public output of 3 would not match the enforced result.
    assert_ne!(result.value.lower_128(), 3);
}

#[test]
fn origin_variant_result_is_in_the_table() {
    let chip = configured_chip(4);
    let rows = chip.xor_table.load();
    let result = chip.calculate_xor_values(11, 6);
    let x = result.value.lower_128() as u64;
    assert_eq!(x, 11 ^ 6);
    assert!(rows.iter().any(|row| row.left == 11 && row.right == 6 && row.result == x));
    // No row matches a mismatched declared output.
    assert!(!rows.iter().any(|row| row.left == 11 && row.right == 6 && row.result == 3));
}

#[test]
fn composed_variant_computes_xor_of_cell_values() {
    let chip = configured_chip(4);
    let left = AssignedCell { value: Fe::from_u64(3) };
    let right = AssignedCell { value: Fe::from_u64(1) };
    let result = chip.calculate_xor(left, right);
    assert_eq!(result.value.lower_128(), 2);
}

#[test]
fn composed_variant_of_equal_cells_is_zero() {
    let chip = configured_chip(4);
    let left = AssignedCell { value: Fe::from_u64(3) };
    let right = AssignedCell { value: Fe::from_u64(3) };
    let result = chip.calculate_xor(left, right);
    assert!(result.value.is_zero_value());
    assert_ne!(result.value.lower_128(), 3);
}

#[test]
fn composed_variant_reads_the_low_bits_of_wide_values() {
    let chip = configured_chip(4);
    let left = AssignedCell { value: Fe::from_u128(0x10000000000000000000000000000005) };
    let right = AssignedCell { value: Fe::from_u128(3) };
    let result = chip.calculate_xor(left, right);
    assert_eq!(result.value.lower_128(), 0x10000000000000000000000000000005 ^ 3);
}

#[test]
fn mixed_sources_run_through_the_same_routine() {
    let chip = configured_chip(4);
    let cell = AssignedCell { value: Fe::from_u64(9) };
    let result = chip.assign_xor(XorInput::Raw(5), XorInput::Cell(cell));
    assert_eq!(result.value.lower_128(), 9 ^ 5);
}

#[test]
fn out_of_range_cell_has_no_matching_table_row() {
    let chip = configured_chip(4);
    let rows = chip.xor_table.load();
    // A cell holding 16 may still be assigned, but the lookup cannot match:
    // no table row has an operand outside [0, 16).
    let cell = AssignedCell { value: Fe::from_u64(16) };
    let other = AssignedCell { value: Fe::from_u64(1) };
    let result = chip.calculate_xor(cell, other);
    let x = result.value.lower_128() as u64;
    assert!(!rows.iter().any(|row| row.left == 16 && row.right == 1 && row.result == x));
    assert!(!rows.iter().any(|row| row.left == 16));
}

#[test]
fn constructing_twice_registers_identical_structure() {
    let a = configured_chip(4);
    let b = configured_chip(4);
    assert!(a == b);
    let rows_a = a.xor_table.load();
    let rows_b = b.xor_table.load();
    assert!(rows_a == rows_b);
}

#[test]
fn table_configure_allocates_three_distinct_columns() {
    let mut meta = Backend::new();
    let table = XorTableConfig::configure(&mut meta, 4);
    assert_ne!(table.left.index, table.right.index);
    assert_ne!(table.right.index, table.result.index);
    assert_ne!(table.left.index, table.result.index);
    assert_eq!(table.bits, 4);
}
