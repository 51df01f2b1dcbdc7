//! The XOR gadget: three equality-enabled advice columns and a lookup
//! argument that constrains `(selector * left, selector * right,
//! selector * result)` to match some row of the fixed XOR table on every row
//! where the selector is active. That single constraint enforces at once
//! that `result` is the bitwise XOR of `left` and `right` and that both
//! operands lie in `[0, 2^bits)`.
//!
//! An operand reaches the gadget from one of two sources: a raw integer not
//! yet part of the circuit, assigned fresh (the origin variant), or a
//! previously assigned cell, copied in under an equality constraint so the
//! constrained value is provably the upstream one (the composed variant).
//! Both run through the same assignment routine, `assign_xor`.

use vstd::prelude::*;
use vstd::arithmetic::div_mod::{lemma_mod_pos_bound, lemma_small_mod};
use crate::backend::{cell_wf, equality_enabled, AssignedCell, Backend, ColumnId, SelectorId,
    TableColumnId};
use crate::chips::xor_table::XorTableConfig;
use crate::field::{fe_val, pow2_128, Fe};

verus! {

/// One source of an XOR operand.
pub enum XorInput {
    /// An integer not yet constrained anywhere in the circuit; the gadget
    /// assigns it fresh. Must lie in `[0, 2^bits)`.
    Raw(u64),
    /// A cell assigned upstream; the gadget copies it under an equality
    /// constraint.
    Cell(AssignedCell),
}

/// Well-formedness of an operand source.
pub open spec fn xor_input_wf(i: XorInput) -> bool {
    match i {
        XorInput::Raw(_) => true,
        XorInput::Cell(c) => cell_wf(c),
    }
}

/// The field value an operand source contributes to the gadget's column.
pub open spec fn xor_input_val(i: XorInput) -> int {
    match i {
        XorInput::Raw(x) => x as int,
        XorInput::Cell(c) => fe_val(c.value),
    }
}

/// A raw operand must respect the table's bit-width; a copied cell may hold
/// anything, the lookup rejects it later if it is out of range.
pub open spec fn xor_input_in_bounds(i: XorInput, bits: usize) -> bool {
    match i {
        XorInput::Raw(x) => x < (1u64 << bits),
        XorInput::Cell(_) => true,
    }
}

/// The low 128 bits of an operand value: what the witness computation reads
/// of a field element.
pub open spec fn low_128(v: int) -> u128 {
    (v % pow2_128()) as u128
}

/// The XOR gadget's configuration: the lookup selector, the table it looks
/// up into, and its three equality-enabled advice columns.
#[derive(Clone, Copy, Debug, PartialEq, Eq, Structural)]
pub struct XorChip {
    pub q_lookup: SelectorId,
    pub xor_table: XorTableConfig,
    pub left_advice: ColumnId,
    pub right_advice: ColumnId,
    pub result_advice: ColumnId,
}

/// The gadget `construct` produces from a given backend state: a pure
/// function of that state, which is what makes configuration deterministic.
pub open spec fn xor_construct_result(meta: Backend, bits: usize) -> XorChip {
    XorChip {
        q_lookup: SelectorId { index: meta.next_selector },
        xor_table: XorTableConfig {
            bits,
            left: TableColumnId { index: meta.next_table },
            right: TableColumnId { index: (meta.next_table + 1) as u64 },
            result: TableColumnId { index: (meta.next_table + 2) as u64 },
        },
        left_advice: ColumnId { index: meta.next_advice },
        right_advice: ColumnId { index: (meta.next_advice + 1) as u64 },
        result_advice: ColumnId { index: (meta.next_advice + 2) as u64 },
    }
}

/// Constructing twice with identical parameters over identical backend
/// states registers structurally identical constraints: the configurations
/// are equal, and the lookup's semantics (`table_contains` over the loaded
/// rows) does not depend on the backend state at all.
pub proof fn lemma_xor_construct_deterministic(m1: Backend, m2: Backend, bits: usize)
    requires
        m1.next_selector == m2.next_selector,
        m1.next_advice == m2.next_advice,
        m1.next_table == m2.next_table,
    ensures
        xor_construct_result(m1, bits) == xor_construct_result(m2, bits),
{
}

/// The enforced result tracks its inputs: with one operand fixed, distinct
/// values of the other are forced to distinct results, so changing an input
/// cell after the copy changes the result the lookup accepts.
pub proof fn lemma_xor_result_tracks_inputs(bits: usize, l: u64, r1: u64, r2: u64)
    requires
        bits <= 15,
        l < (1u64 << bits),
        r1 < (1u64 << bits),
        r2 < (1u64 << bits),
        r1 != r2,
    ensures
        (l ^ r1) != (l ^ r2),
{
    assert((l ^ r1) != (l ^ r2)) by (bit_vector)
        requires
            r1 != r2,
    ;
}

impl XorChip {
    /// Configure the gadget: allocate the lookup selector, the table's
    /// columns and three fresh advice columns, enable equality on the advice
    /// columns (so results can be copied onwards and operands copied in),
    /// and register the lookup argument tying `(selector * left, selector *
    /// right, selector * result)` to the table's columns.
    pub fn construct(meta: &mut Backend, bits: usize) -> (r: Self)
        requires
            old(meta).next_selector < u64::MAX,
            old(meta).next_table + 3 <= u64::MAX,
            old(meta).next_advice + 3 <= u64::MAX,
        ensures
            r == xor_construct_result(*old(meta), bits),
            final(meta).next_selector == old(meta).next_selector + 1,
            final(meta).next_table == old(meta).next_table + 3,
            final(meta).next_advice == old(meta).next_advice + 3,
            equality_enabled(*final(meta), r.left_advice),
            equality_enabled(*final(meta), r.right_advice),
            equality_enabled(*final(meta), r.result_advice),
    {
        let q_lookup = meta.complex_selector();
        let xor_table = XorTableConfig::configure(meta, bits);
        let left_advice = meta.advice_column();
        let right_advice = meta.advice_column();
        let result_advice = meta.advice_column();
        meta.enable_equality(left_advice);
        meta.enable_equality(right_advice);
        meta.enable_equality(result_advice);
        XorChip { q_lookup, xor_table, left_advice, right_advice, result_advice }
    }

    /// The single assignment routine behind both variants: activate the
    /// lookup selector on a fresh row, bring each operand into its column
    /// (fresh assignment for a raw value, copy under an equality constraint
    /// for a cell), and assign the XOR of the operands' low 128 bits as the
    /// result witness. For in-range operands the result is exactly their
    /// bitwise XOR and itself in range, so the loaded table contains the
    /// assigned row (`lemma_xor_lookup_complete`); for an out-of-range
    /// operand no table row can match (`lemma_xor_lookup_rejects_out_of_range`).
    pub fn assign_xor(&self, left: XorInput, right: XorInput) -> (r: AssignedCell)
        requires
            xor_input_wf(left),
            xor_input_wf(right),
            xor_input_in_bounds(left, self.xor_table.bits),
            xor_input_in_bounds(right, self.xor_table.bits),
            self.xor_table.bits <= 15,
        ensures
            cell_wf(r),
            fe_val(r.value) == (low_128(xor_input_val(left)) ^ low_128(xor_input_val(right)))
                as int,
            (xor_input_val(left) < (1u64 << self.xor_table.bits) && xor_input_val(right) < (1u64
                << self.xor_table.bits)) ==> {
                &&& fe_val(r.value) == ((xor_input_val(left) as u64) ^ (xor_input_val(right)
                    as u64)) as int
                &&& fe_val(r.value) < (1u64 << self.xor_table.bits)
            },
    {
        let bits: usize = self.xor_table.bits;
        let ghost lval = xor_input_val(left);
        let ghost rval = xor_input_val(right);
        let left_fe = match left {
            XorInput::Raw(x) => Fe::from_u64(x),
            XorInput::Cell(c) => c.value,
        };
        let right_fe = match right {
            XorInput::Raw(x) => Fe::from_u64(x),
            XorInput::Cell(c) => c.value,
        };
        assert(fe_val(left_fe) == lval);
        assert(fe_val(right_fe) == rval);
        let l128 = left_fe.lower_128();
        let r128 = right_fe.lower_128();
        proof {
            lemma_mod_pos_bound(lval, pow2_128());
            lemma_mod_pos_bound(rval, pow2_128());
            assert(l128 == low_128(lval));
            assert(r128 == low_128(rval));
        }
        let x = l128 ^ r128;
        let result = Fe::from_u128(x);
        proof {
            if lval < (1u64 << bits) && rval < (1u64 << bits) {
                assert((1u64 << bits) <= 0x8000) by (bit_vector)
                    requires
                        bits <= 15,
                ;
                lemma_small_mod(lval as nat, pow2_128() as nat);
                lemma_small_mod(rval as nat, pow2_128() as nat);
                let lu = lval as u64;
                let ru = rval as u64;
                assert(l128 == lu as u128);
                assert(r128 == ru as u128);
                assert((lu as u128) ^ (ru as u128) == (lu ^ ru) as u128);
                assert(lu ^ ru < (1u64 << bits)) by (bit_vector)
                    requires
                        lu < (1u64 << bits),
                        ru < (1u64 << bits),
                        bits <= 15,
                ;
            }
        }
        AssignedCell { value: result }
    }

    /// The composed variant: XOR two cells assigned upstream. Both are
    /// copied into the gadget's columns under equality constraints, so the
    /// values constrained here are provably the upstream ones, and the
    /// result witness is the XOR of their values' low 128 bits.
    pub fn calculate_xor(&self, left_cell_advice: AssignedCell, right_cell_advice: AssignedCell)
        -> (r: AssignedCell)
        requires
            cell_wf(left_cell_advice),
            cell_wf(right_cell_advice),
            self.xor_table.bits <= 15,
        ensures
            cell_wf(r),
            fe_val(r.value) == (low_128(fe_val(left_cell_advice.value)) ^ low_128(fe_val(
                right_cell_advice.value,
            ))) as int,
            (fe_val(left_cell_advice.value) < (1u64 << self.xor_table.bits) && fe_val(
                right_cell_advice.value,
            ) < (1u64 << self.xor_table.bits)) ==> {
                &&& fe_val(r.value) == ((fe_val(left_cell_advice.value) as u64) ^ (fe_val(
                    right_cell_advice.value,
                ) as u64)) as int
                &&& fe_val(r.value) < (1u64 << self.xor_table.bits)
            },
    {
        self.assign_xor(XorInput::Cell(left_cell_advice), XorInput::Cell(right_cell_advice))
    }

    /// The origin variant: XOR two raw integers not yet part of the
    /// circuit's constrained state. Operands outside `[0, 2^bits)` are a
    /// caller contract violation, excluded up front.
    pub fn calculate_xor_values(&self, left: u64, right: u64) -> (r: AssignedCell)
        requires
            self.xor_table.bits <= 15,
            left < (1u64 << self.xor_table.bits),
            right < (1u64 << self.xor_table.bits),
        ensures
            cell_wf(r),
            fe_val(r.value) == (left ^ right) as int,
            fe_val(r.value) < (1u64 << self.xor_table.bits),
    {
        self.assign_xor(XorInput::Raw(left), XorInput::Raw(right))
    }
}

} // verus!
