//! The fixed XOR lookup table: for a bit-width `BITS`, one row for every
//! ordered pair `(a, b)` with `0 <= a, b < 2^BITS`, holding `(a, b, a ^ b)`.
//! Rows are ordered lexicographically by `(a, b)` with `a` as the outer
//! loop; the ordering has no soundness impact (the lookup argument is
//! set-membership), but it makes the setup deterministic and reproducible.
//!
//! `lemma_xor_table_characterization` pins down exactly which triples the
//! table contains: the lookup argument therefore enforces at once that the
//! result is the bitwise XOR of the operands and that both operands lie in
//! `[0, 2^BITS)`.

use vstd::prelude::*;
use vstd::arithmetic::div_mod::{
    lemma_fundamental_div_mod, lemma_fundamental_div_mod_converse, lemma_mod_pos_bound,
};
use crate::backend::{Backend, TableColumnId};

verus! {

/// One row of the XOR lookup table, as the integer values its three fixed
/// cells encode.
#[derive(Clone, Copy, Debug, PartialEq, Eq, Structural)]
pub struct XorRow {
    pub left: u64,
    pub right: u64,
    pub result: u64,
}

/// How many distinct operand values a bit-width admits.
pub open spec fn operand_count(bits: usize) -> int {
    (1u64 << bits) as int
}

/// The row standing at position `k` of the table: lexicographic order by
/// `(left, right)` with `left` as the outer loop.
pub open spec fn xor_table_row(bits: usize, k: int) -> XorRow {
    let sz = operand_count(bits);
    XorRow {
        left: (k / sz) as u64,
        right: (k % sz) as u64,
        result: ((k / sz) as u64) ^ ((k % sz) as u64),
    }
}

/// A fully and correctly loaded table for the given bit-width.
pub open spec fn xor_table_ok(bits: usize, rows: Seq<XorRow>) -> bool {
    &&& rows.len() == operand_count(bits) * operand_count(bits)
    &&& forall|k: int| 0 <= k < rows.len() ==> rows[k] == xor_table_row(bits, k)
}

/// Whether some row of the table holds the triple `(l, r, x)`: the relation
/// the lookup argument enforces on an active row.
pub open spec fn table_contains(rows: Seq<XorRow>, l: u64, r: u64, x: u64) -> bool {
    exists|k: int|
        0 <= k < rows.len() && rows[k].left == l && rows[k].right == r && rows[k].result == x
}

/// The table contains exactly the triples `(l, r, l ^ r)` with both operands
/// in range: the two directions are the completeness and the soundness of
/// the lookup.
pub proof fn lemma_xor_table_characterization(bits: usize, rows: Seq<XorRow>)
    requires
        bits <= 15,
        xor_table_ok(bits, rows),
    ensures
        forall|l: u64, r: u64, x: u64|
            table_contains(rows, l, r, x) <==> (l < (1u64 << bits) && r < (1u64 << bits) && x == (
            l ^ r)),
{
    let sz = operand_count(bits);
    assert(1u64 << bits >= 1) by (bit_vector)
        requires
            bits <= 15,
    ;
    assert forall|l: u64, r: u64, x: u64|
        table_contains(rows, l, r, x) <==> (l < (1u64 << bits) && r < (1u64 << bits) && x == (l
            ^ r)) by {
        if table_contains(rows, l, r, x) {
            let k = choose|k: int|
                0 <= k < rows.len() && rows[k].left == l && rows[k].right == r && rows[k].result
                    == x;
            lemma_fundamental_div_mod(k, sz);
            lemma_mod_pos_bound(k, sz);
            assert(k / sz < sz) by (nonlinear_arith)
                requires
                    k == sz * (k / sz) + k % sz,
                    0 <= k % sz < sz,
                    k < sz * sz,
                    sz > 0,
            ;
            assert(k / sz >= 0) by (nonlinear_arith)
                requires
                    k == sz * (k / sz) + k % sz,
                    0 <= k % sz,
                    k >= 0,
                    sz > 0,
            ;
            assert(rows[k] == xor_table_row(bits, k));
        }
        if l < (1u64 << bits) && r < (1u64 << bits) && x == (l ^ r) {
            let k = (l as int) * sz + (r as int);
            assert(0 <= k && k < sz * sz) by (nonlinear_arith)
                requires
                    0 <= (l as int) && (l as int) < sz,
                    0 <= (r as int) && (r as int) < sz,
                    k == (l as int) * sz + (r as int),
            ;
            lemma_fundamental_div_mod_converse(k, sz, l as int, r as int);
            assert(rows[k] == xor_table_row(bits, k));
            assert(rows[k].left == l && rows[k].right == r && rows[k].result == x);
        }
    }
}

/// Lookup soundness for the range restriction: a triple with either operand
/// outside `[0, 2^BITS)` is in no row of the table, so a row that activates
/// the lookup with such an operand can never be satisfied.
pub proof fn lemma_xor_lookup_rejects_out_of_range(
    bits: usize,
    rows: Seq<XorRow>,
    l: u64,
    r: u64,
    x: u64,
)
    requires
        bits <= 15,
        xor_table_ok(bits, rows),
        l >= (1u64 << bits) || r >= (1u64 << bits),
    ensures
        !table_contains(rows, l, r, x),
{
    lemma_xor_table_characterization(bits, rows);
}

/// Lookup completeness: for in-range operands the table does contain the
/// triple with their XOR as its result, so the honest witness always has a
/// row to match.
pub proof fn lemma_xor_lookup_complete(bits: usize, rows: Seq<XorRow>, l: u64, r: u64)
    requires
        bits <= 15,
        xor_table_ok(bits, rows),
        l < (1u64 << bits),
        r < (1u64 << bits),
    ensures
        table_contains(rows, l, r, l ^ r),
{
    lemma_xor_table_characterization(bits, rows);
}

/// Lookup soundness for the result: any triple the table contains has the
/// bitwise XOR of its in-range operands as its result, so a declared result
/// other than `l ^ r` makes the lookup unsatisfiable.
pub proof fn lemma_xor_lookup_sound(bits: usize, rows: Seq<XorRow>, l: u64, r: u64, x: u64)
    requires
        bits <= 15,
        xor_table_ok(bits, rows),
        table_contains(rows, l, r, x),
    ensures
        l < (1u64 << bits),
        r < (1u64 << bits),
        x == (l ^ r),
{
    lemma_xor_table_characterization(bits, rows);
}

/// The three fixed columns the XOR table occupies, together with the
/// bit-width the table is built for: a configuration only ever looks up the
/// table of its own width.
#[derive(Clone, Copy, Debug, PartialEq, Eq, Structural)]
pub struct XorTableConfig {
    pub bits: usize,
    pub left: TableColumnId,
    pub right: TableColumnId,
    pub result: TableColumnId,
}

impl XorTableConfig {
    /// Allocate the table's three fixed columns from the backend.
    pub fn configure(meta: &mut Backend, bits: usize) -> (r: Self)
        requires
            old(meta).next_table + 3 <= u64::MAX,
        ensures
            r.bits == bits,
            r.left.index == old(meta).next_table,
            r.right.index == old(meta).next_table + 1,
            r.result.index == old(meta).next_table + 2,
            final(meta).next_table == old(meta).next_table + 3,
            final(meta).next_selector == old(meta).next_selector,
            final(meta).next_advice == old(meta).next_advice,
            final(meta).equality@ == old(meta).equality@,
    {
        let left = meta.lookup_table_column();
        let right = meta.lookup_table_column();
        let result = meta.lookup_table_column();
        XorTableConfig { bits, left, right, result }
    }

    /// Build every row of the table: all `2^bits * 2^bits` ordered operand
    /// pairs with their XOR, in lexicographic order. Loaded once per circuit
    /// configuration; the backend copies the rows into the fixed columns and
    /// never mutates them afterwards.
    pub fn load(&self) -> (rows: Vec<XorRow>)
        requires
            self.bits <= 15,
        ensures
            xor_table_ok(self.bits, rows@),
    {
        let bits: usize = self.bits;
        proof {
            assert(1u64 << bits >= 1 && (1u64 << bits) <= 0x8000) by (bit_vector)
                requires
                    bits <= 15,
            ;
        }
        let sz: u64 = 1u64 << bits;
        let mut rows: Vec<XorRow> = Vec::new();
        let mut left_value: u64 = 0;
        while left_value < sz
            invariant
                sz == 1u64 << bits,
                1 <= sz <= 0x8000,
                bits <= 15,
                left_value <= sz,
                rows@.len() == (left_value as int) * (sz as int),
                forall|k: int| 0 <= k < rows@.len() ==> rows@[k] == xor_table_row(bits, k),
            decreases sz - left_value,
    {
            let mut right_value: u64 = 0;
            proof {
                assert((left_value as int) * (sz as int) + (sz as int) == ((left_value as int) + 1)
                    * (sz as int)) by (nonlinear_arith);
                assert((left_value as int) * (sz as int) <= 0x8000 * 0x8000) by (nonlinear_arith)
                    requires
                        0 <= left_value as int <= sz as int,
                        0 <= sz as int <= 0x8000,
                ;
            }
            while right_value < sz
                invariant
                    sz == 1u64 << bits,
                    1 <= sz <= 0x8000,
                    bits <= 15,
                    left_value < sz,
                    right_value <= sz,
                    rows@.len() == (left_value as int) * (sz as int) + (right_value as int),
                    forall|k: int| 0 <= k < rows@.len() ==> rows@[k] == xor_table_row(bits, k),
                decreases sz - right_value,
            {
                let result = left_value ^ right_value;
                proof {
                    let k = (left_value as int) * (sz as int) + (right_value as int);
                    lemma_fundamental_div_mod_converse(
                        k,
                        sz as int,
                        left_value as int,
                        right_value as int,
                    );
                    assert(xor_table_row(bits, k).left == left_value);
                    assert(xor_table_row(bits, k).right == right_value);
                    assert(xor_table_row(bits, k).result == result);
                }
                rows.push(XorRow { left: left_value, right: right_value, result });
                right_value = right_value + 1;
            }
            left_value = left_value + 1;
        }
        rows
    }
}

} // verus!
