//! The is-zero gadget: a gate that forces a result cell to `1` exactly when
//! a value cell holds the field's additive identity, and to `0` otherwise,
//! together with the witness-assignment protocol that satisfies it.
//!
//! Its gate consists of three polynomial identities over a value `v`, its
//! claimed inverse `v_inv` and a result `r`, each required to vanish modulo
//! the field order on every row where the gadget's selector is active:
//!
//! 1. `r * (r - 1) = 0` — `r` is boolean.
//! 2. `(1 - r) * (v * v_inv - 1) + r * (v - v_inv) = 0` — `v_inv` is checked.
//! 3. `v * r = 0` — `r = 1` forces `v = 0`.
//!
//! `lemma_is_zero_complete` shows the honest witness (with the zero-inverse
//! convention `v_inv = 0` at `v = 0`) satisfies all three, and
//! `lemma_is_zero_sound` shows no other result does, given the defining
//! property of a field that nonzero values are invertible.

use vstd::prelude::*;
use vstd::arithmetic::div_mod::{
    lemma_add_mod_noop, lemma_fundamental_div_mod_converse, lemma_mul_mod_noop_general,
    lemma_sub_mod_noop, lemma_sub_mod_noop_right,
};
use crate::backend::{AssignedCell, Backend, ColumnId, SelectorId};
use crate::field::{
    congruent, fe_add, fe_invert_or_zero, fe_mul, fe_sub, fe_val, fe_wf, lemma_cong_add,
    lemma_cong_canon, lemma_cong_mul, lemma_cong_small, modulus, Fe,
};

verus! {

/// The boolean constraint of the is-zero gate: `r * (r - 1)`.
pub open spec fn gate_booleanity(r: int) -> int {
    r * (r - 1)
}

/// The inverse-check constraint of the is-zero gate:
/// `(1 - r) * (v * v_inv - 1) + r * (v - v_inv)`.
pub open spec fn gate_inverse_check(v: int, vinv: int, r: int) -> int {
    (1 - r) * (v * vinv - 1) + r * (v - vinv)
}

/// The zero-product constraint of the is-zero gate: `v * r`.
pub open spec fn gate_zero_product(v: int, r: int) -> int {
    v * r
}

/// All three gate polynomials vanish modulo the field order: exactly what the
/// backend enforces on a row where the gadget's selector is active.
pub open spec fn is_zero_gate_holds(v: int, vinv: int, r: int) -> bool {
    &&& gate_booleanity(r) % modulus() == 0
    &&& gate_inverse_check(v, vinv, r) % modulus() == 0
    &&& gate_zero_product(v, r) % modulus() == 0
}

/// The intended meaning of the result cell: `1` at the additive identity,
/// `0` everywhere else.
pub open spec fn iz_indicator(v: int) -> int {
    if v == 0 {
        1
    } else {
        0
    }
}

/// The zero-inverse convention for the witness: the true multiplicative
/// inverse for nonzero values, and zero at zero. Load-bearing for
/// completeness of the is-zero gate.
pub open spec fn inverse_convention(v: int, vinv: int) -> bool {
    if v == 0 {
        vinv == 0
    } else {
        (v * vinv) % modulus() == 1
    }
}

/// Completeness of the is-zero gate: the honest witness — any `v_inv`
/// obeying the zero-inverse convention, and the result computed as
/// `1 - v * v_inv` — satisfies all three constraints, and that result is
/// exactly the zero indicator of `v`.
pub proof fn lemma_is_zero_complete(v: int, vinv: int)
    requires
        0 <= v < modulus(),
        0 <= vinv < modulus(),
        inverse_convention(v, vinv),
    ensures
        is_zero_gate_holds(v, vinv, iz_indicator(v)),
        (1 - v * vinv) % modulus() == iz_indicator(v),
{
    let m = modulus();
    lemma_cong_small(0);
    lemma_cong_small(1);
    if v == 0 {
        assert(gate_booleanity(1) == 0);
        assert(gate_inverse_check(0, 0, 1) == 0);
        assert(gate_zero_product(0, 1) == 0);
        assert(v * vinv == 0) by (nonlinear_arith)
            requires
                v == 0,
        ;
    } else {
        let q = v * vinv;
        assert(gate_booleanity(0) == 0);
        assert((1 - 0) * (v * vinv - 1) + 0 * (v - vinv) == v * vinv - 1) by (nonlinear_arith);
        assert(gate_inverse_check(v, vinv, 0) == q - 1);
        assert(gate_zero_product(v, 0) == 0) by (nonlinear_arith);
        lemma_sub_mod_noop(q, 1, m);
        assert((q - 1) % m == 0);
        lemma_sub_mod_noop(1, q, m);
        assert((1 - q) % m == 0);
    }
}

/// Soundness of the is-zero gate: any result `r` that satisfies the three
/// constraints together with some claimed inverse `vinv` is the zero
/// indicator of `v`. The parameter `w` carries the defining property of a
/// field — every nonzero element has a multiplicative inverse — which the
/// modular model cannot produce by itself.
pub proof fn lemma_is_zero_sound(v: int, vinv: int, r: int, w: int)
    requires
        0 <= v < modulus(),
        0 <= r < modulus(),
        is_zero_gate_holds(v, vinv, r),
        v != 0 ==> (v * w) % modulus() == 1,
    ensures
        r == iz_indicator(v),
{
    let m = modulus();
    lemma_cong_small(0);
    lemma_cong_small(1);
    if v != 0 {
        // r == 1*r ~ (v*w)*r == w*(v*r) ~ w*0 == 0, so r is congruent to 0.
        assert(congruent(1, v * w));
        lemma_cong_mul(1, v * w, r, r);
        assert(1 * r == r) by (nonlinear_arith);
        assert((v * w) * r == w * (v * r)) by (nonlinear_arith);
        assert(congruent(gate_zero_product(v, r), 0));
        lemma_cong_mul(w, w, v * r, 0);
        assert(w * 0 == 0) by (nonlinear_arith);
        assert(congruent(r, 0));
        lemma_cong_canon(r, 0);
    } else {
        // Constraint 2 at v == 0 reads r - 1 - r*vinv ~ 0, so r*(1 - vinv) ~ 1:
        // r has an inverse, and with constraint 1 that forces r == 1.
        let q = gate_inverse_check(0, vinv, r);
        assert((1 - r) * (0 * vinv - 1) + r * (0 - vinv) == r - 1 - r * vinv) by (
        nonlinear_arith);
        assert(q == r - 1 - r * vinv);
        assert(congruent(q, 0));
        lemma_cong_add(q, 0, 1, 1);
        assert(r * (1 - vinv) == (r - 1 - r * vinv) + 1) by (nonlinear_arith);
        assert(r * (1 - vinv) == q + 1);
        assert(congruent(r * (1 - vinv), 1));
        assert(congruent(gate_booleanity(r), 0));
        lemma_cong_mul(1 - vinv, 1 - vinv, r * (r - 1), 0);
        assert((1 - vinv) * (r * (r - 1)) == (r * (1 - vinv)) * (r - 1)) by (nonlinear_arith);
        assert((1 - vinv) * 0 == 0) by (nonlinear_arith);
        lemma_cong_mul(r * (1 - vinv), 1, r - 1, r - 1);
        assert(1 * (r - 1) == r - 1) by (nonlinear_arith);
        assert(congruent(r - 1, 0));
        if r == 0 {
            lemma_fundamental_div_mod_converse(-1, m, -1, m - 1);
            assert((r - 1) % m == m - 1);
        } else {
            lemma_cong_canon(r - 1, 0);
        }
    }
}

/// Binding the result to a mismatched value makes the row unsatisfiable: for
/// a public result `y` other than the zero indicator of `v`, no claimed
/// inverse whatsoever satisfies its constraints. As in `lemma_is_zero_sound`, `w`
/// carries the invertibility of nonzero field values.
pub proof fn lemma_is_zero_unsat(v: int, y: int, w: int)
    requires
        0 <= v < modulus(),
        0 <= y < modulus(),
        y != iz_indicator(v),
        v != 0 ==> (v * w) % modulus() == 1,
    ensures
        forall|vinv: int| !is_zero_gate_holds(v, vinv, y),
{
    assert forall|vinv: int| !is_zero_gate_holds(v, vinv, y) by {
        if is_zero_gate_holds(v, vinv, y) {
            lemma_is_zero_sound(v, vinv, y, w);
        }
    }
}

/// The zero-inverse convention determines the inverse witness uniquely, so
/// re-running witness assignment on the same value always produces the same
/// cells.
pub proof fn lemma_inverse_unique(v: int, w1: int, w2: int)
    requires
        0 <= v < modulus(),
        0 <= w1 < modulus(),
        0 <= w2 < modulus(),
        inverse_convention(v, w1),
        inverse_convention(v, w2),
    ensures
        w1 == w2,
{
    if v != 0 {
        lemma_cong_small(1);
        lemma_cong_mul(w1, w1, v * w2, 1);
        lemma_cong_mul(w2, w2, v * w1, 1);
        assert(w1 * (v * w2) == w2 * (v * w1)) by (nonlinear_arith);
        assert(w1 * 1 == w1 && w2 * 1 == w2) by (nonlinear_arith);
        lemma_cong_canon(w1, w2);
    }
}

/// The configuration of the is-zero gadget: the three advice columns the
/// consumer supplied and the selector guarding its constraints.
#[derive(Clone, Copy, Debug, PartialEq, Eq, Structural)]
pub struct IsZeroConfig {
    pub value: ColumnId,
    pub value_inverse: ColumnId,
    pub result: ColumnId,
    pub selector: SelectorId,
}

/// The is-zero gadget, holding its configuration.
#[derive(Clone, Copy, Debug, PartialEq, Eq, Structural)]
pub struct IsZeroChip {
    pub is_zero_config: IsZeroConfig,
}

/// The configuration `configure` produces from a given backend state: a pure
/// function of that state, which is what makes configuration deterministic.
pub open spec fn is_zero_configure_result(
    meta: Backend,
    value: ColumnId,
    value_inverse: ColumnId,
    result: ColumnId,
) -> IsZeroConfig {
    IsZeroConfig {
        value,
        value_inverse,
        result,
        selector: SelectorId { index: meta.next_selector },
    }
}

/// Configuring twice with identical parameters over identical backend states
/// registers structurally identical constraints: the configurations are
/// equal, and the constraints' semantics (`is_zero_gate_holds`) does not depend on
/// the backend state at all.
pub proof fn lemma_is_zero_configure_deterministic(
    m1: Backend,
    m2: Backend,
    value: ColumnId,
    value_inverse: ColumnId,
    result: ColumnId,
)
    requires
        m1.next_selector == m2.next_selector,
    ensures
        is_zero_configure_result(m1, value, value_inverse, result) == is_zero_configure_result(
            m2,
            value,
            value_inverse,
            result,
        ),
{
}

/// The pair of cells `load_value` assigns: the value itself and its inverse
/// witness under the zero-inverse convention.
pub struct ValueIZ(pub AssignedCell, pub AssignedCell);

/// Both cells of a loaded pair are well-formed.
pub open spec fn value_iz_wf(v: ValueIZ) -> bool {
    fe_wf(v.0.value) && fe_wf(v.1.value)
}

impl IsZeroChip {
    /// Wrap a configuration in a gadget instance.
    pub fn construct(config: IsZeroConfig) -> (r: Self)
        ensures
            r.is_zero_config == config,
    {
        IsZeroChip { is_zero_config: config }
    }

    /// The gadget's configuration.
    pub fn config(&self) -> (r: &IsZeroConfig)
        ensures
            *r == self.is_zero_config,
    {
        &self.is_zero_config
    }

    /// Register the is-zero gate over three consumer-supplied advice columns:
    /// allocate a fresh selector and tie its three polynomials — the ones
    /// `is_zero_gate_holds` states — to it. The backend enforces them on
    /// every row where the selector is active.
    pub fn configure(
        meta: &mut Backend,
        value: ColumnId,
        value_inverse: ColumnId,
        result: ColumnId,
    ) -> (r: IsZeroConfig)
        requires
            old(meta).next_selector < u64::MAX,
        ensures
            r == is_zero_configure_result(*old(meta), value, value_inverse, result),
            final(meta).next_selector == old(meta).next_selector + 1,
            final(meta).next_advice == old(meta).next_advice,
            final(meta).next_table == old(meta).next_table,
            final(meta).equality@ == old(meta).equality@,
    {
        let selector = meta.selector();
        IsZeroConfig { value, value_inverse, result, selector }
    }

    /// Assign a value and its inverse witness into fresh cells, using the
    /// zero-inverse convention: the field inverse for nonzero values, zero
    /// for the additive identity.
    pub fn load_value(&self, value: Fe) -> (r: ValueIZ)
        requires
            fe_wf(value),
        ensures
            value_iz_wf(r),
            r.0.value == value,
            inverse_convention(fe_val(r.0.value), fe_val(r.1.value)),
    {
        let inverse = fe_invert_or_zero(&value);
        ValueIZ(AssignedCell { value }, AssignedCell { value: inverse })
    }

    /// Activate the selector on a fresh row, copy the two loaded cells into the
    /// gate's columns, and assign the result witness `1 - v * v_inv`. When
    /// the cells obey the zero-inverse convention — as the ones `load_value`
    /// produces always do — the result is the zero indicator of the value,
    /// and all three constraints hold of the assigned row.
    pub fn is_zero(&self, value: ValueIZ) -> (r: AssignedCell)
        requires
            value_iz_wf(value),
        ensures
            fe_wf(r.value),
            fe_val(r.value) == (1 - fe_val(value.0.value) * fe_val(value.1.value)) % modulus(),
            inverse_convention(fe_val(value.0.value), fe_val(value.1.value)) ==> {
                &&& fe_val(r.value) == iz_indicator(fe_val(value.0.value))
                &&& is_zero_gate_holds(
                    fe_val(value.0.value),
                    fe_val(value.1.value),
                    fe_val(r.value),
                )
            },
    {
        let ghost v = fe_val(value.0.value);
        let ghost vinv = fe_val(value.1.value);
        let one = Fe::one();
        let product = fe_mul(&value.0.value, &value.1.value);
        let result = fe_sub(&one, &product);
        proof {
            lemma_sub_mod_noop_right(1, v * vinv, modulus());
            if inverse_convention(v, vinv) {
                lemma_is_zero_complete(v, vinv);
            }
        }
        AssignedCell { value: result }
    }
}

/// Evaluate the three is-zero gate polynomials on one row of witness values,
/// exactly as the backend's verifier would, and accept only a row that
/// satisfies all of them — which, by soundness, pins the result cell to the
/// zero indicator of the value cell.
pub fn check_is_zero_row(v: &Fe, vinv: &Fe, r: &Fe) -> (ok: bool)
    requires
        fe_wf(*v),
        fe_wf(*vinv),
        fe_wf(*r),
    ensures
        ok <==> is_zero_gate_holds(fe_val(*v), fe_val(*vinv), fe_val(*r)),
        ok ==> fe_val(*r) == iz_indicator(fe_val(*v)),
{
    let ghost m = modulus();
    let ghost fv = fe_val(*v);
    let ghost fvi = fe_val(*vinv);
    let ghost fr = fe_val(*r);
    let one = Fe::one();
    let g1 = fe_mul(r, &fe_sub(r, &one));
    let t1 = fe_mul(&fe_sub(&one, r), &fe_sub(&fe_mul(v, vinv), &one));
    let t2 = fe_mul(r, &fe_sub(v, vinv));
    let g2 = fe_add(&t1, &t2);
    let g3 = fe_mul(v, r);
    let witness = fe_invert_or_zero(v);
    proof {
        lemma_mul_mod_noop_general(fr, fr - 1, m);
        assert(fe_val(g1) == gate_booleanity(fr) % m);
        lemma_sub_mod_noop(fv * fvi, 1, m);
        lemma_cong_small(1);
        lemma_mul_mod_noop_general(1 - fr, fv * fvi - 1, m);
        assert(fe_val(t1) == ((1 - fr) * (fv * fvi - 1)) % m);
        lemma_mul_mod_noop_general(fr, fv - fvi, m);
        assert(fe_val(t2) == (fr * (fv - fvi)) % m);
        lemma_add_mod_noop((1 - fr) * (fv * fvi - 1), fr * (fv - fvi), m);
        assert(fe_val(g2) == gate_inverse_check(fv, fvi, fr) % m);
        assert(fe_val(g3) == gate_zero_product(fv, fr) % m);
    }
    let ok = g1.is_zero_value() && g2.is_zero_value() && g3.is_zero_value();
    proof {
        if ok {
            lemma_is_zero_sound(fv, fvi, fr, fe_val(witness));
        }
    }
    ok
}

} // verus!
