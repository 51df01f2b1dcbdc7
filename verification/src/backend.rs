//! A deterministic model of the arithmetization backend's configuration
//! phase: allocation of advice columns, fixed lookup-table columns and
//! selectors, and the record of which columns have equality (copy)
//! constraints enabled.
//!
//! The real backend owns column storage, gate registration and the lookup
//! argument; the gadgets only ever ask it for fresh handles and for equality
//! enabling. Those requests are modelled here as counters, so that a gadget's
//! configuration is a pure function of the backend state it starts from.

use vstd::prelude::*;
use crate::field::{fe_wf, Fe};

verus! {

/// Handle to an advice (witness) column.
#[derive(Clone, Copy, Debug, PartialEq, Eq, Structural)]
pub struct ColumnId {
    pub index: u64,
}

/// Handle to a fixed lookup-table column.
#[derive(Clone, Copy, Debug, PartialEq, Eq, Structural)]
pub struct TableColumnId {
    pub index: u64,
}

/// Handle to a per-row selector.
#[derive(Clone, Copy, Debug, PartialEq, Eq, Structural)]
pub struct SelectorId {
    pub index: u64,
}

/// A cell assigned during synthesis: the model keeps the value it was
/// given; the backend binds it to a concrete (column, row) position and
/// carries any copy constraints the caller establishes on it.
pub struct AssignedCell {
    pub value: Fe,
}

/// A cell is well-formed when its value is a canonical field element.
pub open spec fn cell_wf(c: AssignedCell) -> bool {
    fe_wf(c.value)
}

/// The configuration-time state of the backend: how many handles of each
/// kind have been given out, and which advice columns allow copy
/// constraints.
pub struct Backend {
    pub next_selector: u64,
    pub next_advice: u64,
    pub next_table: u64,
    pub equality: Vec<u64>,
}

/// Whether copy constraints are enabled for advice column `c`.
pub open spec fn equality_enabled(b: Backend, c: ColumnId) -> bool {
    b.equality@.contains(c.index)
}

impl Backend {
    /// A fresh backend: nothing allocated, no equality enabled.
    pub fn new() -> (r: Backend)
        ensures
            r.next_selector == 0,
            r.next_advice == 0,
            r.next_table == 0,
            r.equality@ =~= Seq::<u64>::empty(),
    {
        Backend { next_selector: 0, next_advice: 0, next_table: 0, equality: Vec::new() }
    }

    /// Allocate a fresh simple selector.
    pub fn selector(&mut self) -> (r: SelectorId)
        requires
            old(self).next_selector < u64::MAX,
        ensures
            r.index == old(self).next_selector,
            final(self).next_selector == old(self).next_selector + 1,
            final(self).next_advice == old(self).next_advice,
            final(self).next_table == old(self).next_table,
            final(self).equality@ == old(self).equality@,
    {
        let r = SelectorId { index: self.next_selector };
        self.next_selector = self.next_selector + 1;
        r
    }

    /// Allocate a fresh complex selector (one that may guard a lookup). The
    /// model draws it from the same counter as `selector`; only the backend
    /// treats the two kinds differently.
    pub fn complex_selector(&mut self) -> (r: SelectorId)
        requires
            old(self).next_selector < u64::MAX,
        ensures
            r.index == old(self).next_selector,
            final(self).next_selector == old(self).next_selector + 1,
            final(self).next_advice == old(self).next_advice,
            final(self).next_table == old(self).next_table,
            final(self).equality@ == old(self).equality@,
    {
        self.selector()
    }

    /// Allocate a fresh advice column.
    pub fn advice_column(&mut self) -> (r: ColumnId)
        requires
            old(self).next_advice < u64::MAX,
        ensures
            r.index == old(self).next_advice,
            final(self).next_advice == old(self).next_advice + 1,
            final(self).next_selector == old(self).next_selector,
            final(self).next_table == old(self).next_table,
            final(self).equality@ == old(self).equality@,
    {
        let r = ColumnId { index: self.next_advice };
        self.next_advice = self.next_advice + 1;
        r
    }

    /// Allocate a fresh lookup-table column.
    pub fn lookup_table_column(&mut self) -> (r: TableColumnId)
        requires
            old(self).next_table < u64::MAX,
        ensures
            r.index == old(self).next_table,
            final(self).next_table == old(self).next_table + 1,
            final(self).next_selector == old(self).next_selector,
            final(self).next_advice == old(self).next_advice,
            final(self).equality@ == old(self).equality@,
    {
        let r = TableColumnId { index: self.next_table };
        self.next_table = self.next_table + 1;
        r
    }

    /// Enable copy constraints on an advice column. Immutable thereafter:
    /// nothing ever removes an entry.
    pub fn enable_equality(&mut self, c: ColumnId)
        ensures
            final(self).equality@ == old(self).equality@.push(c.index),
            equality_enabled(*final(self), c),
            forall|d: ColumnId|
                equality_enabled(*old(self), d) ==> equality_enabled(*final(self), d),
            final(self).next_selector == old(self).next_selector,
            final(self).next_advice == old(self).next_advice,
            final(self).next_table == old(self).next_table,
    {
        self.equality.push(c.index);
        proof {
            assert(self.equality@[self.equality@.len() - 1] == c.index);
            assert forall|d: ColumnId| equality_enabled(*old(self), d) implies equality_enabled(
                *self,
                d,
            ) by {
                let i = choose|i: int|
                    0 <= i < old(self).equality@.len() && old(self).equality@[i] == d.index;
                assert(self.equality@[i] == d.index);
            }
        }
    }
}

} // verus!
