use vstd::prelude::*;

use crate::field::{MODULUS};

verus! {

/// The two gate kinds this model supports.
#[derive(Clone, Copy, Debug, PartialEq, Eq, Structural)]
pub enum GateKind {
    AddGate,
    MulGate,
}

/// A gate: a polynomial identity over the cells of one advice column at row
/// offsets 0, 1 and 2, activated only on rows where its selector is enabled.
#[derive(Clone, Copy, Debug, PartialEq, Eq, Structural)]
pub struct Gate {
    pub selector: usize,
    pub advice: usize,
    pub kind: GateKind,
}

/// The polynomial a gate attaches to its rows, before the selector is
/// applied: the constraint expression over the canonical representatives at
/// offsets 0, 1 and 2 of its advice column, reduced into the field.
pub open spec fn residual(kind: GateKind, l: int, r: int, o: int) -> int {
    match kind {
        GateKind::AddGate => (l + r - o) % (MODULUS as int),
        GateKind::MulGate => (l * r - o) % (MODULUS as int),
    }
}

/// The full gate polynomial: the constraint expression multiplied by the
/// selector value, so that a disabled row imposes nothing.
pub open spec fn gate_term(sel: int, kind: GateKind, l: int, r: int, o: int) -> int {
    (sel * residual(kind, l, r, o)) % (MODULUS as int)
}

/// A gate identity holds of three cell values: the constraint
/// expression vanishes in the field.
pub open spec fn identity_holds(kind: GateKind, l: int, r: int, o: int) -> bool {
    residual(kind, l, r, o) == 0
}

/// The constraint-system declaration built once during configuration,
/// before any witness exists: how many columns and selectors were handed
/// out, which gates were created, and which columns allow equality
/// constraints.  Immutable once synthesis begins.
#[derive(Clone, Debug, PartialEq, Eq)]
pub struct ConstraintSystem {
    /// Advice columns handed out so far.
    pub n_advice: usize,
    /// Instance columns handed out so far.
    pub n_instance: usize,
    /// Selectors handed out so far.
    pub n_selectors: usize,
    /// The gates, in order of creation.
    pub gates: Vec<Gate>,
    /// Advice columns on which equality constraints are allowed.
    pub eq_advice: Vec<usize>,
    /// Instance columns on which equality constraints are allowed.
    pub eq_instance: Vec<usize>,
}

impl ConstraintSystem {
    /// Creates an empty constraint system.
    pub fn new() -> (r: ConstraintSystem)
        ensures
            r.n_advice == 0,
            r.n_instance == 0,
            r.n_selectors == 0,
            r.gates@ == Seq::<Gate>::empty(),
            r.eq_advice@ == Seq::<usize>::empty(),
            r.eq_instance@ == Seq::<usize>::empty(),
    {
        ConstraintSystem {
            n_advice: 0,
            n_instance: 0,
            n_selectors: 0,
            gates: Vec::new(),
            eq_advice: Vec::new(),
            eq_instance: Vec::new(),
        }
    }

    /// Hands out a fresh advice column.
    pub fn advice_column(&mut self) -> (r: usize)
        requires
            old(self).n_advice < usize::MAX,
        ensures
            r == old(self).n_advice,
            final(self).n_advice == old(self).n_advice + 1,
            final(self).n_instance == old(self).n_instance,
            final(self).n_selectors == old(self).n_selectors,
            final(self).gates@ == old(self).gates@,
            final(self).eq_advice@ == old(self).eq_advice@,
            final(self).eq_instance@ == old(self).eq_instance@,
    {
        let r = self.n_advice;
        self.n_advice = self.n_advice + 1;
        r
    }

    /// Hands out a fresh instance column.
    pub fn instance_column(&mut self) -> (r: usize)
        requires
            old(self).n_instance < usize::MAX,
        ensures
            r == old(self).n_instance,
            final(self).n_instance == old(self).n_instance + 1,
            final(self).n_advice == old(self).n_advice,
            final(self).n_selectors == old(self).n_selectors,
            final(self).gates@ == old(self).gates@,
            final(self).eq_advice@ == old(self).eq_advice@,
            final(self).eq_instance@ == old(self).eq_instance@,
    {
        let r = self.n_instance;
        self.n_instance = self.n_instance + 1;
        r
    }

    /// Hands out a fresh selector.
    pub fn selector(&mut self) -> (r: usize)
        requires
            old(self).n_selectors < usize::MAX,
        ensures
            r == old(self).n_selectors,
            final(self).n_selectors == old(self).n_selectors + 1,
            final(self).n_advice == old(self).n_advice,
            final(self).n_instance == old(self).n_instance,
            final(self).gates@ == old(self).gates@,
            final(self).eq_advice@ == old(self).eq_advice@,
            final(self).eq_instance@ == old(self).eq_instance@,
    {
        let r = self.n_selectors;
        self.n_selectors = self.n_selectors + 1;
        r
    }

    /// Allows equality constraints on an advice column.
    pub fn enable_equality(&mut self, col: usize)
        ensures
            final(self).eq_advice@ == old(self).eq_advice@.push(col),
            final(self).n_advice == old(self).n_advice,
            final(self).n_instance == old(self).n_instance,
            final(self).n_selectors == old(self).n_selectors,
            final(self).gates@ == old(self).gates@,
            final(self).eq_instance@ == old(self).eq_instance@,
    {
        self.eq_advice.push(col);
    }

    /// Allows equality constraints on an instance column.
    pub fn enable_equality_instance(&mut self, col: usize)
        ensures
            final(self).eq_instance@ == old(self).eq_instance@.push(col),
            final(self).n_advice == old(self).n_advice,
            final(self).n_instance == old(self).n_instance,
            final(self).n_selectors == old(self).n_selectors,
            final(self).gates@ == old(self).gates@,
            final(self).eq_advice@ == old(self).eq_advice@,
    {
        self.eq_instance.push(col);
    }

    /// Declares a gate: the given identity over the given advice column,
    /// activated by the given selector.
    pub fn create_gate(&mut self, kind: GateKind, selector: usize, advice: usize)
        ensures
            final(self).gates@ == old(self).gates@.push(Gate { selector, advice, kind }),
            final(self).n_advice == old(self).n_advice,
            final(self).n_instance == old(self).n_instance,
            final(self).n_selectors == old(self).n_selectors,
            final(self).eq_advice@ == old(self).eq_advice@,
            final(self).eq_instance@ == old(self).eq_instance@,
    {
        self.gates.push(Gate { selector, advice, kind });
    }
}

} // verus!
