use vstd::prelude::*;

use crate::checker::{gate_window_ok, is_enabled, lemma_identity_iff};
use crate::field::Value;
use crate::system::{ConstraintSystem, Gate, GateKind};
use crate::table::{
    lemma_cell_val_push, CellAssign, CellRef, CopyConstraint, Number, RegionName, SelEnable,
    SynthError, Table,
};

verus! {

/// Configuration of the add chip: its advice column and its selector,
/// fixed once at configuration time.
#[derive(Clone, Copy, Debug, PartialEq, Eq, Structural)]
pub struct AddConfig {
    pub advice: usize,
    pub s_add: usize,
}

/// The identity an add configuration declares, as a declared gate value.
pub open spec fn add_gate(c: AddConfig) -> Gate {
    Gate { selector: c.s_add, advice: c.advice, kind: GateKind::AddGate }
}

/// The three advice assignments one add region makes, starting at row `r0`
/// of the chip's advice column: a copy of each operand, then the fresh sum.
pub open spec fn add_region_cells(c: AddConfig, r0: usize, a: Value, b: Value) -> Seq<CellAssign> {
    seq![
        CellAssign { cell: CellRef { col: c.advice, row: r0 }, val: a },
        CellAssign { cell: CellRef { col: c.advice, row: (r0 + 1) as usize }, val: b },
        CellAssign { cell: CellRef { col: c.advice, row: (r0 + 2) as usize }, val: a.spec_add(b) },
    ]
}

/// The two copy constraints one add region creates: each operand cell is
/// bound to the wire it was copied from.
pub open spec fn add_region_copies(c: AddConfig, r0: usize, asrc: CellRef, bsrc: CellRef) -> Seq<
    CopyConstraint,
> {
    seq![
        CopyConstraint { left: asrc, right: CellRef { col: c.advice, row: r0 } },
        CopyConstraint { left: bsrc, right: CellRef { col: c.advice, row: (r0 + 1) as usize } },
    ]
}

/// A chip enforcing `lhs + rhs = out` over a 3-row region of one shared
/// advice column, gated by its own selector.
#[derive(Clone, Copy, Debug)]
pub struct AddChip {
    pub config: AddConfig,
}

impl AddChip {
    /// Builds the chip around an existing configuration.
    pub fn construct(config: AddConfig) -> (r: AddChip)
        ensures
            r.config == config,
    {
        AddChip { config }
    }

    /// The chip's configuration.
    pub fn config(&self) -> (r: AddConfig)
        ensures
            r == self.config,
    {
        self.config
    }

    /// Declares the add gate: enables equality on the shared advice column,
    /// takes a fresh selector, and attaches the identity
    /// `selector * (cur + next - offset2) = 0` to it.
    pub fn configure(cs: &mut ConstraintSystem, advice: usize) -> (r: AddConfig)
        requires
            old(cs).n_selectors < usize::MAX,
        ensures
            r.advice == advice,
            r.s_add == old(cs).n_selectors,
            final(cs).n_selectors == old(cs).n_selectors + 1,
            final(cs).gates@ == old(cs).gates@.push(add_gate(r)),
            final(cs).eq_advice@ == old(cs).eq_advice@.push(advice),
            final(cs).n_advice == old(cs).n_advice,
            final(cs).n_instance == old(cs).n_instance,
            final(cs).eq_instance@ == old(cs).eq_instance@,
    {
        cs.enable_equality(advice);
        let s_add = cs.selector();
        cs.create_gate(GateKind::AddGate, s_add, advice);
        AddConfig { advice, s_add }
    }

    /// Lays out one addition: opens a 3-row region, copies `a` into row 0
    /// and `b` into row 1, assigns the fresh sum into row 2, and enables the
    /// add selector on row 0.  Returns the output wire.  Fails with a layout
    /// error when the table has no room for the region, and with a
    /// constraint error when either input wire does not match its cell.
    pub fn add(&self, t: &mut Table, a: Number, b: Number) -> (r: Result<Number, SynthError>)
        requires
            old(t).wf(),
            a.value.valid(),
            b.value.valid(),
        ensures
            final(t).wf(),
            final(t).max_rows == old(t).max_rows,
            final(t).instance@ == old(t).instance@,
            r is Ok <==> (old(t).max_rows - old(t).rows >= 3 && old(t).wire_ok(a) && old(
                t,
            ).wire_ok(b)),
            r matches Err(e) ==> *final(t) == *old(t) && e == (if old(t).max_rows - old(t).rows
                < 3 {
                SynthError::Layout(RegionName::AddRegion)
            } else {
                SynthError::Constraint(RegionName::AddRegion)
            }),
            r matches Ok(w) ==> ({
                &&& final(t).rows == old(t).rows + 3
                &&& final(t).cells@ == old(t).cells@ + add_region_cells(
                    self.config,
                    old(t).rows,
                    a.value,
                    b.value,
                )
                &&& final(t).enabled@ == old(t).enabled@.push(
                    SelEnable { selector: self.config.s_add, row: old(t).rows },
                )
                &&& final(t).copies@ == old(t).copies@ + add_region_copies(
                    self.config,
                    old(t).rows,
                    a.cell,
                    b.cell,
                )
                &&& final(t).binds@ == old(t).binds@
                &&& w == (Number {
                    cell: CellRef { col: self.config.advice, row: (old(t).rows + 2) as usize },
                    value: a.value.spec_add(b.value),
                })
                &&& final(t).wire_ok(w)
                &&& final(t).spec_cell(a.cell.col as int, a.cell.row as int) == a.value
                &&& final(t).spec_cell(b.cell.col as int, b.cell.row as int) == b.value
                &&& final(t).spec_cell(self.config.advice as int, old(t).rows as int) == a.value
                &&& final(t).spec_cell(self.config.advice as int, old(t).rows + 1) == b.value
                &&& is_enabled(*final(t), self.config.s_add as int, old(t).rows as int)
                &&& (a.value is Known && b.value is Known ==> gate_window_ok(
                    *final(t),
                    add_gate(self.config),
                    old(t).rows as int,
                ))
            }),
    {
        if t.max_rows - t.rows < 3 {
            return Err(SynthError::Layout(RegionName::AddRegion));
        }
        let a_ok = a.cell.row < t.rows && t.lookup(a.cell) == a.value;
        let b_ok = b.cell.row < t.rows && t.lookup(b.cell) == b.value;
        if !a_ok || !b_ok {
            return Err(SynthError::Constraint(RegionName::AddRegion));
        }
        let r0 = t.rows;
        t.rows = r0 + 3;
        t.enabled.push(SelEnable { selector: self.config.s_add, row: r0 });
        t.copies.push(
            CopyConstraint { left: a.cell, right: CellRef { col: self.config.advice, row: r0 } },
        );
        t.cells.push(
            CellAssign { cell: CellRef { col: self.config.advice, row: r0 }, val: a.value },
        );
        t.copies.push(
            CopyConstraint {
                left: b.cell,
                right: CellRef { col: self.config.advice, row: r0 + 1 },
            },
        );
        t.cells.push(
            CellAssign { cell: CellRef { col: self.config.advice, row: r0 + 1 }, val: b.value },
        );
        let out = a.value.add(b.value);
        t.cells.push(
            CellAssign { cell: CellRef { col: self.config.advice, row: r0 + 2 }, val: out },
        );
        let w = Number { cell: CellRef { col: self.config.advice, row: r0 + 2 }, value: out };
        proof {
            let col: int = self.config.advice as int;
            let row0: int = r0 as int;
            let s0 = old(t).cells@;
            let x = CellAssign { cell: CellRef { col: self.config.advice, row: r0 }, val: a.value };
            let y = CellAssign {
                cell: CellRef { col: self.config.advice, row: (r0 + 1) as usize },
                val: b.value,
            };
            let z = CellAssign {
                cell: CellRef { col: self.config.advice, row: (r0 + 2) as usize },
                val: out,
            };
            assert(t.cells@ == s0.push(x).push(y).push(z));
            assert(t.cells@ =~= s0 + add_region_cells(self.config, r0, a.value, b.value));
            assert(t.copies@ =~= old(t).copies@ + add_region_copies(
                self.config,
                r0,
                a.cell,
                b.cell,
            ));
            // values of the three fresh cells
            lemma_cell_val_push(s0, x, col, row0);
            lemma_cell_val_push(s0.push(x), y, col, row0);
            lemma_cell_val_push(s0.push(x).push(y), z, col, row0);
            lemma_cell_val_push(s0, x, col, row0 + 1);
            lemma_cell_val_push(s0.push(x), y, col, row0 + 1);
            lemma_cell_val_push(s0.push(x).push(y), z, col, row0 + 1);
            lemma_cell_val_push(s0.push(x).push(y), z, col, row0 + 2);
            // the source cells keep their values: the fresh rows are new
            lemma_cell_val_push(s0, x, a.cell.col as int, a.cell.row as int);
            lemma_cell_val_push(s0.push(x), y, a.cell.col as int, a.cell.row as int);
            lemma_cell_val_push(s0.push(x).push(y), z, a.cell.col as int, a.cell.row as int);
            lemma_cell_val_push(s0, x, b.cell.col as int, b.cell.row as int);
            lemma_cell_val_push(s0.push(x), y, b.cell.col as int, b.cell.row as int);
            lemma_cell_val_push(s0.push(x).push(y), z, b.cell.col as int, b.cell.row as int);
            // well-formedness of the grown table
            assert forall|i: int| 0 <= i < t.cells@.len() implies (#[trigger] t.cells@[i]).cell.row
                < t.rows && t.cells@[i].val.valid() by {
                if i < s0.len() {
                    assert(old(t).cells@[i].cell.row < old(t).rows);
                }
            };
            // the enabled row is recorded
            assert(t.enabled@[old(t).enabled@.len() as int] == (SelEnable {
                selector: self.config.s_add,
                row: r0,
            }));
            // with known inputs, the enabled row satisfies the add identity
            if a.value is Known && b.value is Known {
                let af = a.value->0;
                let bf = b.value->0;
                let of = out->0;
                assert(of.v as int == crate::field::add_mod(af.v as int, bf.v as int));
                lemma_identity_iff(GateKind::AddGate, af.v as int, bf.v as int, of.v as int);
            }
        }
        Ok(w)
    }
}

} // verus!
