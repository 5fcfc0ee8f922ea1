use vstd::prelude::*;

use crate::checker::{gate_window_ok, is_enabled, lemma_identity_iff};
use crate::field::Value;
use crate::system::{ConstraintSystem, Gate, GateKind};
use crate::table::{
    lemma_cell_val_push, CellAssign, CellRef, CopyConstraint, Number, RegionName, SelEnable,
    SynthError, Table,
};

verus! {

/// Configuration of the mul chip: its advice column and its selector,
/// fixed once at configuration time.  The advice column may be the very
/// column another chip uses; only the selector is the chip's own.
#[derive(Clone, Copy, Debug, PartialEq, Eq, Structural)]
pub struct MulConfig {
    pub advice: usize,
    pub s_mul: usize,
}

/// The identity a mul configuration declares, as a declared gate value.
pub open spec fn mul_gate(c: MulConfig) -> Gate {
    Gate { selector: c.s_mul, advice: c.advice, kind: GateKind::MulGate }
}

/// The three advice assignments one mul region makes, starting at row `r0`
/// of the chip's advice column: a copy of each operand, then the product.
pub open spec fn mul_region_cells(c: MulConfig, r0: usize, a: Value, b: Value) -> Seq<CellAssign> {
    seq![
        CellAssign { cell: CellRef { col: c.advice, row: r0 }, val: a },
        CellAssign { cell: CellRef { col: c.advice, row: (r0 + 1) as usize }, val: b },
        CellAssign { cell: CellRef { col: c.advice, row: (r0 + 2) as usize }, val: a.spec_mul(b) },
    ]
}

/// The two copy constraints one mul region creates.
pub open spec fn mul_region_copies(c: MulConfig, r0: usize, asrc: CellRef, bsrc: CellRef) -> Seq<
    CopyConstraint,
> {
    seq![
        CopyConstraint { left: asrc, right: CellRef { col: c.advice, row: r0 } },
        CopyConstraint { left: bsrc, right: CellRef { col: c.advice, row: (r0 + 1) as usize } },
    ]
}

/// A chip enforcing `lhs * rhs = out` over a 3-row region of one shared
/// advice column, gated by its own selector.
#[derive(Clone, Copy, Debug)]
pub struct MulChip {
    pub config: MulConfig,
}

impl MulChip {
    /// Builds the chip around an existing configuration.
    pub fn construct(config: MulConfig) -> (r: MulChip)
        ensures
            r.config == config,
    {
        MulChip { config }
    }

    /// The chip's configuration.
    pub fn config(&self) -> (r: MulConfig)
        ensures
            r == self.config,
    {
        self.config
    }

    /// Declares the mul gate: enables equality on the shared advice column,
    /// takes a fresh selector, and attaches the identity
    /// `selector * (cur * next - offset2) = 0` to it.
    pub fn configure(cs: &mut ConstraintSystem, advice: usize) -> (r: MulConfig)
        requires
            old(cs).n_selectors < usize::MAX,
        ensures
            r.advice == advice,
            r.s_mul == old(cs).n_selectors,
            final(cs).n_selectors == old(cs).n_selectors + 1,
            final(cs).gates@ == old(cs).gates@.push(mul_gate(r)),
            final(cs).eq_advice@ == old(cs).eq_advice@.push(advice),
            final(cs).n_advice == old(cs).n_advice,
            final(cs).n_instance == old(cs).n_instance,
            final(cs).eq_instance@ == old(cs).eq_instance@,
    {
        cs.enable_equality(advice);
        let s_mul = cs.selector();
        cs.create_gate(GateKind::MulGate, s_mul, advice);
        MulConfig { advice, s_mul }
    }

    /// Lays out one multiplication: opens a 3-row region, copies `a` into
    /// row 0 and `b` into row 1, assigns the fresh product into row 2, and
    /// enables the mul selector on row 0.  Returns the output wire.  Fails
    /// with a layout error when the table has no room for the region, and
    /// with a constraint error when either input wire does not match its
    /// cell.
    pub fn mul(&self, t: &mut Table, a: Number, b: Number) -> (r: Result<Number, SynthError>)
        requires
            old(t).wf(),
            a.value.valid(),
            b.value.valid(),
        ensures
            final(t).wf(),
            final(t).max_rows == old(t).max_rows,
            final(t).instance@ == old(t).instance@,
            r is Ok <==> (old(t).max_rows - old(t).rows >= 3 && old(t).wire_ok(a) && old(
                t,
            ).wire_ok(b)),
            r matches Err(e) ==> *final(t) == *old(t) && e == (if old(t).max_rows - old(t).rows
                < 3 {
                SynthError::Layout(RegionName::MulRegion)
            } else {
                SynthError::Constraint(RegionName::MulRegion)
            }),
            r matches Ok(w) ==> ({
                &&& final(t).rows == old(t).rows + 3
                &&& final(t).cells@ == old(t).cells@ + mul_region_cells(
                    self.config,
                    old(t).rows,
                    a.value,
                    b.value,
                )
                &&& final(t).enabled@ == old(t).enabled@.push(
                    SelEnable { selector: self.config.s_mul, row: old(t).rows },
                )
                &&& final(t).copies@ == old(t).copies@ + mul_region_copies(
                    self.config,
                    old(t).rows,
                    a.cell,
                    b.cell,
                )
                &&& final(t).binds@ == old(t).binds@
                &&& w == (Number {
                    cell: CellRef { col: self.config.advice, row: (old(t).rows + 2) as usize },
                    value: a.value.spec_mul(b.value),
                })
                &&& final(t).wire_ok(w)
                &&& final(t).spec_cell(a.cell.col as int, a.cell.row as int) == a.value
                &&& final(t).spec_cell(b.cell.col as int, b.cell.row as int) == b.value
                &&& final(t).spec_cell(self.config.advice as int, old(t).rows as int) == a.value
                &&& final(t).spec_cell(self.config.advice as int, old(t).rows + 1) == b.value
                &&& is_enabled(*final(t), self.config.s_mul as int, old(t).rows as int)
                &&& (a.value is Known && b.value is Known ==> gate_window_ok(
                    *final(t),
                    mul_gate(self.config),
                    old(t).rows as int,
                ))
            }),
    {
        if t.max_rows - t.rows < 3 {
            return Err(SynthError::Layout(RegionName::MulRegion));
        }
        let a_ok = a.cell.row < t.rows && t.lookup(a.cell) == a.value;
        let b_ok = b.cell.row < t.rows && t.lookup(b.cell) == b.value;
        if !a_ok || !b_ok {
            return Err(SynthError::Constraint(RegionName::MulRegion));
        }
        let r0 = t.rows;
        t.rows = r0 + 3;
        t.enabled.push(SelEnable { selector: self.config.s_mul, row: r0 });
        t.copies.push(
            CopyConstraint { left: a.cell, right: CellRef { col: self.config.advice, row: r0 } },
        );
        t.cells.push(
            CellAssign { cell: CellRef { col: self.config.advice, row: r0 }, val: a.value },
        );
        t.copies.push(
            CopyConstraint {
                left: b.cell,
                right: CellRef { col: self.config.advice, row: r0 + 1 },
            },
        );
        t.cells.push(
            CellAssign { cell: CellRef { col: self.config.advice, row: r0 + 1 }, val: b.value },
        );
        let out = a.value.mul(b.value);
        t.cells.push(
            CellAssign { cell: CellRef { col: self.config.advice, row: r0 + 2 }, val: out },
        );
        let w = Number { cell: CellRef { col: self.config.advice, row: r0 + 2 }, value: out };
        proof {
            let col: int = self.config.advice as int;
            let row0: int = r0 as int;
            let s0 = old(t).cells@;
            let x = CellAssign { cell: CellRef { col: self.config.advice, row: r0 }, val: a.value };
            let y = CellAssign {
                cell: CellRef { col: self.config.advice, row: (r0 + 1) as usize },
                val: b.value,
            };
            let z = CellAssign {
                cell: CellRef { col: self.config.advice, row: (r0 + 2) as usize },
                val: out,
            };
            assert(t.cells@ == s0.push(x).push(y).push(z));
            assert(t.cells@ =~= s0 + mul_region_cells(self.config, r0, a.value, b.value));
            assert(t.copies@ =~= old(t).copies@ + mul_region_copies(
                self.config,
                r0,
                a.cell,
                b.cell,
            ));
            lemma_cell_val_push(s0, x, col, row0);
            lemma_cell_val_push(s0.push(x), y, col, row0);
            lemma_cell_val_push(s0.push(x).push(y), z, col, row0);
            lemma_cell_val_push(s0, x, col, row0 + 1);
            lemma_cell_val_push(s0.push(x), y, col, row0 + 1);
            lemma_cell_val_push(s0.push(x).push(y), z, col, row0 + 1);
            lemma_cell_val_push(s0.push(x).push(y), z, col, row0 + 2);
            lemma_cell_val_push(s0, x, a.cell.col as int, a.cell.row as int);
            lemma_cell_val_push(s0.push(x), y, a.cell.col as int, a.cell.row as int);
            lemma_cell_val_push(s0.push(x).push(y), z, a.cell.col as int, a.cell.row as int);
            lemma_cell_val_push(s0, x, b.cell.col as int, b.cell.row as int);
            lemma_cell_val_push(s0.push(x), y, b.cell.col as int, b.cell.row as int);
            lemma_cell_val_push(s0.push(x).push(y), z, b.cell.col as int, b.cell.row as int);
            assert forall|i: int| 0 <= i < t.cells@.len() implies (#[trigger] t.cells@[i]).cell.row
                < t.rows && t.cells@[i].val.valid() by {
                if i < s0.len() {
                    assert(old(t).cells@[i].cell.row < old(t).rows);
                }
            };
            assert(t.enabled@[old(t).enabled@.len() as int] == (SelEnable {
                selector: self.config.s_mul,
                row: r0,
            }));
            if a.value is Known && b.value is Known {
                let af = a.value->0;
                let bf = b.value->0;
                let of = out->0;
                assert(of.v as int == crate::field::mul_mod(af.v as int, bf.v as int));
                lemma_identity_iff(GateKind::MulGate, af.v as int, bf.v as int, of.v as int);
            }
        }
        Ok(w)
    }
}

} // verus!
