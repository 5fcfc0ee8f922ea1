use vstd::prelude::*;

use crate::add::{add_gate, add_region_cells, add_region_copies, AddChip, AddConfig};
use crate::checker::{check_satisfied, satisfied};
use crate::field::{Felt, Value};
use crate::mul::{mul_gate, mul_region_cells, mul_region_copies, MulChip, MulConfig};
use crate::system::ConstraintSystem;
use crate::table::{
    lemma_wire_ok_extend, CellAssign, CellRef, CopyConstraint, InstanceBind, Number, RegionName,
    SelEnable, SynthError, Table,
};

verus! {

/// Configuration of the composite circuit: one advice column shared by
/// both gate chips, one instance column for the public constants, and the
/// two chip configurations.
#[derive(Clone, Copy, Debug, PartialEq, Eq, Structural)]
pub struct SolutionConfig {
    /// The single advice column, shared by both chips.
    pub advice: usize,
    /// The instance column holding the public constants a, b, c.
    pub instance: usize,
    /// Configuration of the add chip.
    pub add_config: AddConfig,
    /// Configuration of the mul chip.
    pub mul_config: MulConfig,
}

/// The result value of the composite computation: `a*x^2 + b*x`, with
/// unknownness propagating from any input.  The constant `c` takes no part
/// in the arithmetic; it is only carried in the instance column.
pub open spec fn solution_value(a: Value, b: Value, x: Value) -> Value {
    a.spec_mul(x.spec_mul(x)).spec_add(b.spec_mul(x))
}

/// The three advice assignments the constant-loading region makes,
/// starting at row `r0`: one private copy of each instance value.
pub open spec fn const_region_cells(c: SolutionConfig, r0: usize, v0: Value, v1: Value, v2: Value)
    -> Seq<CellAssign> {
    seq![
        CellAssign { cell: CellRef { col: c.advice, row: r0 }, val: v0 },
        CellAssign { cell: CellRef { col: c.advice, row: (r0 + 1) as usize }, val: v1 },
        CellAssign { cell: CellRef { col: c.advice, row: (r0 + 2) as usize }, val: v2 },
    ]
}

/// The three instance bindings the constant-loading region records: the
/// advice cell at `r0 + i` must equal instance row `i`.
pub open spec fn const_region_binds(c: SolutionConfig, r0: usize) -> Seq<InstanceBind> {
    seq![
        InstanceBind { cell: CellRef { col: c.advice, row: r0 }, row: 0 },
        InstanceBind { cell: CellRef { col: c.advice, row: (r0 + 1) as usize }, row: 1 },
        InstanceBind { cell: CellRef { col: c.advice, row: (r0 + 2) as usize }, row: 2 },
    ]
}

/// The twelve advice assignments the quadratic computation makes, starting
/// at row `r0`: three mul regions (x*x, b*x, a*x2) and one add region.
pub open spec fn quad_region_cells(c: SolutionConfig, r0: usize, av: Value, bv: Value, xv: Value)
    -> Seq<CellAssign> {
    mul_region_cells(c.mul_config, r0, xv, xv) + mul_region_cells(
        c.mul_config,
        (r0 + 3) as usize,
        bv,
        xv,
    ) + mul_region_cells(c.mul_config, (r0 + 6) as usize, av, xv.spec_mul(xv))
        + add_region_cells(
        c.add_config,
        (r0 + 9) as usize,
        av.spec_mul(xv.spec_mul(xv)),
        bv.spec_mul(xv),
    )
}

/// The four selector enablings of the quadratic computation.
pub open spec fn quad_region_enabled(c: SolutionConfig, r0: usize) -> Seq<SelEnable> {
    seq![
        SelEnable { selector: c.mul_config.s_mul, row: r0 },
        SelEnable { selector: c.mul_config.s_mul, row: (r0 + 3) as usize },
        SelEnable { selector: c.mul_config.s_mul, row: (r0 + 6) as usize },
        SelEnable { selector: c.add_config.s_add, row: (r0 + 9) as usize },
    ]
}

/// The eight copy constraints of the quadratic computation, given the
/// cells the four input wires sit in.
pub open spec fn quad_region_copies(
    c: SolutionConfig,
    r0: usize,
    acell: CellRef,
    bcell: CellRef,
    xcell: CellRef,
) -> Seq<CopyConstraint> {
    mul_region_copies(c.mul_config, r0, xcell, xcell) + mul_region_copies(
        c.mul_config,
        (r0 + 3) as usize,
        bcell,
        xcell,
    ) + mul_region_copies(
        c.mul_config,
        (r0 + 6) as usize,
        acell,
        CellRef { col: c.mul_config.advice, row: (r0 + 2) as usize },
    ) + add_region_copies(
        c.add_config,
        (r0 + 9) as usize,
        CellRef { col: c.mul_config.advice, row: (r0 + 8) as usize },
        CellRef { col: c.mul_config.advice, row: (r0 + 5) as usize },
    )
}

/// The chip composing the two gate chips with private-input loading,
/// constant loading, and public exposure.
#[derive(Clone, Copy, Debug)]
pub struct SolutionChip {
    pub config: SolutionConfig,
}

impl SolutionChip {
    /// Builds the chip around an existing configuration.
    pub fn construct(config: SolutionConfig) -> (r: SolutionChip)
        ensures
            r.config == config,
    {
        SolutionChip { config }
    }

    /// The chip's configuration.
    pub fn config(&self) -> (r: SolutionConfig)
        ensures
            r == self.config,
    {
        self.config
    }

    /// Configures both gate chips against the same shared advice column —
    /// they interfere on no row because each brings its own selector — and
    /// enables equality on the instance column so its cells can be bound.
    pub fn configure(cs: &mut ConstraintSystem, advice: usize, instance: usize) -> (r:
        SolutionConfig)
        requires
            old(cs).n_selectors + 2 <= usize::MAX,
        ensures
            r.advice == advice,
            r.instance == instance,
            r.add_config == (AddConfig { advice, s_add: old(cs).n_selectors }),
            r.mul_config == (MulConfig { advice, s_mul: (old(cs).n_selectors + 1) as usize }),
            final(cs).n_selectors == old(cs).n_selectors + 2,
            final(cs).gates@ == old(cs).gates@ + seq![add_gate(r.add_config), mul_gate(r.mul_config)],
            final(cs).eq_advice@ == old(cs).eq_advice@ + seq![advice, advice],
            final(cs).eq_instance@ == old(cs).eq_instance@.push(instance),
            final(cs).n_advice == old(cs).n_advice,
            final(cs).n_instance == old(cs).n_instance,
    {
        let add_config = AddChip::configure(cs, advice);
        let mul_config = MulChip::configure(cs, advice);
        cs.enable_equality_instance(instance);
        proof {
            assert(cs.gates@ =~= old(cs).gates@ + seq![add_gate(add_config), mul_gate(mul_config)]);
            assert(cs.eq_advice@ =~= old(cs).eq_advice@ + seq![advice, advice]);
        }
        SolutionConfig { advice, instance, add_config, mul_config }
    }

    /// Lays out one addition through the add chip.
    pub fn add(&self, t: &mut Table, a: Number, b: Number) -> (r: Result<Number, SynthError>)
        requires
            old(t).wf(),
            a.value.valid(),
            b.value.valid(),
        ensures
            final(t).wf(),
            final(t).max_rows == old(t).max_rows,
            final(t).instance@ == old(t).instance@,
            r is Ok <==> (old(t).max_rows - old(t).rows >= 3 && old(t).wire_ok(a) && old(
                t,
            ).wire_ok(b)),
            r matches Err(e) ==> *final(t) == *old(t) && e == (if old(t).max_rows - old(t).rows
                < 3 {
                SynthError::Layout(RegionName::AddRegion)
            } else {
                SynthError::Constraint(RegionName::AddRegion)
            }),
            r matches Ok(w) ==> ({
                &&& final(t).rows == old(t).rows + 3
                &&& final(t).cells@ == old(t).cells@ + add_region_cells(
                    self.config.add_config,
                    old(t).rows,
                    a.value,
                    b.value,
                )
                &&& final(t).enabled@ == old(t).enabled@.push(
                    SelEnable { selector: self.config.add_config.s_add, row: old(t).rows },
                )
                &&& final(t).copies@ == old(t).copies@ + add_region_copies(
                    self.config.add_config,
                    old(t).rows,
                    a.cell,
                    b.cell,
                )
                &&& final(t).binds@ == old(t).binds@
                &&& w == (Number {
                    cell: CellRef {
                        col: self.config.add_config.advice,
                        row: (old(t).rows + 2) as usize,
                    },
                    value: a.value.spec_add(b.value),
                })
                &&& final(t).wire_ok(w)
            }),
    {
        let chip = AddChip::construct(self.config.add_config);
        chip.add(t, a, b)
    }

    /// Lays out one multiplication through the mul chip.
    pub fn mul(&self, t: &mut Table, a: Number, b: Number) -> (r: Result<Number, SynthError>)
        requires
            old(t).wf(),
            a.value.valid(),
            b.value.valid(),
        ensures
            final(t).wf(),
            final(t).max_rows == old(t).max_rows,
            final(t).instance@ == old(t).instance@,
            r is Ok <==> (old(t).max_rows - old(t).rows >= 3 && old(t).wire_ok(a) && old(
                t,
            ).wire_ok(b)),
            r matches Err(e) ==> *final(t) == *old(t) && e == (if old(t).max_rows - old(t).rows
                < 3 {
                SynthError::Layout(RegionName::MulRegion)
            } else {
                SynthError::Constraint(RegionName::MulRegion)
            }),
            r matches Ok(w) ==> ({
                &&& final(t).rows == old(t).rows + 3
                &&& final(t).cells@ == old(t).cells@ + mul_region_cells(
                    self.config.mul_config,
                    old(t).rows,
                    a.value,
                    b.value,
                )
                &&& final(t).enabled@ == old(t).enabled@.push(
                    SelEnable { selector: self.config.mul_config.s_mul, row: old(t).rows },
                )
                &&& final(t).copies@ == old(t).copies@ + mul_region_copies(
                    self.config.mul_config,
                    old(t).rows,
                    a.cell,
                    b.cell,
                )
                &&& final(t).binds@ == old(t).binds@
                &&& w == (Number {
                    cell: CellRef {
                        col: self.config.mul_config.advice,
                        row: (old(t).rows + 2) as usize,
                    },
                    value: a.value.spec_mul(b.value),
                })
                &&& final(t).wire_ok(w)
            }),
    {
        let chip = MulChip::construct(self.config.mul_config);
        chip.mul(t, a, b)
    }

    /// Loads a private witness value into a fresh single-row region of the
    /// advice column.  No constraint is attached: this is the unconstrained
    /// entry point for the private input.
    pub fn load_private(&self, t: &mut Table, value: Value) -> (r: Result<Number, SynthError>)
        requires
            old(t).wf(),
            value.valid(),
        ensures
            final(t).wf(),
            final(t).max_rows == old(t).max_rows,
            final(t).instance@ == old(t).instance@,
            r is Ok <==> old(t).max_rows - old(t).rows >= 1,
            r matches Err(e) ==> *final(t) == *old(t) && e == SynthError::Layout(
                RegionName::LoadPrivate,
            ),
            r matches Ok(w) ==> ({
                &&& final(t).rows == old(t).rows + 1
                &&& final(t).cells@ == old(t).cells@.push(
                    CellAssign {
                        cell: CellRef { col: self.config.advice, row: old(t).rows },
                        val: value,
                    },
                )
                &&& final(t).enabled@ == old(t).enabled@
                &&& final(t).copies@ == old(t).copies@
                &&& final(t).binds@ == old(t).binds@
                &&& w == (Number {
                    cell: CellRef { col: self.config.advice, row: old(t).rows },
                    value,
                })
                &&& final(t).wire_ok(w)
            }),
    {
        if t.max_rows - t.rows < 1 {
            return Err(SynthError::Layout(RegionName::LoadPrivate));
        }
        let r0 = t.rows;
        t.rows = r0 + 1;
        t.cells.push(
            CellAssign { cell: CellRef { col: self.config.advice, row: r0 }, val: value },
        );
        let w = Number { cell: CellRef { col: self.config.advice, row: r0 }, value };
        proof {
            assert forall|i: int| 0 <= i < t.cells@.len() implies (#[trigger] t.cells@[i]).cell.row
                < t.rows && t.cells@[i].val.valid() by {
                if i < old(t).cells@.len() {
                    assert(old(t).cells@[i].cell.row < old(t).rows);
                }
            };
        }
        Ok(w)
    }

    /// Loads the three public constants: for rows 0, 1 and 2 of the
    /// instance column, assigns the externally supplied value into a fresh
    /// private advice cell and records the binding that makes the two equal.
    /// Returns the three bound wires in order (a, b, c).
    pub fn load_constants(&self, t: &mut Table) -> (r: Result<
        (Number, Number, Number),
        SynthError,
    >)
        requires
            old(t).wf(),
        ensures
            final(t).wf(),
            final(t).max_rows == old(t).max_rows,
            final(t).instance@ == old(t).instance@,
            r is Ok <==> (old(t).max_rows - old(t).rows >= 3 && old(t).instance@.len() >= 3),
            r matches Err(e) ==> *final(t) == *old(t) && e == (if old(t).max_rows - old(t).rows
                < 3 {
                SynthError::Layout(RegionName::LoadConstants)
            } else {
                SynthError::Constraint(RegionName::LoadConstants)
            }),
            r matches Ok(ws) ==> ({
                &&& final(t).rows == old(t).rows + 3
                &&& final(t).cells@ == old(t).cells@ + const_region_cells(
                    self.config,
                    old(t).rows,
                    old(t).instance@[0],
                    old(t).instance@[1],
                    old(t).instance@[2],
                )
                &&& final(t).enabled@ == old(t).enabled@
                &&& final(t).copies@ == old(t).copies@
                &&& final(t).binds@ == old(t).binds@ + const_region_binds(
                    self.config,
                    old(t).rows,
                )
                &&& ws.0 == (Number {
                    cell: CellRef { col: self.config.advice, row: old(t).rows },
                    value: old(t).instance@[0],
                })
                &&& ws.1 == (Number {
                    cell: CellRef { col: self.config.advice, row: (old(t).rows + 1) as usize },
                    value: old(t).instance@[1],
                })
                &&& ws.2 == (Number {
                    cell: CellRef { col: self.config.advice, row: (old(t).rows + 2) as usize },
                    value: old(t).instance@[2],
                })
                &&& final(t).wire_ok(ws.0)
                &&& final(t).wire_ok(ws.1)
                &&& final(t).wire_ok(ws.2)
            }),
    {
        if t.max_rows - t.rows < 3 {
            return Err(SynthError::Layout(RegionName::LoadConstants));
        }
        if t.instance.len() < 3 {
            return Err(SynthError::Constraint(RegionName::LoadConstants));
        }
        let v0 = t.instance[0];
        let v1 = t.instance[1];
        let v2 = t.instance[2];
        let r0 = t.rows;
        t.rows = r0 + 3;
        t.cells.push(CellAssign { cell: CellRef { col: self.config.advice, row: r0 }, val: v0 });
        t.binds.push(InstanceBind { cell: CellRef { col: self.config.advice, row: r0 }, row: 0 });
        t.cells.push(
            CellAssign { cell: CellRef { col: self.config.advice, row: r0 + 1 }, val: v1 },
        );
        t.binds.push(
            InstanceBind { cell: CellRef { col: self.config.advice, row: r0 + 1 }, row: 1 },
        );
        t.cells.push(
            CellAssign { cell: CellRef { col: self.config.advice, row: r0 + 2 }, val: v2 },
        );
        t.binds.push(
            InstanceBind { cell: CellRef { col: self.config.advice, row: r0 + 2 }, row: 2 },
        );
        let wa = Number { cell: CellRef { col: self.config.advice, row: r0 }, value: v0 };
        let wb = Number { cell: CellRef { col: self.config.advice, row: r0 + 1 }, value: v1 };
        let wc = Number { cell: CellRef { col: self.config.advice, row: r0 + 2 }, value: v2 };
        proof {
            let col: int = self.config.advice as int;
            let row0: int = r0 as int;
            let s0 = old(t).cells@;
            let x = CellAssign { cell: CellRef { col: self.config.advice, row: r0 }, val: v0 };
            let y = CellAssign {
                cell: CellRef { col: self.config.advice, row: (r0 + 1) as usize },
                val: v1,
            };
            let z = CellAssign {
                cell: CellRef { col: self.config.advice, row: (r0 + 2) as usize },
                val: v2,
            };
            assert(t.cells@ == s0.push(x).push(y).push(z));
            assert(t.cells@ =~= s0 + const_region_cells(
                self.config,
                r0,
                old(t).instance@[0],
                old(t).instance@[1],
                old(t).instance@[2],
            ));
            assert(t.binds@ =~= old(t).binds@ + const_region_binds(self.config, r0));
            crate::table::lemma_cell_val_push(s0, x, col, row0);
            crate::table::lemma_cell_val_push(s0.push(x), y, col, row0);
            crate::table::lemma_cell_val_push(s0.push(x).push(y), z, col, row0);
            crate::table::lemma_cell_val_push(s0, x, col, row0 + 1);
            crate::table::lemma_cell_val_push(s0.push(x), y, col, row0 + 1);
            crate::table::lemma_cell_val_push(s0.push(x).push(y), z, col, row0 + 1);
            crate::table::lemma_cell_val_push(s0.push(x).push(y), z, col, row0 + 2);
            assert forall|i: int| 0 <= i < t.cells@.len() implies (#[trigger] t.cells@[i]).cell.row
                < t.rows && t.cells@[i].val.valid() by {
                if i < s0.len() {
                    assert(old(t).cells@[i].cell.row < old(t).rows);
                }
            };
        }
        Ok((wa, wb, wc))
    }

    /// Asserts that a wire's cell equals the instance column's value at
    /// `row`: the only way a computed value becomes an externally checkable
    /// output.  The binding itself is checked later by the proving system;
    /// a row with no matching instance value simply fails that check.
    pub fn expose_public(&self, t: &mut Table, num: Number, row: usize) -> (r: Result<
        (),
        SynthError,
    >)
        requires
            old(t).wf(),
            num.value.valid(),
        ensures
            final(t).wf(),
            r is Ok <==> old(t).wire_ok(num),
            r is Err ==> *final(t) == *old(t),
            r matches Err(e) ==> e == SynthError::Constraint(RegionName::ExposePublic),
            r is Ok ==> ({
                &&& final(t).rows == old(t).rows
                &&& final(t).max_rows == old(t).max_rows
                &&& final(t).instance@ == old(t).instance@
                &&& final(t).cells@ == old(t).cells@
                &&& final(t).enabled@ == old(t).enabled@
                &&& final(t).copies@ == old(t).copies@
                &&& final(t).binds@ == old(t).binds@.push(
                    InstanceBind { cell: num.cell, row },
                )
            }),
    {
        let ok = num.cell.row < t.rows && t.lookup(num.cell) == num.value;
        if !ok {
            return Err(SynthError::Constraint(RegionName::ExposePublic));
        }
        t.binds.push(InstanceBind { cell: num.cell, row });
        Ok(())
    }

    /// Computes `a*x^2 + b*x` as four chained gate regions: x2 = x*x,
    /// bx = b*x, ax2 = a*x2, result = ax2 + bx.  The constant `c` is
    /// accepted but takes no part in the arithmetic; the realized result is
    /// `a*x^2 + b*x`, not `a*x^2 + b*x - c`, and callers must account for
    /// that asymmetry when choosing which value to expose.
    pub fn solve_quadratic(
        &self,
        t: &mut Table,
        a: Number,
        b: Number,
        _c: Number,
        x: Number,
    ) -> (r: Result<Number, SynthError>)
        requires
            old(t).wf(),
            old(t).wire_ok(a),
            old(t).wire_ok(b),
            old(t).wire_ok(x),
        ensures
            final(t).wf(),
            final(t).max_rows == old(t).max_rows,
            final(t).instance@ == old(t).instance@,
            r is Ok <==> old(t).max_rows - old(t).rows >= 12,
            r matches Err(e) ==> e == (if old(t).max_rows - old(t).rows < 9 {
                SynthError::Layout(RegionName::MulRegion)
            } else {
                SynthError::Layout(RegionName::AddRegion)
            }),
            r matches Ok(w) ==> ({
                &&& final(t).rows == old(t).rows + 12
                &&& final(t).cells@ == old(t).cells@ + quad_region_cells(
                    self.config,
                    old(t).rows,
                    a.value,
                    b.value,
                    x.value,
                )
                &&& final(t).enabled@ == old(t).enabled@ + quad_region_enabled(
                    self.config,
                    old(t).rows,
                )
                &&& final(t).copies@ == old(t).copies@ + quad_region_copies(
                    self.config,
                    old(t).rows,
                    a.cell,
                    b.cell,
                    x.cell,
                )
                &&& final(t).binds@ == old(t).binds@
                &&& w == (Number {
                    cell: CellRef {
                        col: self.config.add_config.advice,
                        row: (old(t).rows + 11) as usize,
                    },
                    value: solution_value(a.value, b.value, x.value),
                })
                &&& final(t).wire_ok(w)
            }),
    {
        let ghost t0 = *t;
        let x2 = match self.mul(t, x, x) {
            Ok(w) => w,
            Err(e) => {
                return Err(e);
            },
        };
        let ghost t1 = *t;
        proof {
            lemma_wire_ok_extend(
                t0,
                t1,
                mul_region_cells(self.config.mul_config, t0.rows, x.value, x.value),
                b,
            );
            lemma_wire_ok_extend(
                t0,
                t1,
                mul_region_cells(self.config.mul_config, t0.rows, x.value, x.value),
                x,
            );
            lemma_wire_ok_extend(
                t0,
                t1,
                mul_region_cells(self.config.mul_config, t0.rows, x.value, x.value),
                a,
            );
        }
        let bx = match self.mul(t, b, x) {
            Ok(w) => w,
            Err(e) => {
                return Err(e);
            },
        };
        let ghost t2 = *t;
        proof {
            lemma_wire_ok_extend(
                t1,
                t2,
                mul_region_cells(self.config.mul_config, t1.rows, b.value, x.value),
                a,
            );
            lemma_wire_ok_extend(
                t1,
                t2,
                mul_region_cells(self.config.mul_config, t1.rows, b.value, x.value),
                x2,
            );
        }
        let ax2 = match self.mul(t, a, x2) {
            Ok(w) => w,
            Err(e) => {
                return Err(e);
            },
        };
        let ghost t3 = *t;
        proof {
            lemma_wire_ok_extend(
                t2,
                t3,
                mul_region_cells(self.config.mul_config, t2.rows, a.value, x2.value),
                bx,
            );
        }
        let result = match self.add(t, ax2, bx) {
            Ok(w) => w,
            Err(e) => {
                return Err(e);
            },
        };
        proof {
            assert(t.cells@ =~= t0.cells@ + quad_region_cells(
                self.config,
                t0.rows,
                a.value,
                b.value,
                x.value,
            ));
            assert(t.enabled@ =~= t0.enabled@ + quad_region_enabled(self.config, t0.rows));
            assert(t.copies@ =~= t0.copies@ + quad_region_copies(
                self.config,
                t0.rows,
                a.cell,
                b.cell,
                x.cell,
            ));
        }
        Ok(result)
    }
}

/// The full contents one synthesis run appends to a table, as a function
/// of the configuration, the first free row, the witness and the three
/// instance values: the private-input cell, the three constant cells, and
/// the twelve cells of the quadratic computation.
pub open spec fn synth_cells(
    c: SolutionConfig,
    r0: usize,
    x: Value,
    av: Value,
    bv: Value,
    cv: Value,
) -> Seq<CellAssign> {
    seq![CellAssign { cell: CellRef { col: c.advice, row: r0 }, val: x }]
        + const_region_cells(c, (r0 + 1) as usize, av, bv, cv)
        + quad_region_cells(c, (r0 + 4) as usize, av, bv, x)
}

/// The selector enablings one synthesis run records.
pub open spec fn synth_enabled(c: SolutionConfig, r0: usize) -> Seq<SelEnable> {
    quad_region_enabled(c, (r0 + 4) as usize)
}

/// The copy constraints one synthesis run records.
pub open spec fn synth_copies(c: SolutionConfig, r0: usize) -> Seq<CopyConstraint> {
    quad_region_copies(
        c,
        (r0 + 4) as usize,
        CellRef { col: c.advice, row: (r0 + 1) as usize },
        CellRef { col: c.advice, row: (r0 + 2) as usize },
        CellRef { col: c.advice, row: r0 },
    )
}

/// The instance bindings one synthesis run records: the three constants,
/// and the computed result exposed at instance row 2.
pub open spec fn synth_binds(c: SolutionConfig, r0: usize) -> Seq<InstanceBind> {
    const_region_binds(c, (r0 + 1) as usize).push(
        InstanceBind {
            cell: CellRef { col: c.add_config.advice, row: (r0 + 15) as usize },
            row: 2,
        },
    )
}

/// The relation between a table before and after one successful synthesis
/// run: everything the run adds is a function of the configuration, the
/// starting table and the witness alone.
pub open spec fn synthesized(c: SolutionConfig, t0: Table, x: Value, t1: Table) -> bool {
    &&& t1.max_rows == t0.max_rows
    &&& t1.instance@ == t0.instance@
    &&& t1.rows == t0.rows + 16
    &&& t1.cells@ == t0.cells@ + synth_cells(
        c,
        t0.rows,
        x,
        t0.instance@[0],
        t0.instance@[1],
        t0.instance@[2],
    )
    &&& t1.enabled@ == t0.enabled@ + synth_enabled(c, t0.rows)
    &&& t1.copies@ == t0.copies@ + synth_copies(c, t0.rows)
    &&& t1.binds@ == t0.binds@ + synth_binds(c, t0.rows)
}

/// The full circuit: proves knowledge of a private `x` such that the
/// computed `a*x^2 + b*x` equals the public value at instance row 2.
#[derive(Clone, Copy, Debug)]
pub struct MyCircuit {
    /// The private witness, possibly still unknown (e.g. during setup).
    pub x: Value,
}

impl Default for MyCircuit {
    /// The circuit with no witness.
    fn default() -> (r: MyCircuit)
        ensures
            r.x == Value::Unknown,
    {
        MyCircuit { x: Value::Unknown }
    }
}

impl MyCircuit {
    /// The same circuit shape with the witness dropped, as used for setup.
    pub fn without_witnesses(&self) -> (r: MyCircuit)
        ensures
            r.x == Value::Unknown,
    {
        MyCircuit { x: Value::Unknown }
    }

    /// Declares all columns and gates: one advice column, one instance
    /// column, and the two chips configured against the shared advice
    /// column.  Runs once, before any witness exists.
    pub fn configure(cs: &mut ConstraintSystem) -> (r: SolutionConfig)
        requires
            old(cs).n_advice < usize::MAX,
            old(cs).n_instance < usize::MAX,
            old(cs).n_selectors + 2 <= usize::MAX,
        ensures
            r.advice == old(cs).n_advice,
            r.instance == old(cs).n_instance,
            r.add_config == (AddConfig { advice: r.advice, s_add: old(cs).n_selectors }),
            r.mul_config == (MulConfig {
                advice: r.advice,
                s_mul: (old(cs).n_selectors + 1) as usize,
            }),
            final(cs).n_advice == old(cs).n_advice + 1,
            final(cs).n_instance == old(cs).n_instance + 1,
            final(cs).n_selectors == old(cs).n_selectors + 2,
            final(cs).gates@ == old(cs).gates@ + seq![add_gate(r.add_config), mul_gate(r.mul_config)],
            final(cs).eq_advice@ == old(cs).eq_advice@ + seq![r.advice, r.advice],
            final(cs).eq_instance@ == old(cs).eq_instance@.push(r.instance),
    {
        let advice = cs.advice_column();
        let instance = cs.instance_column();
        SolutionChip::configure(cs, advice, instance)
    }

    /// One full synthesis pass: load the private witness, load the three
    /// public constants, compute `a*x^2 + b*x`, and expose the result at
    /// instance row 2.  A single pass, total or failing; a failure reports
    /// the region it arose in and aborts immediately.
    pub fn synthesize(&self, config: SolutionConfig, t: &mut Table) -> (r: Result<(), SynthError>)
        requires
            old(t).wf(),
            self.x.valid(),
        ensures
            final(t).wf(),
            final(t).max_rows == old(t).max_rows,
            final(t).instance@ == old(t).instance@,
            r is Ok <==> (old(t).max_rows - old(t).rows >= 16 && old(t).instance@.len() >= 3),
            r matches Err(e) ==> e == (if old(t).max_rows - old(t).rows < 1 {
                SynthError::Layout(RegionName::LoadPrivate)
            } else if old(t).max_rows - old(t).rows < 4 {
                SynthError::Layout(RegionName::LoadConstants)
            } else if old(t).instance@.len() < 3 {
                SynthError::Constraint(RegionName::LoadConstants)
            } else if old(t).max_rows - old(t).rows < 13 {
                SynthError::Layout(RegionName::MulRegion)
            } else {
                SynthError::Layout(RegionName::AddRegion)
            }),
            r is Ok ==> synthesized(config, *old(t), self.x, *final(t)),
    {
        let chip = SolutionChip::construct(config);
        let ghost t0 = *t;
        let x = match chip.load_private(t, self.x) {
            Ok(w) => w,
            Err(e) => {
                return Err(e);
            },
        };
        let ghost t1 = *t;
        let (a, b, c) = match chip.load_constants(t) {
            Ok(ws) => ws,
            Err(e) => {
                return Err(e);
            },
        };
        let ghost t2 = *t;
        proof {
            lemma_wire_ok_extend(
                t1,
                t2,
                const_region_cells(
                    config,
                    t1.rows,
                    t1.instance@[0],
                    t1.instance@[1],
                    t1.instance@[2],
                ),
                x,
            );
        }
        let solution = match chip.solve_quadratic(t, a, b, c, x) {
            Ok(w) => w,
            Err(e) => {
                return Err(e);
            },
        };
        let ghost t3 = *t;
        let r = chip.expose_public(t, solution, 2);
        proof {
            assert(r is Ok);
            assert(t.cells@ =~= t0.cells@ + synth_cells(
                config,
                t0.rows,
                self.x,
                t0.instance@[0],
                t0.instance@[1],
                t0.instance@[2],
            ));
            assert(t.enabled@ =~= t0.enabled@ + synth_enabled(config, t0.rows));
            assert(t.copies@ =~= t0.copies@ + synth_copies(config, t0.rows));
            assert(t.binds@ =~= t0.binds@ + synth_binds(config, t0.rows));
        }
        r
    }
}

/// How many powers of two fit the machine: `2^k`, saturated at the largest
/// machine integer.
pub open spec fn two_pow(k: nat) -> nat
    decreases k,
{
    if k == 0 {
        1
    } else {
        2 * two_pow((k - 1) as nat)
    }
}

/// The number of table rows a size parameter `k` buys: `2^k`, saturated.
pub open spec fn pow2_capacity(k: nat) -> nat {
    if two_pow(k) <= usize::MAX as nat {
        two_pow(k)
    } else {
        usize::MAX as nat
    }
}

/// Computes the saturated power of two.
fn pow2_capped(k: usize) -> (r: usize)
    ensures
        r as nat == pow2_capacity(k as nat),
{
    let mut cap: usize = 1;
    let mut i: usize = 0;
    while i < k
        invariant
            i <= k,
            (two_pow(i as nat) <= usize::MAX as nat && cap as nat == two_pow(i as nat)) || (
            two_pow(i as nat) > usize::MAX as nat && cap == usize::MAX),
        decreases k - i,
    {
        proof {
            assert(two_pow((i + 1) as nat) == 2 * two_pow(i as nat));
        }
        if cap <= usize::MAX - cap {
            cap = cap + cap;
        } else {
            cap = usize::MAX;
        }
        i = i + 1;
    }
    cap
}

/// A mock of the external proving system's acceptance check: runs one
/// synthesis pass over a table of `2^k` rows against a public instance
/// vector, then checks every gate, copy constraint and instance binding.
#[derive(Clone, Debug, PartialEq, Eq)]
pub struct MockProver {
    /// The constraint system the circuit configured.
    pub cs: ConstraintSystem,
    /// The configuration the circuit built.
    pub config: SolutionConfig,
    /// The fully assigned table.
    pub table: Table,
}

impl MockProver {
    /// Configures and synthesizes the circuit on a fresh table of `2^k`
    /// rows whose instance column holds the given public values.
    pub fn run(k: usize, circuit: &MyCircuit, instance: Vec<Felt>) -> (r: Result<
        MockProver,
        SynthError,
    >)
        requires
            circuit.x.valid(),
            forall|i: int| 0 <= i < instance@.len() ==> (#[trigger] instance@[i]).valid(),
        ensures
            r is Ok <==> (pow2_capacity(k as nat) >= 16 && instance@.len() >= 3),
            r matches Ok(p) ==> ({
                &&& p.table.wf()
                &&& p.config.advice == 0
                &&& p.config.instance == 0
                &&& p.config.add_config == (AddConfig { advice: 0, s_add: 0 })
                &&& p.config.mul_config == (MulConfig { advice: 0, s_mul: 1 })
                &&& p.cs.gates@ == seq![
                    add_gate(p.config.add_config),
                    mul_gate(p.config.mul_config),
                ]
                &&& p.table.max_rows as nat == pow2_capacity(k as nat)
                &&& p.table.rows == 16
                &&& p.table.instance@ == instance@.map_values(|f: Felt| Value::Known(f))
                &&& p.table.cells@ == synth_cells(
                    p.config,
                    0,
                    circuit.x,
                    Value::Known(instance@[0]),
                    Value::Known(instance@[1]),
                    Value::Known(instance@[2]),
                )
                &&& p.table.enabled@ == synth_enabled(p.config, 0)
                &&& p.table.copies@ == synth_copies(p.config, 0)
                &&& p.table.binds@ == synth_binds(p.config, 0)
            }),
    {
        let max_rows = pow2_capped(k);
        let mut vals: Vec<Value> = Vec::new();
        let mut i: usize = 0;
        while i < instance.len()
            invariant
                i <= instance@.len(),
                forall|j: int| 0 <= j < instance@.len() ==> (#[trigger] instance@[j]).valid(),
                vals@ == instance@.take(i as int).map_values(|f: Felt| Value::Known(f)),
            decreases instance@.len() - i,
        {
            vals.push(Value::Known(instance[i]));
            proof {
                assert(instance@.take(i + 1).map_values(|f: Felt| Value::Known(f)) =~= instance@
                    .take(i as int).map_values(|f: Felt| Value::Known(f)).push(
                    Value::Known(instance@[i as int]),
                ));
            }
            i = i + 1;
        }
        proof {
            assert(instance@.take(instance@.len() as int) =~= instance@);
            assert forall|j: int| 0 <= j < vals@.len() implies (#[trigger] vals@[j]).valid() by {
                assert(vals@[j] == Value::Known(instance@[j]));
            };
        }
        let mut t = Table::new(max_rows, vals);
        let mut cs = ConstraintSystem::new();
        let config = MyCircuit::configure(&mut cs);
        match circuit.synthesize(config, &mut t) {
            Ok(()) => {
                proof {
                    assert(t.cells@ =~= synth_cells(
                        config,
                        0,
                        circuit.x,
                        Value::Known(instance@[0]),
                        Value::Known(instance@[1]),
                        Value::Known(instance@[2]),
                    ));
                    assert(t.enabled@ =~= synth_enabled(config, 0));
                    assert(t.copies@ =~= synth_copies(config, 0));
                    assert(t.binds@ =~= synth_binds(config, 0));
                    assert(cs.gates@ =~= seq![
                        add_gate(config.add_config),
                        mul_gate(config.mul_config),
                    ]);
                }
                Ok(MockProver { cs, config, table: t })
            },
            Err(e) => Err(e),
        }
    }

    /// Checks the assigned table against every constraint, exactly as the
    /// `satisfied` predicate states it.
    pub fn verify(&self) -> (r: bool)
        requires
            self.table.wf(),
        ensures
            r == satisfied(self.cs, self.table),
    {
        check_satisfied(&self.cs, &self.table)
    }
}

} // verus!
