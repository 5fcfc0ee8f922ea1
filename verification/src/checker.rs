use vstd::arithmetic::div_mod::{
    lemma_fundamental_div_mod, lemma_mod_multiples_basic, lemma_mod_multiples_vanish,
    lemma_small_mod,
};
use vstd::prelude::*;

use crate::field::{add_mod, mul_mod, Felt, Value, MODULUS};
use crate::system::{identity_holds, ConstraintSystem, Gate, GateKind};
use crate::table::{cell_val, lemma_cell_val_unassigned, lemma_cell_val_valid, CellRef, Table};

verus! {

/// A selector is enabled on a row when synthesis recorded that enabling.
pub open spec fn is_enabled(t: Table, selector: int, row: int) -> bool {
    exists|i: int|
        0 <= i < t.enabled@.len() && (#[trigger] t.enabled@[i]).selector == selector
            && t.enabled@[i].row == row
}

/// The three cells a gate queries at a row are all assigned known values
/// and satisfy its identity.
pub open spec fn gate_window_ok(t: Table, g: Gate, row: int) -> bool {
    &&& cell_val(t.cells@, g.advice as int, row) matches Value::Known(l)
    &&& cell_val(t.cells@, g.advice as int, row + 1) matches Value::Known(r)
    &&& cell_val(t.cells@, g.advice as int, row + 2) matches Value::Known(o)
    &&& identity_holds(g.kind, l.v as int, r.v as int, o.v as int)
}

/// A gate constrains a row only where its selector is enabled; on any other
/// row the cells may hold arbitrary values.
pub open spec fn gate_row_ok(t: Table, g: Gate, row: int) -> bool {
    is_enabled(t, g.selector as int, row) ==> gate_window_ok(t, g, row)
}

/// Every gate holds on every row it is enabled on.
pub open spec fn gates_ok(cs: ConstraintSystem, t: Table) -> bool {
    forall|gi: int, row: int|
        0 <= gi < cs.gates@.len() ==> #[trigger] gate_row_ok(t, cs.gates@[gi], row)
}

/// A copy constraint holds: both cells carry the same known value.
pub open spec fn copy_holds(t: Table, c: crate::table::CopyConstraint) -> bool {
    &&& cell_val(t.cells@, c.left.col as int, c.left.row as int) matches Value::Known(f)
    &&& cell_val(t.cells@, c.right.col as int, c.right.row as int) == Value::Known(f)
}

/// Every copy constraint holds.
pub open spec fn copies_ok(t: Table) -> bool {
    forall|i: int| 0 <= i < t.copies@.len() ==> copy_holds(t, #[trigger] t.copies@[i])
}

/// An instance binding holds: the bound advice cell carries a known value
/// equal to the externally supplied instance value at the bound row.
pub open spec fn bind_holds(t: Table, b: crate::table::InstanceBind) -> bool {
    &&& b.row < t.instance@.len()
    &&& cell_val(t.cells@, b.cell.col as int, b.cell.row as int) matches Value::Known(f)
    &&& t.instance@[b.row as int] == Value::Known(f)
}

/// Every instance binding holds.
pub open spec fn binds_ok(t: Table) -> bool {
    forall|i: int| 0 <= i < t.binds@.len() ==> bind_holds(t, #[trigger] t.binds@[i])
}

/// The whole table satisfies its constraint system: this is what the
/// external proving system checks of an assigned table.
pub open spec fn satisfied(cs: ConstraintSystem, t: Table) -> bool {
    &&& gates_ok(cs, t)
    &&& copies_ok(t)
    &&& binds_ok(t)
}

/// A residual `(s - o) % m` vanishes exactly when `o` is the canonical
/// reduction of `s`.
proof fn lemma_vanish_iff(s: int, o: int)
    requires
        0 <= o < MODULUS as int,
    ensures
        ((s - o) % (MODULUS as int) == 0) <==> (s % (MODULUS as int) == o),
{
    let m = MODULUS as int;
    if s % m == o {
        lemma_fundamental_div_mod(s, m);
        assert(s - o == (s / m) * m);
        lemma_mod_multiples_basic(s / m, m);
    }
    if (s - o) % m == 0 {
        lemma_fundamental_div_mod(s - o, m);
        assert(s - o == m * ((s - o) / m));
        lemma_mod_multiples_vanish((s - o) / m, o, m);
        assert((m * ((s - o) / m) + o) % m == o % m);
        lemma_small_mod(o as nat, MODULUS as nat);
    }
}

/// A gate's identity vanishes exactly when the output cell is the field
/// sum (or product) of the two input cells.
pub proof fn lemma_identity_iff(kind: GateKind, l: int, r: int, o: int)
    requires
        0 <= o < MODULUS as int,
    ensures
        kind == GateKind::AddGate ==> (identity_holds(kind, l, r, o) <==> add_mod(l, r) == o),
        kind == GateKind::MulGate ==> (identity_holds(kind, l, r, o) <==> mul_mod(l, r) == o),
{
    lemma_vanish_iff(l + r, o);
    lemma_vanish_iff(l * r, o);
}

/// Evaluates one gate identity on three known cell values.
fn eval_gate(kind: GateKind, l: Felt, r: Felt, o: Felt) -> (res: bool)
    requires
        l.valid(),
        r.valid(),
        o.valid(),
    ensures
        res == identity_holds(kind, l.v as int, r.v as int, o.v as int),
{
    proof {
        lemma_identity_iff(kind, l.v as int, r.v as int, o.v as int);
    }
    let expect: Felt = match kind {
        GateKind::AddGate => l.add(r),
        GateKind::MulGate => l.mul(r),
    };
    expect == o
}

/// Checks whether an assigned table satisfies its constraint system:
/// every enabled gate row, every copy constraint and every instance
/// binding, exactly as `satisfied` states it.
pub fn check_satisfied(cs: &ConstraintSystem, t: &Table) -> (res: bool)
    requires
        t.wf(),
    ensures
        res == satisfied(*cs, *t),
{
    let mut i: usize = 0;
    while i < t.enabled.len()
        invariant
            t.wf(),
            i <= t.enabled@.len(),
            forall|ii: int, j: int|
                0 <= ii < i && 0 <= j < cs.gates@.len()
                    && (#[trigger] cs.gates@[j]).selector == (#[trigger] t.enabled@[ii]).selector
                    ==> gate_window_ok(*t, cs.gates@[j], t.enabled@[ii].row as int),
        decreases t.enabled@.len() - i,
    {
        let e = t.enabled[i];
        let mut j: usize = 0;
        while j < cs.gates.len()
            invariant
                t.wf(),
                i < t.enabled@.len(),
                e == t.enabled@[i as int],
                j <= cs.gates@.len(),
                forall|ii: int, jj: int|
                    0 <= ii < i && 0 <= jj < cs.gates@.len()
                        && (#[trigger] cs.gates@[jj]).selector
                            == (#[trigger] t.enabled@[ii]).selector
                        ==> gate_window_ok(*t, cs.gates@[jj], t.enabled@[ii].row as int),
                forall|jj: int|
                    0 <= jj < j && (#[trigger] cs.gates@[jj]).selector == e.selector
                        ==> gate_window_ok(*t, cs.gates@[jj], e.row as int),
            decreases cs.gates@.len() - j,
        {
            let g = cs.gates[j];
            if g.selector == e.selector {
                let ghost grow: int = e.row as int;
                proof {
                    assert(is_enabled(*t, g.selector as int, grow));
                }
                let row = e.row;
                if row >= t.rows {
                    proof {
                        lemma_cell_val_unassigned(t.cells@, t.rows as int, g.advice as int, grow);
                        assert(!gate_row_ok(*t, cs.gates@[j as int], grow));
                    }
                    return false;
                }
                let l = t.lookup(CellRef { col: g.advice, row });
                if row + 1 >= t.rows {
                    proof {
                        lemma_cell_val_unassigned(
                            t.cells@,
                            t.rows as int,
                            g.advice as int,
                            grow + 1,
                        );
                        assert(!gate_row_ok(*t, cs.gates@[j as int], grow));
                    }
                    return false;
                }
                let r = t.lookup(CellRef { col: g.advice, row: row + 1 });
                let o = t.lookup(CellRef { col: g.advice, row: row + 2 });
                proof {
                    lemma_cell_val_valid(t.cells@, g.advice as int, grow);
                    lemma_cell_val_valid(t.cells@, g.advice as int, grow + 1);
                    lemma_cell_val_valid(t.cells@, g.advice as int, grow + 2);
                }
                match (l, r, o) {
                    (Value::Known(lf), Value::Known(rf), Value::Known(of)) => {
                        if !eval_gate(g.kind, lf, rf, of) {
                            proof {
                                assert(!gate_row_ok(*t, cs.gates@[j as int], grow));
                            }
                            return false;
                        }
                        proof {
                            assert(gate_window_ok(*t, cs.gates@[j as int], grow));
                        }
                    },
                    _ => {
                        proof {
                            assert(!gate_row_ok(*t, cs.gates@[j as int], grow));
                        }
                        return false;
                    },
                }
            }
            j = j + 1;
        }
        i = i + 1;
    }
    proof {
        assert forall|gi: int, row: int|
            0 <= gi < cs.gates@.len() implies #[trigger] gate_row_ok(*t, cs.gates@[gi], row) by {
            if is_enabled(*t, cs.gates@[gi].selector as int, row) {
                let ii = choose|ii: int|
                    0 <= ii < t.enabled@.len() && (#[trigger] t.enabled@[ii]).selector
                        == cs.gates@[gi].selector && t.enabled@[ii].row == row;
                assert(gate_window_ok(*t, cs.gates@[gi], t.enabled@[ii].row as int));
            }
        };
    }
    let mut i: usize = 0;
    while i < t.copies.len()
        invariant
            gates_ok(*cs, *t),
            i <= t.copies@.len(),
            forall|ii: int| 0 <= ii < i ==> copy_holds(*t, #[trigger] t.copies@[ii]),
        decreases t.copies@.len() - i,
    {
        let c = t.copies[i];
        let l = t.lookup(c.left);
        let r = t.lookup(c.right);
        let ok = match l {
            Value::Known(_) => l == r,
            Value::Unknown => false,
        };
        if !ok {
            proof {
                assert(!copy_holds(*t, t.copies@[i as int]));
            }
            return false;
        }
        i = i + 1;
    }
    let mut i: usize = 0;
    while i < t.binds.len()
        invariant
            gates_ok(*cs, *t),
            copies_ok(*t),
            i <= t.binds@.len(),
            forall|ii: int| 0 <= ii < i ==> bind_holds(*t, #[trigger] t.binds@[ii]),
        decreases t.binds@.len() - i,
    {
        let b = t.binds[i];
        if b.row >= t.instance.len() {
            proof {
                assert(!bind_holds(*t, t.binds@[i as int]));
            }
            return false;
        }
        let cv = t.lookup(b.cell);
        let iv = t.instance[b.row];
        let ok = match cv {
            Value::Known(_) => iv == cv,
            Value::Unknown => false,
        };
        if !ok {
            proof {
                assert(!bind_holds(*t, t.binds@[i as int]));
            }
            return false;
        }
        i = i + 1;
    }
    true
}

} // verus!
