use vstd::prelude::*;

use crate::add::{add_gate, AddConfig};
use crate::checker::{
    bind_holds, binds_ok, copies_ok, copy_holds, gate_row_ok, gate_window_ok, gates_ok,
    lemma_identity_iff, satisfied,
};
use crate::field::{add_mod, mul_mod, Felt, Value};
use crate::mul::{mul_gate, MulConfig};
use crate::solution::{
    solution_value, synth_binds, synth_cells, synth_copies, synth_enabled, synthesized,
    MockProver, SolutionConfig,
};
use crate::system::{gate_term, identity_holds, Gate, GateKind};
use crate::table::{
    cell_val, lemma_cell_val_at_index, CellAssign, CellRef, InstanceBind, Number, Table,
};

verus! {

/// Soundness of the add gate: for all field elements p and q, the region's
/// output is the field sum, and the add identity evaluates to zero on the
/// enabled row.  (The layout half — that the enabled row indeed holds p, q
/// and the sum — is part of the add operation's own postcondition.)
pub proof fn lemma_add_gate_sound(p: Felt, q: Felt)
    requires
        p.valid(),
        q.valid(),
    ensures
        identity_holds(GateKind::AddGate, p.v as int, q.v as int, add_mod(p.v as int, q.v as int)),
        gate_term(
            1,
            GateKind::AddGate,
            p.v as int,
            q.v as int,
            add_mod(p.v as int, q.v as int),
        ) == 0,
{
    lemma_identity_iff(
        GateKind::AddGate,
        p.v as int,
        q.v as int,
        add_mod(p.v as int, q.v as int),
    );
}

/// Soundness of the mul gate: for all field elements p and q, the region's
/// output is the field product, and the mul identity evaluates to zero on
/// the enabled row.
pub proof fn lemma_mul_gate_sound(p: Felt, q: Felt)
    requires
        p.valid(),
        q.valid(),
    ensures
        identity_holds(GateKind::MulGate, p.v as int, q.v as int, mul_mod(p.v as int, q.v as int)),
        gate_term(
            1,
            GateKind::MulGate,
            p.v as int,
            q.v as int,
            mul_mod(p.v as int, q.v as int),
        ) == 0,
{
    lemma_identity_iff(
        GateKind::MulGate,
        p.v as int,
        q.v as int,
        mul_mod(p.v as int, q.v as int),
    );
}

/// Disabled-row neutrality, polynomial form: a selector value of zero
/// makes the whole gate term vanish, whatever the three cells hold.
pub proof fn lemma_zero_selector_term(kind: GateKind, l: int, r: int, o: int)
    ensures
        gate_term(0, kind, l, r, o) == 0,
{
}

/// Disabled-row neutrality, table form: on any row where a gate's selector
/// is not enabled, that gate imposes no constraint, whatever the advice
/// cells hold there.
pub proof fn lemma_disabled_row_neutral(t: Table, g: Gate, row: int)
    requires
        !crate::checker::is_enabled(t, g.selector as int, row),
    ensures
        gate_row_ok(t, g, row),
{
}

/// Instance-binding round trip: exposing a computed wire holding the known
/// value `f` at instance row `row` makes verification succeed exactly when
/// it succeeded before and the public vector holds `f` at that row.
pub proof fn lemma_instance_binding_round_trip(
    cs: crate::system::ConstraintSystem,
    t0: Table,
    t1: Table,
    n: Number,
    row: usize,
    f: Felt,
)
    requires
        t0.wire_ok(n),
        n.value == Value::Known(f),
        t1.rows == t0.rows,
        t1.max_rows == t0.max_rows,
        t1.instance@ == t0.instance@,
        t1.cells@ == t0.cells@,
        t1.enabled@ == t0.enabled@,
        t1.copies@ == t0.copies@,
        t1.binds@ == t0.binds@.push(InstanceBind { cell: n.cell, row }),
    ensures
        satisfied(cs, t1) <==> (satisfied(cs, t0) && row < t1.instance@.len()
            && t1.instance@[row as int] == Value::Known(f)),
{
    let nb = InstanceBind { cell: n.cell, row };
    assert forall|gi: int, r: int| 0 <= gi < cs.gates@.len() implies #[trigger] gate_row_ok(
        t1,
        cs.gates@[gi],
        r,
    ) == gate_row_ok(t0, cs.gates@[gi], r) by {
        let g = cs.gates@[gi];
        assert(crate::checker::is_enabled(t1, g.selector as int, r) == crate::checker::is_enabled(
            t0,
            g.selector as int,
            r,
        )) by {
            if crate::checker::is_enabled(t1, g.selector as int, r) {
                let i = choose|i: int|
                    0 <= i < t1.enabled@.len() && (#[trigger] t1.enabled@[i]).selector
                        == g.selector as int && t1.enabled@[i].row == r;
                assert(t0.enabled@[i] == t1.enabled@[i]);
            }
            if crate::checker::is_enabled(t0, g.selector as int, r) {
                let i = choose|i: int|
                    0 <= i < t0.enabled@.len() && (#[trigger] t0.enabled@[i]).selector
                        == g.selector as int && t0.enabled@[i].row == r;
                assert(t1.enabled@[i] == t0.enabled@[i]);
            }
        }
    };
    if gates_ok(cs, t0) {
        assert forall|gi: int, r: int| 0 <= gi < cs.gates@.len() implies #[trigger] gate_row_ok(
            t1,
            cs.gates@[gi],
            r,
        ) by {
            assert(gate_row_ok(t0, cs.gates@[gi], r));
        };
    }
    if gates_ok(cs, t1) {
        assert forall|gi: int, r: int| 0 <= gi < cs.gates@.len() implies #[trigger] gate_row_ok(
            t0,
            cs.gates@[gi],
            r,
        ) by {
            assert(gate_row_ok(t1, cs.gates@[gi], r));
        };
    }
    assert(gates_ok(cs, t1) == gates_ok(cs, t0));
    assert(copies_ok(t1) == copies_ok(t0)) by {
        assert forall|i: int| 0 <= i < t1.copies@.len() implies crate::checker::copy_holds(
            t1,
            #[trigger] t1.copies@[i],
        ) == crate::checker::copy_holds(t0, t0.copies@[i]) by {};
    }
    assert(bind_holds(t1, nb) <==> (row < t1.instance@.len() && t1.instance@[row as int]
        == Value::Known(f)));
    if binds_ok(t1) {
        assert forall|i: int| 0 <= i < t0.binds@.len() implies bind_holds(
            t0,
            #[trigger] t0.binds@[i],
        ) by {
            assert(t1.binds@[i] == t0.binds@[i]);
            assert(bind_holds(t1, t1.binds@[i]));
        };
        assert(bind_holds(t1, t1.binds@[t0.binds@.len() as int]));
    }
    if binds_ok(t0) && bind_holds(t1, nb) {
        assert forall|i: int| 0 <= i < t1.binds@.len() implies bind_holds(
            t1,
            #[trigger] t1.binds@[i],
        ) by {
            if i < t0.binds@.len() {
                assert(t1.binds@[i] == t0.binds@[i]);
                assert(bind_holds(t0, t0.binds@[i]));
            } else {
                assert(t1.binds@[i] == nb);
            }
        };
    }
}

/// Acceptance of a completed run: a table synthesized from a known witness
/// on a fresh circuit verifies exactly when the public value at instance
/// row 2 equals the computed `a*x^2 + b*x`.  The hypotheses are what a
/// successful mock run guarantees of its result.
pub proof fn lemma_run_acceptance(p: MockProver, x: Felt, inst: Seq<Felt>)
    requires
        x.valid(),
        forall|i: int| 0 <= i < inst.len() ==> (#[trigger] inst[i]).valid(),
        inst.len() >= 3,
        p.config.advice == 0,
        p.config.instance == 0,
        p.config.add_config == (AddConfig { advice: 0, s_add: 0 }),
        p.config.mul_config == (MulConfig { advice: 0, s_mul: 1 }),
        p.cs.gates@ == seq![add_gate(p.config.add_config), mul_gate(p.config.mul_config)],
        p.table.rows == 16,
        p.table.instance@ == inst.map_values(|f: Felt| Value::Known(f)),
        p.table.cells@ == synth_cells(
            p.config,
            0,
            Value::Known(x),
            Value::Known(inst[0]),
            Value::Known(inst[1]),
            Value::Known(inst[2]),
        ),
        p.table.enabled@ == synth_enabled(p.config, 0),
        p.table.copies@ == synth_copies(p.config, 0),
        p.table.binds@ == synth_binds(p.config, 0),
    ensures
        satisfied(p.cs, p.table) <==> Value::Known(inst[2]) == solution_value(
            Value::Known(inst[0]),
            Value::Known(inst[1]),
            Value::Known(x),
        ),
{
    let t = p.table;
    let xv = Value::Known(x);
    let av = Value::Known(inst[0]);
    let bv = Value::Known(inst[1]);
    let cv = Value::Known(inst[2]);
    let x2v = xv.spec_mul(xv);
    let bxv = bv.spec_mul(xv);
    let ax2v = av.spec_mul(x2v);
    let outv = ax2v.spec_add(bxv);
    let vals = seq![xv, av, bv, cv, xv, xv, x2v, bv, xv, bxv, av, x2v, ax2v, ax2v, bxv, outv];
    assert(t.cells@.len() == 16);
    assert forall|i: int| 0 <= i < 16 implies (#[trigger] t.cells@[i]).cell
        == (CellRef { col: 0, row: i as usize }) && t.cells@[i].val == vals[i] by {
        assert(t.cells@[i] == (CellAssign {
            cell: CellRef { col: 0, row: i as usize },
            val: vals[i],
        }));
    };
    assert forall|i: int| 0 <= i < 16 implies cell_val(t.cells@, 0, i) == vals[i] by {
        lemma_cell_val_at_index(t.cells@, i);
    };
    // every value the run assigned is a known canonical value
    assert(x2v matches Value::Known(f) && f.valid());
    assert(bxv matches Value::Known(f) && f.valid());
    assert(ax2v matches Value::Known(f) && f.valid());
    assert(outv matches Value::Known(f) && f.valid());
    // the gates: the add identity on row 13, the mul identity on 4, 7, 10
    assert(t.enabled@.len() == 4);
    assert(t.enabled@[0] == (crate::table::SelEnable { selector: 1, row: 4 }));
    assert(t.enabled@[1] == (crate::table::SelEnable { selector: 1, row: 7 }));
    assert(t.enabled@[2] == (crate::table::SelEnable { selector: 1, row: 10 }));
    assert(t.enabled@[3] == (crate::table::SelEnable { selector: 0, row: 13 }));
    assert(gate_window_ok(t, p.cs.gates@[1], 4)) by {
        lemma_identity_iff(GateKind::MulGate, x.v as int, x.v as int, x2v->0.v as int);
    }
    assert(gate_window_ok(t, p.cs.gates@[1], 7)) by {
        lemma_identity_iff(GateKind::MulGate, inst[1].v as int, x.v as int, bxv->0.v as int);
    }
    assert(gate_window_ok(t, p.cs.gates@[1], 10)) by {
        lemma_identity_iff(GateKind::MulGate, inst[0].v as int, x2v->0.v as int, ax2v->0.v as int);
    }
    assert(gate_window_ok(t, p.cs.gates@[0], 13)) by {
        lemma_identity_iff(GateKind::AddGate, ax2v->0.v as int, bxv->0.v as int, outv->0.v as int);
    }
    assert forall|gi: int, row: int| 0 <= gi < p.cs.gates@.len() implies #[trigger] gate_row_ok(
        t,
        p.cs.gates@[gi],
        row,
    ) by {
        if crate::checker::is_enabled(t, p.cs.gates@[gi].selector as int, row) {
            let g = p.cs.gates@[gi];
            let i = choose|i: int|
                0 <= i < t.enabled@.len() && (#[trigger] t.enabled@[i]).selector
                    == g.selector as int && t.enabled@[i].row == row;
            assert(0 <= i < 4);
        }
    };
    // the copy constraints: each operand cell repeats its source's value
    assert(t.copies@.len() == 8);
    assert forall|i: int| 0 <= i < t.copies@.len() implies copy_holds(
        t,
        #[trigger] t.copies@[i],
    ) by {
        assert(0 <= i < 8);
    };
    // the bindings: the three constants always match their instance rows;
    // the exposed result matches exactly when the public value does
    assert(t.binds@.len() == 4);
    assert(t.binds@[0] == (InstanceBind { cell: CellRef { col: 0, row: 1 }, row: 0 }));
    assert(t.binds@[1] == (InstanceBind { cell: CellRef { col: 0, row: 2 }, row: 1 }));
    assert(t.binds@[2] == (InstanceBind { cell: CellRef { col: 0, row: 3 }, row: 2 }));
    assert(t.binds@[3] == (InstanceBind { cell: CellRef { col: 0, row: 15 }, row: 2 }));
    assert(t.instance@[0] == av && t.instance@[1] == bv && t.instance@[2] == cv);
    assert(bind_holds(t, t.binds@[0]));
    assert(bind_holds(t, t.binds@[1]));
    assert(bind_holds(t, t.binds@[2]));
    assert(bind_holds(t, t.binds@[3]) <==> cv == outv);
    if cv == outv {
        assert forall|i: int| 0 <= i < t.binds@.len() implies bind_holds(
            t,
            #[trigger] t.binds@[i],
        ) by {
            assert(0 <= i < 4);
        };
    }
    if binds_ok(t) {
        assert(bind_holds(t, t.binds@[3]));
    }
    assert(solution_value(av, bv, xv) == outv);
}

/// Determinism: two synthesis runs from the same table, with the same
/// configuration and the same witness, produce identical assigned tables
/// and identical constraint sets.
pub proof fn lemma_synthesis_deterministic(
    c: SolutionConfig,
    t0: Table,
    x: Value,
    t1: Table,
    t2: Table,
)
    requires
        synthesized(c, t0, x, t1),
        synthesized(c, t0, x, t2),
    ensures
        t1.rows == t2.rows,
        t1.max_rows == t2.max_rows,
        t1.instance@ == t2.instance@,
        t1.cells@ == t2.cells@,
        t1.enabled@ == t2.enabled@,
        t1.copies@ == t2.copies@,
        t1.binds@ == t2.binds@,
{
}

} // verus!
