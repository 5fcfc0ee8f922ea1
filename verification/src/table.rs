use vstd::prelude::*;

use crate::field::{Felt, Value};

verus! {

/// Identifies one advice cell: an advice column index and an absolute row.
#[derive(Clone, Copy, Debug, PartialEq, Eq, Structural)]
pub struct CellRef {
    pub col: usize,
    pub row: usize,
}

/// One advice assignment made during synthesis.
#[derive(Clone, Copy, Debug, PartialEq, Eq, Structural)]
pub struct CellAssign {
    pub cell: CellRef,
    pub val: Value,
}

/// A selector enabled on one absolute row.
#[derive(Clone, Copy, Debug, PartialEq, Eq, Structural)]
pub struct SelEnable {
    pub selector: usize,
    pub row: usize,
}

/// An equality (copy) constraint between two advice cells: the external
/// proving system must check that both cells hold identical values.
#[derive(Clone, Copy, Debug, PartialEq, Eq, Structural)]
pub struct CopyConstraint {
    pub left: CellRef,
    pub right: CellRef,
}

/// A binding of an advice cell to a row of the instance column: the cell's
/// value must equal the externally supplied public value at that row.
#[derive(Clone, Copy, Debug, PartialEq, Eq, Structural)]
pub struct InstanceBind {
    pub cell: CellRef,
    pub row: usize,
}

/// A wire: one assigned table cell together with the witness value that was
/// placed there.  Wires are produced by assignment operations and consumed
/// by copy constraints; they never own their cell beyond that identity.
#[derive(Clone, Copy, Debug, PartialEq, Eq, Structural)]
pub struct Number {
    pub cell: CellRef,
    pub value: Value,
}

/// Names the operation whose region an error arose in, mirroring the
/// contextual region names handed to the allocator ("add", "mul",
/// "load private", "load constants", "expose public").
#[derive(Clone, Copy, Debug, PartialEq, Eq, Structural)]
pub enum RegionName {
    AddRegion,
    MulRegion,
    LoadPrivate,
    LoadConstants,
    ExposePublic,
}

/// A synthesis error.  All errors abort synthesis immediately; there is no
/// partial success or retry path.
#[derive(Clone, Copy, Debug, PartialEq, Eq, Structural)]
pub enum SynthError {
    /// The region allocator cannot place the region: the table is exhausted.
    Layout(RegionName),
    /// A copy or instance binding refers to a wire that is not consistently
    /// assigned in the table.
    Constraint(RegionName),
}

/// The value held by an advice cell: the value of the last assignment made
/// to it, or unknown if the cell was never assigned.
pub open spec fn cell_val(cells: Seq<CellAssign>, col: int, row: int) -> Value
    decreases cells.len(),
{
    if cells.len() == 0 {
        Value::Unknown
    } else if cells.last().cell.col == col && cells.last().cell.row == row {
        cells.last().val
    } else {
        cell_val(cells.drop_last(), col, row)
    }
}

/// Appending one assignment changes only the value of its own cell.
pub proof fn lemma_cell_val_push(cells: Seq<CellAssign>, x: CellAssign, col: int, row: int)
    ensures
        cell_val(cells.push(x), col, row) == if x.cell.col == col && x.cell.row == row {
            x.val
        } else {
            cell_val(cells, col, row)
        },
{
    assert(cells.push(x).drop_last() =~= cells);
    assert(cells.push(x).last() == x);
}

/// Appending assignments that avoid a cell leaves that cell's value as it
/// was: a region laid out later cannot silently change an earlier cell.
pub proof fn lemma_cell_val_append(cells: Seq<CellAssign>, extra: Seq<CellAssign>, col: int, row: int)
    requires
        forall|j: int| 0 <= j < extra.len()
            ==> !((#[trigger] extra[j]).cell.col == col && extra[j].cell.row == row),
    ensures
        cell_val(cells + extra, col, row) == cell_val(cells, col, row),
    decreases extra.len(),
{
    if extra.len() == 0 {
        assert(cells + extra =~= cells);
    } else {
        let prefix = extra.drop_last();
        assert(cells + extra =~= (cells + prefix).push(extra.last()));
        lemma_cell_val_push(cells + prefix, extra.last(), col, row);
        lemma_cell_val_append(cells, prefix, col, row);
    }
}

/// A cell on a row that no assignment reaches is unknown.
pub proof fn lemma_cell_val_unassigned(cells: Seq<CellAssign>, bound: int, col: int, row: int)
    requires
        forall|i: int| 0 <= i < cells.len() ==> (#[trigger] cells[i]).cell.row < bound,
        row >= bound,
    ensures
        cell_val(cells, col, row) == Value::Unknown,
    decreases cells.len(),
{
    if cells.len() > 0 {
        assert(cells.last() == cells[cells.len() - 1]);
        lemma_cell_val_unassigned(cells.drop_last(), bound, col, row);
    }
}

/// In a list of assignments whose later entries all touch other cells,
/// an assignment's cell holds exactly the value it wrote.
pub proof fn lemma_cell_val_at_index(cells: Seq<CellAssign>, i: int)
    requires
        0 <= i < cells.len(),
        forall|j: int| i < j < cells.len() ==> (#[trigger] cells[j]).cell != cells[i].cell,
    ensures
        cell_val(cells, cells[i].cell.col as int, cells[i].cell.row as int) == cells[i].val,
    decreases cells.len(),
{
    assert(cells.last() == cells[cells.len() - 1]);
    if i < cells.len() - 1 {
        lemma_cell_val_at_index(cells.drop_last(), i);
    }
}

/// A wire stays consistent with the table when later regions append
/// assignments on fresh rows only.
pub proof fn lemma_wire_ok_extend(t0: Table, t1: Table, extra: Seq<CellAssign>, n: Number)
    requires
        t0.wire_ok(n),
        t1.cells@ == t0.cells@ + extra,
        forall|j: int| 0 <= j < extra.len() ==> (#[trigger] extra[j]).cell.row >= t0.rows,
        t1.rows >= t0.rows,
    ensures
        t1.wire_ok(n),
        t1.spec_cell(n.cell.col as int, n.cell.row as int) == n.value,
{
    lemma_cell_val_append(t0.cells@, extra, n.cell.col as int, n.cell.row as int);
}

/// A cell lookup never yields a value that is out of canonical form, as
/// long as every assignment wrote a canonical value.
pub proof fn lemma_cell_val_valid(cells: Seq<CellAssign>, col: int, row: int)
    requires
        forall|i: int| 0 <= i < cells.len() ==> (#[trigger] cells[i]).val.valid(),
    ensures
        cell_val(cells, col, row).valid(),
    decreases cells.len(),
{
    if cells.len() > 0 {
        assert(cells.last() == cells[cells.len() - 1]);
        lemma_cell_val_valid(cells.drop_last(), col, row);
    }
}

/// The proving table under construction during one synthesis pass: the rows
/// handed out to regions so far, the advice assignments in the order they
/// were made, the selector enablings, and the two constraint sets that the
/// external proving system later checks.
#[derive(Clone, Debug, PartialEq, Eq)]
pub struct Table {
    /// Total number of rows the table offers.
    pub max_rows: usize,
    /// Rows already handed out; regions own disjoint windows below this mark.
    pub rows: usize,
    /// The instance column, supplied externally per row.
    pub instance: Vec<Value>,
    /// Advice assignments, in order of creation.
    pub cells: Vec<CellAssign>,
    /// Selector enablings.
    pub enabled: Vec<SelEnable>,
    /// Equality (copy) constraints.
    pub copies: Vec<CopyConstraint>,
    /// Bindings of advice cells to instance rows.
    pub binds: Vec<InstanceBind>,
}

impl Table {
    /// Well-formedness: the allocator never hands out more rows than exist,
    /// every assignment lands on a row some region owns, and every value in
    /// the table is canonical.
    pub open spec fn wf(self) -> bool {
        &&& self.rows <= self.max_rows
        &&& forall|i: int| 0 <= i < self.cells@.len()
            ==> (#[trigger] self.cells@[i]).cell.row < self.rows && self.cells@[i].val.valid()
        &&& forall|i: int| 0 <= i < self.instance@.len() ==> (#[trigger] self.instance@[i]).valid()
    }

    /// The value currently held by an advice cell.
    pub open spec fn spec_cell(self, col: int, row: int) -> Value {
        cell_val(self.cells@, col, row)
    }

    /// A wire is consistent with the table: its cell lies in an allocated
    /// region and holds exactly the value the wire carries.
    pub open spec fn wire_ok(self, n: Number) -> bool {
        &&& n.cell.row < self.rows
        &&& self.spec_cell(n.cell.col as int, n.cell.row as int) == n.value
        &&& n.value.valid()
    }

    /// Creates an empty table with the given number of rows and the given
    /// externally supplied instance column.
    pub fn new(max_rows: usize, instance: Vec<Value>) -> (r: Table)
        requires
            forall|i: int| 0 <= i < instance@.len() ==> (#[trigger] instance@[i]).valid(),
        ensures
            r.max_rows == max_rows,
            r.rows == 0,
            r.instance@ == instance@,
            r.cells@ == Seq::<CellAssign>::empty(),
            r.enabled@ == Seq::<SelEnable>::empty(),
            r.copies@ == Seq::<CopyConstraint>::empty(),
            r.binds@ == Seq::<InstanceBind>::empty(),
            r.wf(),
    {
        Table {
            max_rows,
            rows: 0,
            instance,
            cells: Vec::new(),
            enabled: Vec::new(),
            copies: Vec::new(),
            binds: Vec::new(),
        }
    }

    /// Looks up the value currently assigned to a cell.
    pub fn lookup(&self, cell: CellRef) -> (r: Value)
        ensures
            r == self.spec_cell(cell.col as int, cell.row as int),
    {
        let ghost col: int = cell.col as int;
        let ghost row: int = cell.row as int;
        let mut i: usize = self.cells.len();
        proof {
            assert(self.cells@.take(i as int) =~= self.cells@);
        }
        while i > 0
            invariant
                i <= self.cells@.len(),
                col == cell.col as int,
                row == cell.row as int,
                cell_val(self.cells@, col, row) == cell_val(self.cells@.take(i as int), col, row),
            decreases i,
        {
            let c = self.cells[i - 1];
            proof {
                let s = self.cells@.take(i as int);
                assert(s.len() == i);
                assert(s.last() == self.cells@[i - 1]);
                assert(s.drop_last() =~= self.cells@.take(i - 1));
                assert(cell_val(s, col, row) == if s.last().cell.col == col
                    && s.last().cell.row == row {
                    s.last().val
                } else {
                    cell_val(s.drop_last(), col, row)
                });
            }
            if c.cell.col == cell.col && c.cell.row == cell.row {
                return c.val;
            }
            i = i - 1;
        }
        proof {
            assert(self.cells@.take(0) =~= Seq::<CellAssign>::empty());
        }
        Value::Unknown
    }
}

} // verus!
