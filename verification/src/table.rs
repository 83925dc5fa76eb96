use vstd::prelude::*;
use crate::felt::{fadd, lemma_val_injective};
use crate::lazy::LazyFelt;

verus! {

/// The three per-row wires of one row's identity: two inputs and an output.
#[derive(Clone, Copy, Debug, PartialEq, Eq, Structural, Hash)]
pub enum Wire {
    A,
    B,
    C,
}

/// A non-owning reference to one cell of the table: a wire and a row offset.
#[derive(Clone, Copy, Debug, PartialEq, Eq, Structural, Hash)]
pub struct CellRef {
    pub wire: Wire,
    pub row: usize,
}

/// A handle to a cell that has already been assigned: where it sits and
/// the deferred value it carries. It is what one row hands the next so the
/// chain can be copy-constrained, never a second owner of the value.
#[derive(Clone, Copy, Debug, PartialEq, Eq, Structural)]
pub struct CellInfo {
    pub refr: CellRef,
    pub value: LazyFelt,
}

/// One row of the witness table: three assigned cells, the selector flag
/// that activates the identity check there, and the copy constraint, if any, tying
/// wire `b` back to an earlier cell.
#[derive(Clone, Copy, Debug, PartialEq, Eq, Structural)]
pub struct Row {
    pub a: LazyFelt,
    pub b: LazyFelt,
    pub c: LazyFelt,
    pub selector: bool,
    pub b_copy: Option<CellRef>,
}

impl Row {
    /// All three cells carry reduced payloads.
    pub open spec fn wf(self) -> bool {
        self.a.wf() && self.b.wf() && self.c.wf()
    }
}

/// How synthesis can fail. A structural error is fatal and never retried;
/// an index below two is rejected outright rather than yielding a vacuous
/// zero-row claim.
#[derive(Clone, Copy, Debug, PartialEq, Eq, Structural, Hash)]
pub enum SynthesisError {
    /// The claimed index admits no row: the recurrence needs at least two terms.
    IndexTooSmall,
    /// A chaining copy was requested from a wire that was never granted
    /// copy-constraint permission: a configuration error, not a data error.
    CopyNotPermitted,
}

/// The cell a reference points at within a row.
pub open spec fn cell_of(r: Row, w: Wire) -> LazyFelt {
    match w {
        Wire::A => r.a,
        Wire::B => r.b,
        Wire::C => r.c,
    }
}

/// The polynomial identity at one row: where the selector is active, all three
/// cells must be concrete and the output must be the field sum of the two
/// inputs. An unknown cell under an active selector cannot satisfy it.
pub open spec fn gate_holds(r: Row) -> bool {
    r.selector ==> match (r.a, r.b, r.c) {
        (LazyFelt::Known(fa), LazyFelt::Known(fb), LazyFelt::Known(fc)) => fc.val() == fadd(
            fa.val(),
            fb.val(),
        ),
        _ => false,
    }
}

/// The copy constraint at one row: if wire `b` is tied to an earlier cell,
/// that cell must exist strictly earlier in the table and hold the same
/// value (canonical representatives make value equality cell equality).
pub open spec fn copy_ok(t: Seq<Row>, x: int) -> bool {
    match t[x].b_copy {
        Some(cr) => cr.row < x && cell_of(t[cr.row as int], cr.wire) == t[x].b,
        None => true,
    }
}

/// A table is accepted when every row's gate and every copy constraint hold.
pub open spec fn table_ok(t: Seq<Row>) -> bool {
    forall|x: int| 0 <= x < t.len() ==> gate_holds(#[trigger] t[x]) && copy_ok(t, x)
}

/// Reads the cell a reference's wire selects.
pub fn cell_at(r: &Row, w: Wire) -> (c: LazyFelt)
    ensures
        c == cell_of(*r, w),
{
    match w {
        Wire::A => r.a,
        Wire::B => r.b,
        Wire::C => r.c,
    }
}

/// Decides the polynomial identity at one row.
pub fn row_gate_check(r: &Row) -> (res: bool)
    requires
        r.wf(),
    ensures
        res == gate_holds(*r),
{
    if !r.selector {
        return true;
    }
    match (r.a, r.b, r.c) {
        (LazyFelt::Known(fa), LazyFelt::Known(fb), LazyFelt::Known(fc)) => {
            let s = fa.add(fb);
            proof {
                if fc.val() == s.val() {
                    lemma_val_injective(fc, s);
                }
            }
            fc == s
        },
        _ => false,
    }
}

/// Decides the copy constraint at one row of the table.
pub fn row_copy_check(rows: &Vec<Row>, x: usize) -> (res: bool)
    requires
        x < rows@.len(),
    ensures
        res == copy_ok(rows@, x as int),
{
    match rows[x].b_copy {
        None => true,
        Some(cr) => {
            if cr.row < x {
                let src = cell_at(&rows[cr.row], cr.wire);
                src == rows[x].b
            } else {
                false
            }
        },
    }
}

/// Decides whether a complete witness table satisfies every gate and every
/// copy constraint: the check the external satisfiability pass performs,
/// stated over the model.
pub fn table_check(rows: &Vec<Row>) -> (res: bool)
    requires
        forall|i: int| 0 <= i < rows@.len() ==> (#[trigger] rows@[i]).wf(),
    ensures
        res == table_ok(rows@),
{
    let n = rows.len();
    let mut x: usize = 0;
    while x < n
        invariant
            n == rows@.len(),
            x <= n,
            forall|i: int| 0 <= i < rows@.len() ==> (#[trigger] rows@[i]).wf(),
            forall|i: int| 0 <= i < x ==> gate_holds(#[trigger] rows@[i]) && copy_ok(rows@, i),
        decreases n - x,
    {
        let rw = rows[x];
        if !row_gate_check(&rw) {
            return false;
        }
        if !row_copy_check(rows, x) {
            return false;
        }
        x = x + 1;
    }
    true
}

} // verus!
