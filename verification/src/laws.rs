use vstd::prelude::*;
use crate::circuit::{cell_matches, fib_val, row_matches, table_matches};
use crate::felt::{lemma_val_injective, Felt};
use crate::lazy::LazyFelt;
use crate::table::{cell_of, copy_ok, gate_holds, table_ok, CellRef, Row, Wire};

verus! {

/// Two cells that both stand for recurrence term `n` are the same cell
/// value: canonical representation leaves no slack.
proof fn lemma_cell_unique(c1: LazyFelt, c2: LazyFelt, a: LazyFelt, b: LazyFelt, n: nat)
    requires
        cell_matches(c1, a, b, n),
        cell_matches(c2, a, b, n),
    ensures
        c1 == c2,
{
    match (c1, c2) {
        (LazyFelt::Known(f1), LazyFelt::Known(f2)) => {
            lemma_val_injective(f1, f2);
        },
        _ => {},
    }
}

/// Completeness: whenever the claimed value truly is the recurrence term at
/// the claimed index, the synthesized witness satisfies every gate and
/// every copy constraint.
pub proof fn lemma_completeness(t: Seq<Row>, a: Felt, b: Felt, z: Felt, k: usize)
    requires
        a.wf(),
        b.wf(),
        z.wf(),
        k >= 2,
        z.val() == fib_val(a.val(), b.val(), k as nat),
        table_matches(t, LazyFelt::Known(a), LazyFelt::Known(b), LazyFelt::Known(z), k),
    ensures
        forall|x: int| 0 <= x < t.len() ==> gate_holds(#[trigger] t[x]),
        forall|x: int| 0 <= x < t.len() ==> copy_ok(t, x),
        table_ok(t),
{
    let la = LazyFelt::Known(a);
    let lb = LazyFelt::Known(b);
    assert forall|x: int| 0 <= x < t.len() implies gate_holds(#[trigger] t[x]) by {
        assert(row_matches(t[x], la, lb, LazyFelt::Known(z), k, x));
        if x == k - 2 {
            assert(fib_val(a.val(), b.val(), k as nat) == crate::felt::fadd(
                fib_val(a.val(), b.val(), (k - 2) as nat),
                fib_val(a.val(), b.val(), (k - 1) as nat),
            ));
        }
    }
    lemma_chaining(t, la, lb, LazyFelt::Known(z), k);
    assert forall|x: int| 0 <= x < t.len() implies copy_ok(t, x) by {
        assert(row_matches(t[x], la, lb, LazyFelt::Known(z), k, x));
    }
}

/// Soundness: whenever the claimed value is not the recurrence term at the
/// claimed index, the identity at the terminal row is violated, so the witness
/// cannot be accepted.
pub proof fn lemma_soundness(t: Seq<Row>, a: Felt, b: Felt, z: Felt, k: usize)
    requires
        a.wf(),
        b.wf(),
        z.wf(),
        k >= 2,
        z.val() != fib_val(a.val(), b.val(), k as nat),
        table_matches(t, LazyFelt::Known(a), LazyFelt::Known(b), LazyFelt::Known(z), k),
    ensures
        0 <= k - 2 < t.len(),
        !gate_holds(t[k - 2]),
        !table_ok(t),
{
    let x: int = k - 2;
    assert(row_matches(t[x], LazyFelt::Known(a), LazyFelt::Known(b), LazyFelt::Known(z), k, x));
    assert(fib_val(a.val(), b.val(), k as nat) == crate::felt::fadd(
        fib_val(a.val(), b.val(), (k - 2) as nat),
        fib_val(a.val(), b.val(), (k - 1) as nat),
    ));
}

/// Chaining invariant: in every synthesized table, each row after the first
/// is copy-constrained to the previous row's output on wire `c`, and its
/// `b` cell holds that cell's exact value — the constraint is satisfied by
/// construction, witnesses or no witnesses.
pub proof fn lemma_chaining(t: Seq<Row>, a: LazyFelt, b: LazyFelt, z: LazyFelt, k: usize)
    requires
        z.wf(),
        k >= 2,
        table_matches(t, a, b, z, k),
    ensures
        forall|x: int|
            1 <= x < t.len() ==> #[trigger] t[x].b_copy == Some(
                CellRef { wire: Wire::C, row: (x - 1) as usize },
            ) && t[x].b == t[x - 1].c,
        forall|x: int| 0 <= x < t.len() ==> copy_ok(t, x),
{
    assert forall|x: int| 1 <= x < t.len() implies #[trigger] t[x].b_copy == Some(
        CellRef { wire: Wire::C, row: (x - 1) as usize },
    ) && t[x].b == t[x - 1].c by {
        assert(row_matches(t[x], a, b, z, k, x));
        assert(row_matches(t[x - 1], a, b, z, k, x - 1));
        lemma_cell_unique(t[x].b, t[x - 1].c, a, b, (x + 1) as nat);
    }
    assert forall|x: int| 0 <= x < t.len() implies copy_ok(t, x) by {
        assert(row_matches(t[x], a, b, z, k, x));
        if x >= 1 {
            assert(t[x].b_copy == Some(CellRef { wire: Wire::C, row: (x - 1) as usize }));
            assert(cell_of(t[x - 1], Wire::C) == t[x - 1].c);
        }
    }
}

/// Determinism: two witness tables synthesized from the same inputs are
/// identical, row for row and cell for cell.
pub proof fn lemma_determinism(
    t1: Seq<Row>,
    t2: Seq<Row>,
    a: LazyFelt,
    b: LazyFelt,
    z: LazyFelt,
    k: usize,
)
    requires
        k >= 2,
        table_matches(t1, a, b, z, k),
        table_matches(t2, a, b, z, k),
    ensures
        t1 == t2,
{
    assert forall|x: int| 0 <= x < t1.len() implies t1[x] == t2[x] by {
        assert(row_matches(t1[x], a, b, z, k, x));
        assert(row_matches(t2[x], a, b, z, k, x));
        lemma_cell_unique(t1[x].a, t2[x].a, a, b, x as nat);
        lemma_cell_unique(t1[x].b, t2[x].b, a, b, (x + 1) as nat);
        if x != k - 2 {
            lemma_cell_unique(t1[x].c, t2[x].c, a, b, (x + 2) as nat);
        }
        match (t1[x].b_copy, t2[x].b_copy) {
            (Some(cr1), Some(cr2)) => {
                assert(cr1 == cr2);
            },
            _ => {},
        }
    }
    assert(t1 =~= t2);
}

} // verus!
