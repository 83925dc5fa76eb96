use vstd::prelude::*;
use crate::chip::{FibChip, FibConfig};
use crate::felt::fadd;
use crate::lazy::{spec_add_of, LazyFelt};
use crate::table::{CellInfo, CellRef, Row, SynthesisError, Wire};

verus! {

/// The recurrence over the field: `f(0) = a`, `f(1) = b`,
/// `f(n) = f(n-1) + f(n-2)` in field arithmetic.
pub open spec fn fib_val(a: nat, b: nat, n: nat) -> nat
    decreases n,
{
    if n == 0 {
        a
    } else if n == 1 {
        b
    } else {
        fadd(fib_val(a, b, (n - 2) as nat), fib_val(a, b, (n - 1) as nat))
    }
}

/// Whether the deferred recurrence term at index `n` is concrete: the first
/// two terms are their respective inputs, every later term needs both.
pub open spec fn lazy_fib_known(a: LazyFelt, b: LazyFelt, n: nat) -> bool {
    if n == 0 {
        a.is_known()
    } else if n == 1 {
        b.is_known()
    } else {
        a.is_known() && b.is_known()
    }
}

/// What a cell standing for recurrence term `n` must hold: the concrete,
/// reduced term whenever its dependencies are known, and a placeholder
/// otherwise — the topology is identical with or without witness data.
pub open spec fn cell_matches(c: LazyFelt, a: LazyFelt, b: LazyFelt, n: nat) -> bool {
    if lazy_fib_known(a, b, n) {
        c.is_known() && c.wf() && c.value() == fib_val(a.value(), b.value(), n)
    } else {
        c == LazyFelt::Unknown
    }
}

/// What row `x` of the synthesized table must be: inputs are terms `x` and
/// `x + 1`, the output is term `x + 2` — except on the terminal row, where
/// the claimed final value is substituted verbatim — the selector is active,
/// and every row after the first is copy-constrained to the previous row's
/// output on wire `c`.
pub open spec fn row_matches(
    r: Row,
    a: LazyFelt,
    b: LazyFelt,
    z: LazyFelt,
    k: usize,
    x: int,
) -> bool {
    &&& r.selector
    &&& cell_matches(r.a, a, b, x as nat)
    &&& cell_matches(r.b, a, b, (x + 1) as nat)
    &&& if x == k - 2 {
        r.c == z
    } else {
        cell_matches(r.c, a, b, (x + 2) as nat)
    }
    &&& match r.b_copy {
        Some(cr) => x >= 1 && cr.wire == Wire::C && cr.row == x - 1,
        None => x == 0,
    }
}

/// The full witness table for inputs `(a, b, k, z)`: one row per step of
/// the recurrence, `k - 1` in all.
pub open spec fn table_matches(t: Seq<Row>, a: LazyFelt, b: LazyFelt, z: LazyFelt, k: usize) -> bool {
    &&& t.len() == k - 1
    &&& forall|x: int| 0 <= x < t.len() ==> row_matches(#[trigger] t[x], a, b, z, k, x)
}

/// Composing two consecutive deferred terms yields the next one.
proof fn lemma_cell_step(a: LazyFelt, b: LazyFelt, p: LazyFelt, q: LazyFelt, r: LazyFelt, n: nat)
    requires
        cell_matches(p, a, b, n),
        cell_matches(q, a, b, (n + 1) as nat),
        spec_add_of(p, q, r),
    ensures
        cell_matches(r, a, b, (n + 2) as nat),
{
}

/// The circuit: the secret first two terms, the claimed index, and the
/// claimed final value. An input left out stands for the structural pass,
/// which must succeed with no witness data at all.
///
/// The index is deliberately left out of the relation itself: no cell binds
/// it to a public slot, so its public or private role is unconstrained here
/// and a caller that wants it public must expose it alongside the proof.
#[derive(Clone, Copy, Debug, PartialEq, Eq, Structural)]
pub struct FibCircuit {
    pub a: LazyFelt,
    pub b: LazyFelt,
    pub k: Option<usize>,
    pub z: LazyFelt,
}

impl FibCircuit {
    /// Inputs carry reduced payloads.
    pub open spec fn wf(self) -> bool {
        self.a.wf() && self.b.wf() && self.z.wf()
    }

    /// The structural variant of this circuit: same topology, no witnesses.
    pub fn without_witnesses(&self) -> (r: Self)
        ensures
            r == (FibCircuit {
                a: LazyFelt::Unknown,
                b: LazyFelt::Unknown,
                k: None::<usize>,
                z: LazyFelt::Unknown,
            }),
    {
        FibCircuit { a: LazyFelt::Unknown, b: LazyFelt::Unknown, k: None, z: LazyFelt::Unknown }
    }

    /// The structural phase: declares the wires and the row identity once and grants
    /// copy-constraint permission on every wire.
    pub fn configure() -> (r: FibConfig)
        ensures
            r == (FibConfig { eq_a: true, eq_b: true, eq_c: true }),
    {
        FibChip::configure()
    }

    /// The recurrence driver. Walks the recurrence for `k - 1` steps,
    /// feeding each step's two terms to the row assignment engine, threading
    /// the previous output cell forward as the next row's copy-constrained
    /// `b` input, and substituting the claimed value on the terminal row.
    ///
    /// An unknown index synthesizes the empty table (the structural pass);
    /// an index below two is rejected; a chaining copy without permission on
    /// the source wire is a fatal structural error, possible only when the
    /// table has at least two rows.
    pub fn synthesize(&self, config: &FibConfig) -> (r: Result<Vec<Row>, SynthesisError>)
        requires
            self.wf(),
        ensures
            match self.k {
                None => r matches Ok(rows) && rows@.len() == 0,
                Some(k) => if k < 2 {
                    r == Err::<Vec<Row>, SynthesisError>(SynthesisError::IndexTooSmall)
                } else if k == 2 || config.permits(Wire::C) {
                    match r {
                        Ok(rows) => {
                            &&& table_matches(rows@, self.a, self.b, self.z, k)
                            &&& forall|x: int| 0 <= x < rows@.len() ==> (#[trigger] rows@[x]).wf()
                        },
                        Err(_) => false,
                    }
                } else {
                    r == Err::<Vec<Row>, SynthesisError>(SynthesisError::CopyNotPermitted)
                },
            },
    {
        let chip = FibChip::construct(*config);
        let mut rows: Vec<Row> = Vec::new();
        let k: usize = match self.k {
            None => {
                return Ok(rows);
            },
            Some(k) => k,
        };
        if k < 2 {
            return Err(SynthesisError::IndexTooSmall);
        }
        let mut f0 = self.a;
        let mut f1 = self.b;
        let mut carry: Option<CellInfo> = None;
        let mut x: usize = 0;
        while x < k - 1
            invariant
                self.wf(),
                self.k == Some(k),
                2 <= k,
                x <= k - 1,
                chip.config == *config,
                rows@.len() == x,
                forall|i: int|
                    0 <= i < x ==> row_matches(#[trigger] rows@[i], self.a, self.b, self.z, k, i)
                        && rows@[i].wf(),
                f0.wf(),
                f1.wf(),
                cell_matches(f0, self.a, self.b, x as nat),
                cell_matches(f1, self.a, self.b, (x + 1) as nat),
                match carry {
                    Some(c) => {
                        &&& x >= 1
                        &&& c.refr.wire == Wire::C
                        &&& c.refr.row == x - 1
                        &&& c.value.wf()
                        &&& x < k - 1 ==> cell_matches(c.value, self.a, self.b, (x + 1) as nat)
                    },
                    None => x == 0,
                },
                x >= 2 ==> config.permits(Wire::C),
            decreases k - 1 - x,
        {
            let is_last = x == k - 2;
            let rw = match chip.assign_row(f0, f1, carry, self.z, is_last) {
                Ok(rw) => rw,
                Err(e) => {
                    return Err(e);
                },
            };
            proof {
                if !is_last {
                    lemma_cell_step(self.a, self.b, rw.a, rw.b, rw.c, x as nat);
                }
            }
            rows.push(rw);
            carry = Some(CellInfo { refr: CellRef { wire: Wire::C, row: x }, value: rw.c });
            let f2 = f0.add(f1);
            proof {
                lemma_cell_step(self.a, self.b, f0, f1, f2, x as nat);
            }
            f0 = f1;
            f1 = f2;
            x = x + 1;
        }
        Ok(rows)
    }
}

} // verus!
