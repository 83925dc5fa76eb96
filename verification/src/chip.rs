use vstd::prelude::*;
use crate::lazy::{spec_add_of, LazyFelt};
use crate::table::{CellInfo, CellRef, Row, SynthesisError, Wire};

verus! {

/// The configuration handle the structural phase produces: it records, for
/// each of the three wires, whether external equality (copy) constraints
/// were declared permitted on it. It is the only structural output the
/// assignment phase needs.
#[derive(Clone, Copy, Debug, PartialEq, Eq, Structural, Hash)]
pub struct FibConfig {
    pub eq_a: bool,
    pub eq_b: bool,
    pub eq_c: bool,
}

impl FibConfig {
    /// Whether copy constraints were permitted on a wire.
    pub open spec fn permits(self, w: Wire) -> bool {
        match w {
            Wire::A => self.eq_a,
            Wire::B => self.eq_b,
            Wire::C => self.eq_c,
        }
    }
}

/// The row assignment engine, bound to one configuration.
pub struct FibChip {
    pub config: FibConfig,
}

impl FibChip {
    /// Binds a chip to a configuration.
    pub fn construct(cnfg: FibConfig) -> (r: Self)
        ensures
            r.config == cnfg,
    {
        FibChip { config: cnfg }
    }

    /// The structural phase: registers the row identity `selector * (a + b - c) = 0`
    /// over the three wires and declares copy-constraint permission on each
    /// of them, a prerequisite for chaining any row to another.
    pub fn configure() -> (r: FibConfig)
        ensures
            r == (FibConfig { eq_a: true, eq_b: true, eq_c: true }),
    {
        FibConfig { eq_a: true, eq_b: true, eq_c: true }
    }

    /// Checks whether a wire was granted copy-constraint permission.
    pub fn permits_copy(&self, w: Wire) -> (r: bool)
        ensures
            r == self.config.permits(w),
    {
        match w {
            Wire::A => self.config.eq_a,
            Wire::B => self.config.eq_b,
            Wire::C => self.config.eq_c,
        }
    }

    /// Assigns one row: wire `a` takes the first input; wire `b` either
    /// copies the carried-in cell (chaining this row to an earlier one) or
    /// takes the second input directly; wire `c` takes the deferred sum
    /// `a + b`, except on the terminal row, where the claimed final value is
    /// substituted so the same gate checks that the recurrence ends there.
    /// The selector is activated unconditionally.
    ///
    /// Fails, fatally, when the carried cell sits on a wire that was never
    /// granted copy-constraint permission.
    pub fn assign_row(
        &self,
        a: LazyFelt,
        b: LazyFelt,
        carry: Option<CellInfo>,
        z: LazyFelt,
        is_last: bool,
    ) -> (r: Result<Row, SynthesisError>)
        requires
            a.wf(),
            b.wf(),
            z.wf(),
            match carry {
                Some(c) => c.value.wf(),
                None => true,
            },
        ensures
            match r {
                Ok(rw) => {
                    &&& match carry {
                        Some(c) => self.config.permits(c.refr.wire),
                        None => true,
                    }
                    &&& rw.selector
                    &&& rw.a == a
                    &&& rw.b == match carry {
                        Some(c) => c.value,
                        None => b,
                    }
                    &&& if is_last {
                        rw.c == z
                    } else {
                        spec_add_of(rw.a, rw.b, rw.c)
                    }
                    &&& rw.b_copy == match carry {
                        Some(c) => Some(c.refr),
                        None => None::<CellRef>,
                    }
                    &&& rw.wf()
                },
                Err(e) => {
                    &&& e == SynthesisError::CopyNotPermitted
                    &&& match carry {
                        Some(c) => !self.config.permits(c.refr.wire),
                        None => false,
                    }
                },
            },
    {
        let (b_cell, b_copy) = match carry {
            Some(c) => {
                if !self.permits_copy(c.refr.wire) {
                    return Err(SynthesisError::CopyNotPermitted);
                }
                (c.value, Some(c.refr))
            },
            None => (b, None),
        };
        let c_cell = if is_last {
            z
        } else {
            a.add(b_cell)
        };
        Ok(Row { a, b: b_cell, c: c_cell, selector: true, b_copy })
    }
}

} // verus!
