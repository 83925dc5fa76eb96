use vstd::prelude::*;
use crate::felt::{fadd, Felt};

verus! {

/// A deferred field element: `Known` once every dependency has a concrete
/// value, `Unknown` during the structural pass that declares the circuit's
/// topology before any witness exists.
#[derive(Clone, Copy, Debug, PartialEq, Eq, Structural, Hash)]
pub enum LazyFelt {
    Unknown,
    Known(Felt),
}

impl LazyFelt {
    /// Whether a concrete value is present.
    pub open spec fn is_known(self) -> bool {
        self matches LazyFelt::Known(_)
    }

    /// The concrete value, meaningful only when `is_known`.
    pub open spec fn value(self) -> nat {
        match self {
            LazyFelt::Known(f) => f.val(),
            LazyFelt::Unknown => 0,
        }
    }

    /// A deferred value is well formed when its payload, if any, is reduced.
    pub open spec fn wf(self) -> bool {
        match self {
            LazyFelt::Known(f) => f.wf(),
            LazyFelt::Unknown => true,
        }
    }

    /// Deferred addition: eager once both operands are known, otherwise the
    /// composition itself stays unknown.
    pub fn add(self, rhs: LazyFelt) -> (r: LazyFelt)
        requires
            self.wf(),
            rhs.wf(),
        ensures
            spec_add_of(self, rhs, r),
    {
        match (self, rhs) {
            (LazyFelt::Known(x), LazyFelt::Known(y)) => LazyFelt::Known(x.add(y)),
            _ => LazyFelt::Unknown,
        }
    }
}

/// What deferred addition yields: a known, reduced field sum when both
/// operands are known, and `Unknown` otherwise.
pub open spec fn spec_add_of(x: LazyFelt, y: LazyFelt, r: LazyFelt) -> bool {
    if x.is_known() && y.is_known() {
        &&& r.is_known()
        &&& r.wf()
        &&& r.value() == fadd(x.value(), y.value())
    } else {
        r == LazyFelt::Unknown
    }
}

} // verus!
