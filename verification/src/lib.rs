//! Arithmetization engine for a zero-knowledge claim about a linear
//! recurrence: possession of field elements `a`, `b` and `z` such that the
//! recurrence `f(0) = a`, `f(1) = b`, `f(n) = f(n-1) + f(n-2)` reaches `z`
//! at a secret index `k`.
//!
//! The engine compiles the relation into a row-based table gated by the
//! per-row identity `selector * (a + b - c) = 0`, synthesizes a concrete
//! witness table from the secret inputs by deferred field computation,
//! chains each row's output into the next row's input with a copy
//! constraint, and substitutes the claimed final value at the terminal row.
//! An external proving backend turns the declared gates and the populated
//! table into a proof; this crate models the table it hands over and proves
//! completeness, soundness, chaining, and determinism of the synthesis.

pub mod felt;
pub mod lazy;
pub mod table;
pub mod chip;
pub mod circuit;
pub mod laws;

