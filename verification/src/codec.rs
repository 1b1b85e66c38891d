//! Shared pieces of the table interchange codec.
//!
//! A table travels as a nested vector: one inner vector per column, each of
//! exactly 256 cells. Decoding checks that shape and nothing else; cell
//! values are unrestricted.

use vstd::prelude::*;

verus! {

/// Error raised when decoding a nested-vector table form.
#[derive(Clone, Copy, Debug, PartialEq, Eq)]
pub enum TableError {
    /// The outer length differs from the column count, or some inner length
    /// differs from 256.
    ShapeMismatch,
}

/// A nested sequence has the shape of a table with `cols` columns: exactly
/// `cols` inner sequences, each of exactly 256 cells.
pub open spec fn well_shaped<T>(t: Seq<Seq<T>>, cols: int) -> bool {
    &&& t.len() == cols
    &&& forall|i: int| 0 <= i < t.len() ==> (#[trigger] t[i].len()) == 256
}

} // verus!
