//! Generation failures. A failing unit never yields partial source text.

use vstd::prelude::*;

verus! {

/// Why generation of one source unit was aborted.
#[derive(Debug, PartialEq, Eq)]
pub enum GenError {
    /// A type descriptor appeared in a position where no mapping rule
    /// applies; carries the offending field/method/argument name.
    UnsupportedShape(String),
    /// A callback argument referenced a trait name that is absent from the
    /// supplied callback descriptor set; carries the missing name.
    UnresolvedCallback(String),
    /// The underlying text-assembly step failed. Kept for the failure
    /// taxonomy; the present assembly path formats into memory, which
    /// cannot fail, so the emitters promise success on every valid input
    /// and this variant is never returned by them.
    EmissionFault,
}

} // verus!
