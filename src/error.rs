use vstd::prelude::*;

verus! {

/// Failures reported by the engine, distinct from the terminal status of a photon.
#[derive(Clone, Copy, Debug, PartialEq, Eq, Structural)]
pub enum Error {
    /// Shape mismatch, out-of-range index, or an argument of the wrong kind.
    InvalidArgument,
    /// An unknown enumerator name.
    Domain,
    /// The tracer could not resolve a boundary crossing.
    NumericalInstability,
    /// A required collaborator (geometry, material data) is not set.
    Missing,
    /// The host cancellation probe signalled during a batch.
    Cancelled,
    /// An external geometry backend failed.
    Io,
}

} // verus!
