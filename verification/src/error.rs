//! The error taxonomy of the persistence port.

use vstd::prelude::*;

verus! {

/// Why a persistence operation failed.
///
/// The "no snapshot yet" outcome is not an error: `load` reports it as
/// `Ok(None)`, never through this type, so the two can never be conflated.
#[derive(Clone, Copy, PartialEq, Eq, Debug, Structural)]
pub enum PersistenceError {
    /// The backing store exists but could not be read back (corruption,
    /// version mismatch).
    LoadFailure,
    /// The backing store rejected or could not complete a write. Only durable
    /// backends can produce this; the in-memory reference store cannot.
    SaveFailure,
}

} // verus!
