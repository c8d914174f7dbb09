use vstd::prelude::*;

verus! {

/// Why a measurement was abandoned. There is no recovery from any of these:
/// a single failure invalidates the whole measurement.
#[derive(Clone, Copy, Debug, PartialEq, Eq, Structural)]
pub enum TpsError {
    /// The block source had no block to hand out.
    SourceUnavailable,
    /// A transaction could not be decoded, or one of its instructions names a
    /// program that is not among its account keys.
    Decode,
    /// A running total or the timestamp threshold left the range of its type.
    Overflow,
}

} // verus!
