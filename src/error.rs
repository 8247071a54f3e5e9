use vstd::prelude::*;

verus! {

/// Why a fare could not be computed.
#[derive(Clone, Copy, Debug, PartialEq, Eq, Structural)]
pub enum FareError {
    /// The station pair has no entry in the route tables.
    UnknownRoute,
    /// The year, month and day do not name a calendar date.
    InvalidDate,
    /// The passenger counts cannot be billed: the group is too large to
    /// count, or more riders travel free than there are adults.
    InvalidPassengerCount,
    /// The total does not fit in the amount type.
    AmountOverflow,
}

} // verus!
