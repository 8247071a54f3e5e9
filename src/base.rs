use vstd::prelude::*;

verus! {

/// Train class.
#[derive(Clone, Copy, Debug, PartialEq, Eq, Structural)]
pub enum Train {
    Hikari,
    Nozomi,
}

/// Seat class.
#[derive(Clone, Copy, Debug, PartialEq, Eq, Structural)]
pub enum SeatType {
    Reserved,
    Free,
}

/// One way (fare counted once) or round trip (counted twice).
#[derive(Clone, Copy, Debug, PartialEq, Eq, Structural)]
pub enum ReserveType {
    SingleTrip,
    RoundTrip,
}

/// How many times the one-way fare is charged.
pub open spec fn trip_multiplier(r: ReserveType) -> int {
    match r {
        ReserveType::SingleTrip => 1,
        ReserveType::RoundTrip => 2,
    }
}

impl ReserveType {
    pub fn multiplier(&self) -> (r: u64)
        ensures
            r == trip_multiplier(*self),
    {
        match self {
            ReserveType::SingleTrip => 1,
            ReserveType::RoundTrip => 2,
        }
    }
}

/// Head counts of a travelling group.
#[derive(Clone, Copy, Debug, PartialEq, Eq, Structural)]
pub struct NumberOfPassengers {
    pub adult: usize,
    pub child: usize,
}

impl NumberOfPassengers {
    pub open spec fn spec_total(self) -> int {
        self.adult + self.child
    }

    /// Adults plus children.
    pub fn total(&self) -> (r: usize)
        requires
            self.spec_total() <= usize::MAX,
        ensures
            r == self.spec_total(),
    {
        self.adult + self.child
    }
}

} // verus!
