use vstd::prelude::*;

use crate::error::FareError;

verus! {

/// A stop on the line. Stations are ordered along the line, which fixes the
/// canonical orientation of a pair.
#[derive(Clone, Copy, Debug, PartialEq, Eq, Structural)]
pub enum Station {
    Tokyo,
    ShinOsaka,
    Himeji,
}

impl Station {
    /// Position of the station in the station order.
    pub open spec fn rank(self) -> int {
        match self {
            Station::Tokyo => 0,
            Station::ShinOsaka => 1,
            Station::Himeji => 2,
        }
    }

    fn order(&self) -> (r: u8)
        ensures
            r == self.rank(),
    {
        match self {
            Station::Tokyo => 0,
            Station::ShinOsaka => 1,
            Station::Himeji => 2,
        }
    }
}

/// A route length in whole kilometres.
#[derive(Clone, Copy, Debug, PartialEq, Eq, Structural)]
pub struct OperatingKilometer {
    pub value: u64,
}

/// The two ends of a ride, in travel direction.
#[derive(Clone, Copy, Debug, PartialEq, Eq, Structural)]
pub struct RideSection {
    pub departure: Station,
    pub arrival: Station,
}

/// The two stations of a section ordered by rank, whatever the direction.
pub open spec fn canonical_pair(s: RideSection) -> (Station, Station) {
    if s.arrival.rank() < s.departure.rank() {
        (s.arrival, s.departure)
    } else {
        (s.departure, s.arrival)
    }
}

/// Whether a canonical pair is listed in the route tables.
pub open spec fn is_known_route(p: (Station, Station)) -> bool {
    p == (Station::Tokyo, Station::ShinOsaka) || p == (Station::Tokyo, Station::Himeji)
}

/// Route length in kilometres of a listed canonical pair.
pub open spec fn route_kilometers(p: (Station, Station)) -> int {
    if p == (Station::Tokyo, Station::ShinOsaka) {
        553
    } else {
        644
    }
}

/// Route length of a section, or `UnknownRoute`.
pub open spec fn operating_kilometer_of(s: RideSection) -> Result<OperatingKilometer, FareError> {
    let p = canonical_pair(s);
    if is_known_route(p) {
        Ok(OperatingKilometer { value: route_kilometers(p) as u64 })
    } else {
        Err(FareError::UnknownRoute)
    }
}

impl RideSection {
    /// The canonical (lower rank, higher rank) station pair.
    pub fn get_station_pair(&self) -> (r: (Station, Station))
        ensures
            r == canonical_pair(*self),
    {
        if self.arrival.order() < self.departure.order() {
            (self.arrival, self.departure)
        } else {
            (self.departure, self.arrival)
        }
    }

    /// Looks the section up in the distance table.
    pub fn get_operation_kilometer(&self) -> (r: Result<OperatingKilometer, FareError>)
        ensures
            r == operating_kilometer_of(*self),
    {
        match self.get_station_pair() {
            (Station::Tokyo, Station::ShinOsaka) => Ok(OperatingKilometer { value: 553 }),
            (Station::Tokyo, Station::Himeji) => Ok(OperatingKilometer { value: 644 }),
            _ => Err(FareError::UnknownRoute),
        }
    }
}

/// A section and its reverse have the same route length, and a pair missing
/// from the table is missing in both directions.
pub proof fn law_operating_kilometer_symmetric(a: Station, b: Station)
    ensures
        operating_kilometer_of(RideSection { departure: a, arrival: b }) == operating_kilometer_of(
            RideSection { departure: b, arrival: a },
        ),
{
}

} // verus!
