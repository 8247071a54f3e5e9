use vstd::prelude::*;

use crate::amount::{scale_by_percent, Amount, Rate};
use crate::base::{SeatType, Train};
use crate::departure_date::{season_of, DepartureDate, Season};
use crate::error::FareError;
use crate::ride_section::{canonical_pair, is_known_route, RideSection, Station};

verus! {

/// Reduction of the express fare on an unreserved seat.
pub const FREE_SEAT_REDUCTION: u64 = 530;

/// Seasonal change of the reserved-seat express fare.
pub const SEASONAL_ADJUSTMENT: u64 = 200;

/// Percentage of the adult fare that a child pays.
pub const CHILD_PERCENT: u64 = 50;

/// The basic fare for riding a section.
#[derive(Clone, Copy, Debug, PartialEq, Eq, Structural)]
pub struct TrainFare {
    pub value: Amount,
}

/// The express surcharge for a section.
#[derive(Clone, Copy, Debug, PartialEq, Eq, Structural)]
pub struct ExpressFare {
    pub value: Amount,
}

/// Basic fare of a listed canonical pair.
pub open spec fn base_train_fare(p: (Station, Station)) -> int {
    if p == (Station::Tokyo, Station::ShinOsaka) {
        8910
    } else {
        10010
    }
}

/// Reserved-seat express fare of the standard train on a listed pair.
pub open spec fn reserved_standard_express(p: (Station, Station)) -> int {
    if p == (Station::Tokyo, Station::ShinOsaka) {
        5490
    } else {
        5920
    }
}

/// What the premium train adds to the reserved-seat express fare.
pub open spec fn premium_addition(p: (Station, Station)) -> int {
    if p == (Station::Tokyo, Station::ShinOsaka) {
        320
    } else {
        530
    }
}

/// Express fare of a listed pair before the seasonal adjustment.
pub open spec fn express_before_season(train: Train, seat: SeatType, p: (Station, Station)) -> int {
    match seat {
        SeatType::Reserved => match train {
            Train::Hikari => reserved_standard_express(p),
            Train::Nozomi => reserved_standard_express(p) + premium_addition(p),
        },
        SeatType::Free => reserved_standard_express(p) - FREE_SEAT_REDUCTION,
    }
}

/// Express fare of a listed pair: reserved seats are 200 cheaper off-peak
/// and 200 dearer in the peak season; unreserved seats do not change.
pub open spec fn express_amount(train: Train, seat: SeatType, p: (Station, Station), season: Season) -> int {
    let amount = express_before_season(train, seat, p);
    match seat {
        SeatType::Reserved => match season {
            Season::Regular => amount,
            Season::OffPeak => amount - SEASONAL_ADJUSTMENT,
            Season::Peak => amount + SEASONAL_ADJUSTMENT,
        },
        SeatType::Free => amount,
    }
}

pub open spec fn train_fare_for(s: RideSection) -> Result<TrainFare, FareError> {
    let p = canonical_pair(s);
    if is_known_route(p) {
        Ok(TrainFare { value: Amount { value: base_train_fare(p) as u64 } })
    } else {
        Err(FareError::UnknownRoute)
    }
}

pub open spec fn express_fare_for(train: Train, seat: SeatType, s: RideSection, season: Season) -> Result<
    ExpressFare,
    FareError,
> {
    let p = canonical_pair(s);
    if is_known_route(p) {
        Ok(ExpressFare { value: Amount { value: express_amount(train, seat, p, season) as u64 } })
    } else {
        Err(FareError::UnknownRoute)
    }
}

/// The basic fare of a section, or `UnknownRoute`.
pub fn calc_train_fare(ride_section: &RideSection) -> (r: Result<TrainFare, FareError>)
    ensures
        r == train_fare_for(*ride_section),
{
    match ride_section.get_station_pair() {
        (Station::Tokyo, Station::ShinOsaka) => Ok(TrainFare { value: Amount { value: 8910 } }),
        (Station::Tokyo, Station::Himeji) => Ok(TrainFare { value: Amount { value: 10010 } }),
        _ => Err(FareError::UnknownRoute),
    }
}

fn reserved_standard_express_fare(ride_section: &RideSection) -> (r: Result<Amount, FareError>)
    ensures
        match r {
            Ok(a) => is_known_route(canonical_pair(*ride_section)) && a.value
                == reserved_standard_express(canonical_pair(*ride_section)),
            Err(e) => !is_known_route(canonical_pair(*ride_section)) && e == FareError::UnknownRoute,
        },
{
    match ride_section.get_station_pair() {
        (Station::Tokyo, Station::ShinOsaka) => Ok(Amount { value: 5490 }),
        (Station::Tokyo, Station::Himeji) => Ok(Amount { value: 5920 }),
        _ => Err(FareError::UnknownRoute),
    }
}

fn reserved_premium_express_fare(ride_section: &RideSection) -> (r: Result<Amount, FareError>)
    ensures
        match r {
            Ok(a) => is_known_route(canonical_pair(*ride_section)) && a.value
                == reserved_standard_express(canonical_pair(*ride_section)) + premium_addition(
                canonical_pair(*ride_section),
            ),
            Err(e) => !is_known_route(canonical_pair(*ride_section)) && e == FareError::UnknownRoute,
        },
{
    let standard = match reserved_standard_express_fare(ride_section) {
        Ok(a) => a,
        Err(e) => return Err(e),
    };
    let addition = match ride_section.get_station_pair() {
        (Station::Tokyo, Station::ShinOsaka) => Amount { value: 320 },
        _ => Amount { value: 530 },
    };
    Ok(standard.add(addition))
}

fn free_seat_express_fare(ride_section: &RideSection) -> (r: Result<Amount, FareError>)
    ensures
        match r {
            Ok(a) => is_known_route(canonical_pair(*ride_section)) && a.value
                == reserved_standard_express(canonical_pair(*ride_section)) - FREE_SEAT_REDUCTION,
            Err(e) => !is_known_route(canonical_pair(*ride_section)) && e == FareError::UnknownRoute,
        },
{
    let standard = match reserved_standard_express_fare(ride_section) {
        Ok(a) => a,
        Err(e) => return Err(e),
    };
    Ok(standard.sub(Amount { value: FREE_SEAT_REDUCTION }))
}

/// The express fare for a train class, seat class, section and travel day,
/// or `UnknownRoute`.
pub fn create_express_fare(
    train: &Train,
    seat_type: &SeatType,
    ride_section: &RideSection,
    departure_date: &DepartureDate,
) -> (r: Result<ExpressFare, FareError>)
    ensures
        r == express_fare_for(
            *train,
            *seat_type,
            *ride_section,
            season_of(departure_date.month as int, departure_date.day as int),
        ),
{
    let amount = match (seat_type, train) {
        (SeatType::Reserved, Train::Hikari) => reserved_standard_express_fare(ride_section),
        (SeatType::Reserved, Train::Nozomi) => reserved_premium_express_fare(ride_section),
        (SeatType::Free, _) => free_seat_express_fare(ride_section),
    };
    let amount = match amount {
        Ok(a) => a,
        Err(e) => return Err(e),
    };
    let adjustment = Amount { value: SEASONAL_ADJUSTMENT };
    let value = match (seat_type, departure_date.get_season()) {
        (SeatType::Reserved, Season::Regular) => amount,
        (SeatType::Reserved, Season::OffPeak) => amount.sub(adjustment),
        (SeatType::Reserved, Season::Peak) => amount.add(adjustment),
        (SeatType::Free, _) => amount,
    };
    Ok(ExpressFare { value })
}

/// One adult's one-way fare before any discount.
#[derive(Clone, Copy, Debug, PartialEq, Eq, Structural)]
pub struct SingleTripAdultFare {
    pub train_fare: TrainFare,
    pub express_fare: ExpressFare,
}

/// A fare pair scaled to the child fare (half, truncated to ten).
pub open spec fn child_fare_of(f: SingleTripAdultFare) -> (TrainFare, ExpressFare) {
    (
        TrainFare {
            value: Amount {
                value: scale_by_percent(f.train_fare.value.value as int, CHILD_PERCENT as int) as u64,
            },
        },
        ExpressFare {
            value: Amount {
                value: scale_by_percent(f.express_fare.value.value as int, CHILD_PERCENT as int) as u64,
            },
        },
    )
}

impl SingleTripAdultFare {
    /// The adult fare pair.
    pub fn get_adult_fare(&self) -> (r: (TrainFare, ExpressFare))
        ensures
            r == (self.train_fare, self.express_fare),
    {
        (self.train_fare, self.express_fare)
    }

    /// The child fare pair: each component halved and truncated to ten.
    pub fn get_child_fare(&self) -> (r: (TrainFare, ExpressFare))
        ensures
            r == child_fare_of(*self),
    {
        proof {
            crate::amount::lemma_scale_not_above(self.train_fare.value.value as int, CHILD_PERCENT as int);
            crate::amount::lemma_scale_not_above(self.express_fare.value.value as int, CHILD_PERCENT as int);
        }
        let half = Rate { percent: CHILD_PERCENT };
        (
            TrainFare { value: self.train_fare.value.mul(half) },
            ExpressFare { value: self.express_fare.value.mul(half) },
        )
    }
}

/// One adult's one-way fare for a journey, or `UnknownRoute`.
pub open spec fn single_trip_adult_fare_for(
    s: RideSection,
    train: Train,
    seat: SeatType,
    season: Season,
) -> Result<SingleTripAdultFare, FareError> {
    match (train_fare_for(s), express_fare_for(train, seat, s, season)) {
        (Ok(t), Ok(e)) => Ok(SingleTripAdultFare { train_fare: t, express_fare: e }),
        _ => Err(FareError::UnknownRoute),
    }
}

/// Basic and express fare of one adult's one-way ride, or `UnknownRoute`.
pub fn calc_single_trip_adult_fare(
    ride_section: &RideSection,
    train: &Train,
    seat_type: &SeatType,
    departure_date: &DepartureDate,
) -> (r: Result<SingleTripAdultFare, FareError>)
    ensures
        r == single_trip_adult_fare_for(
            *ride_section,
            *train,
            *seat_type,
            season_of(departure_date.month as int, departure_date.day as int),
        ),
{
    let train_fare = match calc_train_fare(ride_section) {
        Ok(f) => f,
        Err(e) => return Err(e),
    };
    let express_fare = match create_express_fare(train, seat_type, ride_section, departure_date) {
        Ok(f) => f,
        Err(e) => return Err(e),
    };
    Ok(SingleTripAdultFare { train_fare, express_fare })
}

/// The basic fare does not depend on the direction of travel, and a pair
/// missing from the table is missing in both directions.
pub proof fn law_train_fare_symmetric(a: Station, b: Station)
    ensures
        train_fare_for(RideSection { departure: a, arrival: b }) == train_fare_for(
            RideSection { departure: b, arrival: a },
        ),
        train_fare_for(RideSection { departure: a, arrival: b }) is Err ==> train_fare_for(
            RideSection { departure: a, arrival: b },
        ) == Err::<TrainFare, FareError>(FareError::UnknownRoute),
{
}

/// The express fare does not depend on the direction of travel either.
pub proof fn law_express_fare_symmetric(train: Train, seat: SeatType, a: Station, b: Station, season: Season)
    ensures
        express_fare_for(train, seat, RideSection { departure: a, arrival: b }, season)
            == express_fare_for(train, seat, RideSection { departure: b, arrival: a }, season),
{
}

} // verus!
