use vstd::prelude::*;

use crate::amount::Amount;
use crate::base::{NumberOfPassengers, ReserveType, SeatType, Train};
use crate::departure_date::{is_calendar_date, season_of, DepartureDate};
use crate::discount::{
    individual_discounts_for, judge_individual_discounts, judge_overall_discount, overall_discount_of,
};
use crate::error::FareError;
use crate::fare::{calc_single_trip_adult_fare, single_trip_adult_fare_for};
use crate::ride_section::{RideSection, Station};
use crate::total_fare::{calc_total_fare, total_fare_for};

verus! {

/// A station as chosen by the caller.
#[derive(Clone, Copy, Debug, PartialEq, Eq, Structural)]
pub enum StationInput {
    Tokyo,
    ShinOsaka,
    Himeji,
}

pub open spec fn station_of(s: StationInput) -> Station {
    match s {
        StationInput::Tokyo => Station::Tokyo,
        StationInput::ShinOsaka => Station::ShinOsaka,
        StationInput::Himeji => Station::Himeji,
    }
}

impl StationInput {
    pub fn as_domain(&self) -> (r: Station)
        ensures
            r == station_of(*self),
    {
        match self {
            Self::Tokyo => Station::Tokyo,
            Self::ShinOsaka => Station::ShinOsaka,
            Self::Himeji => Station::Himeji,
        }
    }
}

/// A train class as chosen by the caller.
#[derive(Clone, Copy, Debug, PartialEq, Eq, Structural)]
pub enum TrainInput {
    Hikari,
    Nozomi,
}

pub open spec fn train_of(t: TrainInput) -> Train {
    match t {
        TrainInput::Hikari => Train::Hikari,
        TrainInput::Nozomi => Train::Nozomi,
    }
}

impl TrainInput {
    pub fn as_domain(&self) -> (r: Train)
        ensures
            r == train_of(*self),
    {
        match self {
            Self::Hikari => Train::Hikari,
            Self::Nozomi => Train::Nozomi,
        }
    }
}

/// A seat class as chosen by the caller.
#[derive(Clone, Copy, Debug, PartialEq, Eq, Structural)]
pub enum SeatTypeInput {
    Reserved,
    Free,
}

pub open spec fn seat_type_of(s: SeatTypeInput) -> SeatType {
    match s {
        SeatTypeInput::Reserved => SeatType::Reserved,
        SeatTypeInput::Free => SeatType::Free,
    }
}

impl SeatTypeInput {
    pub fn as_domain(&self) -> (r: SeatType)
        ensures
            r == seat_type_of(*self),
    {
        match self {
            Self::Reserved => SeatType::Reserved,
            Self::Free => SeatType::Free,
        }
    }
}

/// One way or round trip as chosen by the caller.
#[derive(Clone, Copy, Debug, PartialEq, Eq, Structural)]
pub enum ReserveTypeInput {
    SingleTrip,
    RoundTrip,
}

pub open spec fn reserve_type_of(r: ReserveTypeInput) -> ReserveType {
    match r {
        ReserveTypeInput::SingleTrip => ReserveType::SingleTrip,
        ReserveTypeInput::RoundTrip => ReserveType::RoundTrip,
    }
}

impl ReserveTypeInput {
    pub fn as_domain(&self) -> (r: ReserveType)
        ensures
            r == reserve_type_of(*self),
    {
        match self {
            Self::SingleTrip => ReserveType::SingleTrip,
            Self::RoundTrip => ReserveType::RoundTrip,
        }
    }
}

/// The whole pricing pipeline on caller inputs: `InvalidDate` for a day that
/// does not exist, `UnknownRoute` for an unlisted pair, `InvalidPassengerCount`
/// when the group cannot be counted or billed, `AmountOverflow` when the
/// total does not fit; otherwise the total fare.
pub open spec fn fare_quote(
    departure: Station,
    arrival: Station,
    train: Train,
    seat_type: SeatType,
    reserve_type: ReserveType,
    y: i32,
    m: u32,
    d: u32,
    adult: usize,
    child: usize,
) -> Result<Amount, FareError> {
    let section = RideSection { departure, arrival };
    let n = NumberOfPassengers { adult, child };
    let season = season_of(m as int, d as int);
    if !is_calendar_date(y as int, m as int, d as int) {
        Err(FareError::InvalidDate)
    } else {
        match single_trip_adult_fare_for(section, train, seat_type, season) {
            Err(e) => Err(e),
            Ok(fare) => if n.spec_total() > usize::MAX {
                Err(FareError::InvalidPassengerCount)
            } else {
                match individual_discounts_for(section, n, season) {
                    Err(e) => Err(e),
                    Ok(ds) => total_fare_for(
                        reserve_type,
                        n,
                        fare,
                        overall_discount_of(n.spec_total()),
                        ds,
                    ),
                }
            },
        }
    }
}

/// Prices a journey from caller inputs; see `fare_quote` for every outcome.
pub fn invoke(
    departure_input: StationInput,
    arrival_input: StationInput,
    train_input: TrainInput,
    seat_type_input: SeatTypeInput,
    reserve_type_input: ReserveTypeInput,
    y: i32,
    m: u32,
    d: u32,
    adult: usize,
    child: usize,
) -> (r: Result<u64, FareError>)
    ensures
        match r {
            Ok(v) => fare_quote(
                station_of(departure_input),
                station_of(arrival_input),
                train_of(train_input),
                seat_type_of(seat_type_input),
                reserve_type_of(reserve_type_input),
                y,
                m,
                d,
                adult,
                child,
            ) == Ok::<Amount, FareError>(Amount { value: v }),
            Err(e) => fare_quote(
                station_of(departure_input),
                station_of(arrival_input),
                train_of(train_input),
                seat_type_of(seat_type_input),
                reserve_type_of(reserve_type_input),
                y,
                m,
                d,
                adult,
                child,
            ) == Err::<Amount, FareError>(e),
        },
{
    let ride_section = RideSection {
        departure: departure_input.as_domain(),
        arrival: arrival_input.as_domain(),
    };
    let train = train_input.as_domain();
    let seat_type = seat_type_input.as_domain();
    let reserve_type = reserve_type_input.as_domain();
    let departure_date = match DepartureDate::from_ymd(y, m, d) {
        Some(date) => date,
        None => return Err(FareError::InvalidDate),
    };
    let number_of_passengers = NumberOfPassengers { adult, child };

    let single_trip_adult_fare = match calc_single_trip_adult_fare(
        &ride_section,
        &train,
        &seat_type,
        &departure_date,
    ) {
        Ok(f) => f,
        Err(e) => return Err(e),
    };

    if adult > usize::MAX - child {
        return Err(FareError::InvalidPassengerCount);
    }
    let overall_discount = judge_overall_discount(&number_of_passengers);
    let season = departure_date.get_season();
    let individual_discounts = match judge_individual_discounts(
        &ride_section,
        &number_of_passengers,
        &season,
    ) {
        Ok(ds) => ds,
        Err(e) => return Err(e),
    };

    match calc_total_fare(
        &reserve_type,
        &number_of_passengers,
        &single_trip_adult_fare,
        &overall_discount,
        individual_discounts.as_slice(),
    ) {
        Ok(total) => Ok(total.value),
        Err(e) => Err(e),
    }
}

} // verus!
