use vstd::prelude::*;

use crate::amount::{scale_by_percent, Rate};
use crate::base::NumberOfPassengers;
use crate::departure_date::Season;
use crate::error::FareError;
use crate::fare::{ExpressFare, TrainFare};
use crate::ride_section::{operating_kilometer_of, RideSection};

verus! {

/// Shortest route, in kilometres, that earns the round-trip discount.
pub const ROUND_TRIP_MIN_KILOMETERS: u64 = 601;

/// Rate of the round-trip discount on the basic fare.
pub const ROUND_TRIP_PERCENT: u64 = 90;

/// Smallest and largest group that earns the per-ticket group discount.
pub const SMALL_GROUP_MIN: usize = 8;

pub const SMALL_GROUP_MAX: usize = 30;

/// Per-ticket group discount rate in the peak season, and otherwise.
pub const SMALL_GROUP_PEAK_PERCENT: u64 = 90;

pub const SMALL_GROUP_PERCENT: u64 = 85;

/// Smallest group that earns free riders.
pub const LARGE_GROUP_MIN: usize = 31;

/// One free rider per this many passengers (at least one).
pub const LARGE_GROUP_PER_FREE: usize = 50;

/// A discount on one ticket's (basic fare, express fare) pair.
#[derive(Clone, Copy, Debug, PartialEq, Eq, Structural)]
pub enum IndividualDiscount {
    /// Basic fare at 90%; the express fare is untouched.
    RoundTripDiscount,
    /// Both components at `discount_rate`.
    GroupDiscountUnder30 { discount_rate: Rate },
}

/// A fare pair as its two amounts.
pub open spec fn fare_values(f: (TrainFare, ExpressFare)) -> (int, int) {
    (f.0.value.value as int, f.1.value.value as int)
}

/// The fare pair after one discount, each scaled amount truncated to ten.
pub open spec fn discounted(d: IndividualDiscount, f: (int, int)) -> (int, int) {
    match d {
        IndividualDiscount::RoundTripDiscount => (scale_by_percent(f.0, ROUND_TRIP_PERCENT as int), f.1),
        IndividualDiscount::GroupDiscountUnder30 { discount_rate } => (
            scale_by_percent(f.0, discount_rate.percent as int),
            scale_by_percent(f.1, discount_rate.percent as int),
        ),
    }
}

/// The fare pair after each discount of `ds` in turn, first to last.
pub open spec fn discounted_all(ds: Seq<IndividualDiscount>, f: (int, int)) -> (int, int)
    decreases ds.len(),
{
    if ds.len() == 0 {
        f
    } else {
        discounted(ds.last(), discounted_all(ds.drop_last(), f))
    }
}

impl IndividualDiscount {
    /// The discount never raises a fare (its rate is at most 100%).
    pub open spec fn is_reduction(self) -> bool {
        match self {
            IndividualDiscount::RoundTripDiscount => true,
            IndividualDiscount::GroupDiscountUnder30 { discount_rate } => discount_rate.percent <= 100,
        }
    }

    /// The fare pair with this discount applied.
    pub fn apply(&self, fare: (TrainFare, ExpressFare)) -> (r: (TrainFare, ExpressFare))
        requires
            self.is_reduction(),
        ensures
            fare_values(r) == discounted(*self, fare_values(fare)),
            fare_values(r).0 <= fare_values(fare).0,
            fare_values(r).1 <= fare_values(fare).1,
    {
        let (train_fare, express_fare) = fare;
        match self {
            IndividualDiscount::RoundTripDiscount => {
                proof {
                    crate::amount::lemma_scale_not_above(
                        train_fare.value.value as int,
                        ROUND_TRIP_PERCENT as int,
                    );
                }
                (
                    TrainFare { value: train_fare.value.mul(Rate { percent: ROUND_TRIP_PERCENT }) },
                    express_fare,
                )
            },
            IndividualDiscount::GroupDiscountUnder30 { discount_rate } => {
                proof {
                    crate::amount::lemma_scale_not_above(
                        train_fare.value.value as int,
                        discount_rate.percent as int,
                    );
                    crate::amount::lemma_scale_not_above(
                        express_fare.value.value as int,
                        discount_rate.percent as int,
                    );
                }
                (
                    TrainFare { value: train_fare.value.mul(*discount_rate) },
                    ExpressFare { value: express_fare.value.mul(*discount_rate) },
                )
            },
        }
    }
}

/// Rate of the per-ticket group discount in a season.
pub open spec fn small_group_percent(season: Season) -> int {
    match season {
        Season::Peak => SMALL_GROUP_PEAK_PERCENT as int,
        _ => SMALL_GROUP_PERCENT as int,
    }
}

/// The per-ticket discounts for a route length, group size and season:
/// the round-trip discount from 601 km, then the group discount for 8 to 30
/// passengers.
pub open spec fn individual_discounts_of(kilometers: int, total: int, season: Season) -> Seq<
    IndividualDiscount,
> {
    let round_trip = if kilometers >= ROUND_TRIP_MIN_KILOMETERS {
        seq![IndividualDiscount::RoundTripDiscount]
    } else {
        Seq::empty()
    };
    let group = if SMALL_GROUP_MIN <= total <= SMALL_GROUP_MAX {
        seq![
            IndividualDiscount::GroupDiscountUnder30 {
                discount_rate: Rate { percent: small_group_percent(season) as u64 },
            },
        ]
    } else {
        Seq::empty()
    };
    round_trip + group
}

/// The per-ticket discounts of a journey, or `UnknownRoute`.
pub open spec fn individual_discounts_for(
    s: RideSection,
    n: NumberOfPassengers,
    season: Season,
) -> Result<Seq<IndividualDiscount>, FareError> {
    match operating_kilometer_of(s) {
        Ok(km) => Ok(individual_discounts_of(km.value as int, n.spec_total(), season)),
        Err(e) => Err(e),
    }
}

/// Decides which per-ticket discounts apply, in the order they are applied.
pub fn judge_individual_discounts(
    ride_section: &RideSection,
    number_of_passengers: &NumberOfPassengers,
    season: &Season,
) -> (r: Result<Vec<IndividualDiscount>, FareError>)
    requires
        number_of_passengers.spec_total() <= usize::MAX,
    ensures
        match r {
            Ok(v) => individual_discounts_for(*ride_section, *number_of_passengers, *season) == Ok::<
                Seq<IndividualDiscount>,
                FareError,
            >(v@),
            Err(e) => individual_discounts_for(*ride_section, *number_of_passengers, *season) == Err::<
                Seq<IndividualDiscount>,
                FareError,
            >(e),
        },
        match r {
            Ok(v) => forall|i: int| 0 <= i < v@.len() ==> (#[trigger] v@[i]).is_reduction(),
            Err(_) => true,
        },
{
    let kilometers = match ride_section.get_operation_kilometer() {
        Ok(k) => k,
        Err(e) => return Err(e),
    };
    let mut discounts: Vec<IndividualDiscount> = Vec::new();
    if ROUND_TRIP_MIN_KILOMETERS <= kilometers.value {
        discounts.push(IndividualDiscount::RoundTripDiscount);
    }
    let total = number_of_passengers.total();
    if SMALL_GROUP_MIN <= total && total <= SMALL_GROUP_MAX {
        let percent = match season {
            Season::Regular => SMALL_GROUP_PERCENT,
            Season::OffPeak => SMALL_GROUP_PERCENT,
            Season::Peak => SMALL_GROUP_PEAK_PERCENT,
        };
        discounts.push(IndividualDiscount::GroupDiscountUnder30 { discount_rate: Rate { percent } });
    }
    assert(discounts@ =~= individual_discounts_of(
        kilometers.value as int,
        number_of_passengers.spec_total(),
        *season,
    ));
    Ok(discounts)
}

/// A discount on the whole group.
#[derive(Clone, Copy, Debug, PartialEq, Eq, Structural)]
pub enum OverallDiscount {
    /// `free_count` adults ride free.
    GroupDiscountMore31 { free_count: usize },
}

/// The group discount for a group size: from 31 passengers, one free rider
/// per 50 passengers and never fewer than one.
pub open spec fn overall_discount_of(total: int) -> Option<OverallDiscount> {
    if total >= LARGE_GROUP_MIN {
        let per = total / (LARGE_GROUP_PER_FREE as int);
        Some(
            OverallDiscount::GroupDiscountMore31 {
                free_count: (if per >= 1 {
                    per
                } else {
                    1
                }) as usize,
            },
        )
    } else {
        None
    }
}

/// Decides whether the group as a whole gets free riders.
pub fn judge_overall_discount(number_of_passengers: &NumberOfPassengers) -> (r: Option<OverallDiscount>)
    requires
        number_of_passengers.spec_total() <= usize::MAX,
    ensures
        r == overall_discount_of(number_of_passengers.spec_total()),
{
    let total = number_of_passengers.total();
    if LARGE_GROUP_MIN <= total {
        let per = total / LARGE_GROUP_PER_FREE;
        let free_count = if per >= 1 {
            per
        } else {
            1
        };
        Some(OverallDiscount::GroupDiscountMore31 { free_count })
    } else {
        None
    }
}

/// The per-ticket group discount and the whole-group discount never apply to
/// the same group size.
pub proof fn law_group_discounts_exclusive(kilometers: int, total: int, season: Season)
    ensures
        overall_discount_of(total) is Some ==> forall|i: int|
            0 <= i < individual_discounts_of(kilometers, total, season).len()
                ==> #[trigger] individual_discounts_of(kilometers, total, season)[i]
                is RoundTripDiscount,
{
}

} // verus!
