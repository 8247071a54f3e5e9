use vstd::prelude::*;

use crate::amount::{scale_by_count, Amount};
use crate::base::{trip_multiplier, NumberOfPassengers, ReserveType};
use crate::discount::{discounted_all, fare_values, IndividualDiscount, OverallDiscount};
use crate::error::FareError;
use crate::fare::{child_fare_of, ExpressFare, SingleTripAdultFare, TrainFare};

verus! {

/// Adults who pay: all of them, less the free riders of a group discount
/// (negative when there are more free riders than adults).
pub open spec fn billable_adults(n: NumberOfPassengers, overall: Option<OverallDiscount>) -> int {
    match overall {
        Some(OverallDiscount::GroupDiscountMore31 { free_count }) => n.adult - free_count,
        None => n.adult as int,
    }
}

/// The total: discounted adult and child fare pairs, each amount multiplied
/// by its head count and truncated to ten, summed, then multiplied by the
/// trip multiplier and truncated to ten.
pub open spec fn total_fare_value(
    reserve_type: ReserveType,
    n: NumberOfPassengers,
    fare: SingleTripAdultFare,
    overall: Option<OverallDiscount>,
    ds: Seq<IndividualDiscount>,
) -> int {
    let adult = discounted_all(ds, fare_values((fare.train_fare, fare.express_fare)));
    let child = discounted_all(ds, fare_values(child_fare_of(fare)));
    let billable = billable_adults(n, overall);
    let sum = scale_by_count(adult.0, billable) + scale_by_count(adult.1, billable) + scale_by_count(
        child.0,
        n.child as int,
    ) + scale_by_count(child.1, n.child as int);
    scale_by_count(sum, trip_multiplier(reserve_type))
}

/// The total, `InvalidPassengerCount` when more adults ride free than there
/// are adults, or `AmountOverflow` when the total does not fit in `u64`.
pub open spec fn total_fare_for(
    reserve_type: ReserveType,
    n: NumberOfPassengers,
    fare: SingleTripAdultFare,
    overall: Option<OverallDiscount>,
    ds: Seq<IndividualDiscount>,
) -> Result<Amount, FareError> {
    if billable_adults(n, overall) < 0 {
        Err(FareError::InvalidPassengerCount)
    } else if total_fare_value(reserve_type, n, fare, overall, ds) > u64::MAX {
        Err(FareError::AmountOverflow)
    } else {
        Ok(Amount { value: total_fare_value(reserve_type, n, fare, overall, ds) as u64 })
    }
}

proof fn lemma_truncated_multiple(x: int, w: int)
    requires
        x >= 0,
        x % 10 == 0,
        w >= 1,
    ensures
        scale_by_count(x, w) == x * w,
        x * w >= x,
{
    let k = x / 10;
    assert(x == 10 * k);
    assert(x * w == 10 * (k * w)) by (nonlinear_arith)
        requires
            x == 10 * k,
    ;
    assert((10 * (k * w)) / 10 == k * w) by (nonlinear_arith);
    assert(x * w >= x) by (nonlinear_arith)
        requires
            x >= 0,
            w >= 1,
    ;
}

proof fn lemma_scaled_count_facts(v: int, n: int)
    requires
        v >= 0,
        n >= 0,
    ensures
        scale_by_count(v, n) >= 0,
        scale_by_count(v, n) % 10 == 0,
{
    assert(v * n >= 0) by (nonlinear_arith)
        requires
            v >= 0,
            n >= 0,
    ;
    crate::amount::lemma_truncate_bounds(v * n);
}

/// Applies every discount of `ds` in turn, first to last.
fn apply_discounts(ds: &[IndividualDiscount], fare: (TrainFare, ExpressFare)) -> (r: (
    TrainFare,
    ExpressFare,
))
    requires
        forall|i: int| 0 <= i < ds@.len() ==> (#[trigger] ds@[i]).is_reduction(),
    ensures
        fare_values(r) == discounted_all(ds@, fare_values(fare)),
{
    let mut acc = fare;
    let mut i: usize = 0;
    while i < ds.len()
        invariant
            i <= ds@.len(),
            forall|j: int| 0 <= j < ds@.len() ==> (#[trigger] ds@[j]).is_reduction(),
            fare_values(acc) == discounted_all(ds@.take(i as int), fare_values(fare)),
        decreases ds@.len() - i,
    {
        let next = ds[i].apply(acc);
        proof {
            assert(ds@.take(i as int + 1).drop_last() =~= ds@.take(i as int));
            assert(ds@.take(i as int + 1).last() == ds@[i as int]);
        }
        acc = next;
        i = i + 1;
    }
    assert(ds@.take(ds@.len() as int) =~= ds@);
    acc
}

/// Total fare of a group: per-ticket discounts folded over the adult and the
/// child fare pair, free riders taken off the paying adults, each amount
/// multiplied by its head count, summed, and doubled for a round trip; every
/// multiplication truncates to ten.
pub fn calc_total_fare(
    reserve_type: &ReserveType,
    number_of_passengers: &NumberOfPassengers,
    single_trip_adult_fare: &SingleTripAdultFare,
    overall_discount: &Option<OverallDiscount>,
    individual_discounts: &[IndividualDiscount],
) -> (r: Result<Amount, FareError>)
    requires
        forall|i: int|
            0 <= i < individual_discounts@.len() ==> (#[trigger] individual_discounts@[i]).is_reduction(),
    ensures
        r == total_fare_for(
            *reserve_type,
            *number_of_passengers,
            *single_trip_adult_fare,
            *overall_discount,
            individual_discounts@,
        ),
{
    let ghost ds = individual_discounts@;
    let ghost fare = *single_trip_adult_fare;
    let billable: usize = match overall_discount {
        Some(OverallDiscount::GroupDiscountMore31 { free_count }) => {
            if *free_count > number_of_passengers.adult {
                return Err(FareError::InvalidPassengerCount);
            }
            number_of_passengers.adult - *free_count
        },
        None => number_of_passengers.adult,
    };
    let child: usize = number_of_passengers.child;

    let (adult_train, adult_express) = apply_discounts(
        individual_discounts,
        single_trip_adult_fare.get_adult_fare(),
    );
    let (child_train, child_express) = apply_discounts(
        individual_discounts,
        single_trip_adult_fare.get_child_fare(),
    );

    let ghost adult = discounted_all(ds, fare_values((fare.train_fare, fare.express_fare)));
    let ghost childf = discounted_all(ds, fare_values(child_fare_of(fare)));
    let ghost a = scale_by_count(adult.0, billable as int);
    let ghost b = scale_by_count(adult.1, billable as int);
    let ghost c = scale_by_count(childf.0, child as int);
    let ghost d = scale_by_count(childf.1, child as int);
    let ghost w = trip_multiplier(*reserve_type);
    proof {
        lemma_scaled_count_facts(adult.0, billable as int);
        lemma_scaled_count_facts(adult.1, billable as int);
        lemma_scaled_count_facts(childf.0, child as int);
        lemma_scaled_count_facts(childf.1, child as int);
        lemma_truncated_multiple(a + b + c + d, w);
        assert(total_fare_value(*reserve_type, *number_of_passengers, fare, *overall_discount, ds) == (a
            + b + c + d) * w);
    }

    let way = reserve_type.multiplier();
    let r = match adult_train.value.checked_mul_count(billable as u64) {
        None => Err(FareError::AmountOverflow),
        Some(at) => match adult_express.value.checked_mul_count(billable as u64) {
            None => Err(FareError::AmountOverflow),
            Some(ae) => match child_train.value.checked_mul_count(child as u64) {
                None => Err(FareError::AmountOverflow),
                Some(ct) => match child_express.value.checked_mul_count(child as u64) {
                    None => Err(FareError::AmountOverflow),
                    Some(ce) => match at.checked_add(ae) {
                        None => Err(FareError::AmountOverflow),
                        Some(s1) => match s1.checked_add(ct) {
                            None => Err(FareError::AmountOverflow),
                            Some(s2) => match s2.checked_add(ce) {
                                None => Err(FareError::AmountOverflow),
                                Some(sum) => match sum.checked_mul_count(way) {
                                    None => Err(FareError::AmountOverflow),
                                    Some(total) => Ok(total),
                                },
                            },
                        },
                    },
                },
            },
        },
    };
    r
}

} // verus!
