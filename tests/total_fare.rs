use shinkansen_fare::amount::{Amount, Rate};
use shinkansen_fare::base::{NumberOfPassengers, ReserveType};
use shinkansen_fare::discount::{IndividualDiscount, OverallDiscount};
use shinkansen_fare::error::FareError;
use shinkansen_fare::fare::{ExpressFare, SingleTripAdultFare, TrainFare};
use shinkansen_fare::total_fare::calc_total_fare;
use IndividualDiscount::RoundTripDiscount;
use ReserveType::{RoundTrip, SingleTrip};

fn fare(train_fare: u64, express_fare: u64) -> SingleTripAdultFare {
    SingleTripAdultFare {
        train_fare: TrainFare { value: Amount { value: train_fare } },
        express_fare: ExpressFare { value: Amount { value: express_fare } },
    }
}

fn group(percent: u64) -> IndividualDiscount {
    IndividualDiscount::GroupDiscountUnder30 { discount_rate: Rate { percent } }
}

fn free(free_count: usize) -> Option<OverallDiscount> {
    Some(OverallDiscount::GroupDiscountMore31 { free_count })
}

fn total(
    reserve_type: ReserveType,
    adult: usize,
    child: usize,
    train_fare: u64,
    express_fare: u64,
    overall: Option<OverallDiscount>,
    individual: &[IndividualDiscount],
) -> Result<Amount, FareError> {
    calc_total_fare(&reserve_type, &NumberOfPassengers { adult, child }, &fare(train_fare, express_fare), &overall, individual)
}

#[test]
fn test_calc_total_fare() {
    let cases: Vec<(ReserveType, usize, usize, u64, u64, Option<OverallDiscount>, Vec<IndividualDiscount>, u64)> = vec![
        (SingleTrip, 1, 0, 8910, 5490, None, vec![], 14400),
        (SingleTrip, 1, 1, 8910, 5490, None, vec![], 21590),
        (SingleTrip, 2, 2, 8910, 5490, None, vec![], 43180),
        (RoundTrip, 1, 0, 8910, 5490, None, vec![], 28800),
        (RoundTrip, 1, 0, 10010, 5920, None, vec![RoundTripDiscount], 29840),
        (SingleTrip, 10, 0, 8910, 5490, None, vec![group(90)], 129500),
        (RoundTrip, 10, 0, 10010, 5920, None, vec![RoundTripDiscount, group(85)], 253600),
        (SingleTrip, 50, 0, 8910, 5490, free(1), vec![], 705600),
        (RoundTrip, 100, 0, 10010, 5920, free(2), vec![RoundTripDiscount], 2924320),
    ];
    for (reserve_type, adult, child, train_fare, express_fare, overall, individual, exp) in cases {
        assert_eq!(Ok(Amount { value: exp }), total(reserve_type, adult, child, train_fare, express_fare, overall, &individual));
    }
}

#[test]
fn scenario_one_way_single_adult() {
    assert_eq!(Ok(Amount { value: 14400 }), total(ReserveType::SingleTrip, 1, 0, 8910, 5490, None, &[]));
}

#[test]
fn scenario_round_trip_discount() {
    assert_eq!(
        Ok(Amount { value: 29840 }),
        total(ReserveType::RoundTrip, 1, 0, 10010, 5920, None, &[IndividualDiscount::RoundTripDiscount])
    );
}

#[test]
fn scenario_large_group_round_trip() {
    assert_eq!(
        Ok(Amount { value: 2924320 }),
        total(ReserveType::RoundTrip, 100, 0, 10010, 5920, free(2), &[IndividualDiscount::RoundTripDiscount])
    );
}

#[test]
fn discounts_apply_in_listed_order() {
    let pair = (TrainFare { value: Amount { value: 10010 } }, ExpressFare { value: Amount { value: 5920 } });
    let stepwise = group(85).apply(IndividualDiscount::RoundTripDiscount.apply(pair));
    assert_eq!(
        (TrainFare { value: Amount { value: 7650 } }, ExpressFare { value: Amount { value: 5030 } }),
        stepwise
    );
    let combined = total(ReserveType::RoundTrip, 10, 0, 10010, 5920, None, &[IndividualDiscount::RoundTripDiscount, group(85)]);
    assert_eq!(Ok(Amount { value: 253600 }), combined);
    let per_ticket = stepwise.0.value.value + stepwise.1.value.value;
    assert_eq!(Ok(Amount { value: per_ticket * 10 * 2 }), combined);
    let listed = total(ReserveType::RoundTrip, 10, 0, 8910, 5490, None, &[IndividualDiscount::RoundTripDiscount, group(85)]);
    let reversed = total(ReserveType::RoundTrip, 10, 0, 8910, 5490, None, &[group(85), IndividualDiscount::RoundTripDiscount]);
    assert_eq!(Ok(Amount { value: 229200 }), listed);
    assert_eq!(Ok(Amount { value: 229400 }), reversed);
}

#[test]
fn children_are_not_free_riders() {
    assert_eq!(Ok(Amount { value: 14400 * 39 + 7190 * 20 }), total(ReserveType::SingleTrip, 40, 20, 8910, 5490, free(1), &[]));
}

#[test]
fn more_free_riders_than_adults() {
    assert_eq!(Err(FareError::InvalidPassengerCount), total(ReserveType::SingleTrip, 0, 31, 8910, 5490, free(1), &[]));
    assert_eq!(Err(FareError::InvalidPassengerCount), total(ReserveType::RoundTrip, 1, 99, 8910, 5490, free(2), &[]));
    assert_eq!(Ok(Amount { value: 7190 * 31 }), total(ReserveType::SingleTrip, 1, 31, 8910, 5490, free(1), &[]));
}

#[test]
fn total_overflow_is_reported() {
    assert_eq!(Err(FareError::AmountOverflow), total(ReserveType::SingleTrip, 2, 0, u64::MAX, 0, None, &[]));
    assert_eq!(Err(FareError::AmountOverflow), total(ReserveType::RoundTrip, 1, 0, u64::MAX / 2 + 10, 0, None, &[]));
    assert_eq!(Ok(Amount { value: 0 }), total(ReserveType::RoundTrip, 0, 0, u64::MAX, u64::MAX, None, &[]));
}
