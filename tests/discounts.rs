use shinkansen_fare::amount::{Amount, Rate};
use shinkansen_fare::base::NumberOfPassengers;
use shinkansen_fare::departure_date::Season;
use shinkansen_fare::discount::{judge_individual_discounts, judge_overall_discount, IndividualDiscount, OverallDiscount};
use shinkansen_fare::error::FareError;
use shinkansen_fare::fare::{ExpressFare, TrainFare};
use shinkansen_fare::ride_section::{RideSection, Station};

fn group(percent: u64) -> IndividualDiscount {
    IndividualDiscount::GroupDiscountUnder30 { discount_rate: Rate { percent } }
}

fn individual(departure: Station, arrival: Station, adult: usize, child: usize, season: Season) -> Vec<IndividualDiscount> {
    judge_individual_discounts(&RideSection { departure, arrival }, &NumberOfPassengers { adult, child }, &season).unwrap()
}

#[test]
fn test_create_individual_discounts_no_result() {
    assert_eq!(0, individual(Station::Tokyo, Station::ShinOsaka, 1, 0, Season::Regular).len());
    assert_eq!(0, individual(Station::Tokyo, Station::ShinOsaka, 31, 0, Season::Regular).len());
    assert_eq!(0, individual(Station::Tokyo, Station::ShinOsaka, 16, 15, Season::Regular).len());
}

#[test]
fn test_create_individual_discounts() {
    let cases = [
        (Station::Tokyo, Station::Himeji, 1, 0, Season::Regular, IndividualDiscount::RoundTripDiscount),
        (Station::Tokyo, Station::ShinOsaka, 8, 0, Season::Peak, group(90)),
        (Station::Tokyo, Station::ShinOsaka, 8, 0, Season::Regular, group(85)),
        (Station::Tokyo, Station::ShinOsaka, 8, 0, Season::OffPeak, group(85)),
        (Station::Tokyo, Station::ShinOsaka, 4, 4, Season::Regular, group(85)),
        (Station::Tokyo, Station::ShinOsaka, 15, 15, Season::Regular, group(85)),
    ];
    for (departure, arrival, adult, child, season, exp) in cases {
        assert_eq!(vec![exp], individual(departure, arrival, adult, child, season));
    }
}

#[test]
fn individual_discount_thresholds() {
    for total in [1, 7, 31] {
        assert_eq!(0, individual(Station::Tokyo, Station::ShinOsaka, total, 0, Season::Regular).len());
        assert_eq!(0, individual(Station::Tokyo, Station::ShinOsaka, 0, total, Season::Peak).len());
    }
    for total in [8, 30] {
        assert_eq!(vec![group(85)], individual(Station::Tokyo, Station::ShinOsaka, total, 0, Season::Regular));
        assert_eq!(vec![group(85)], individual(Station::Tokyo, Station::ShinOsaka, 0, total, Season::OffPeak));
        assert_eq!(vec![group(90)], individual(Station::Tokyo, Station::ShinOsaka, total, 0, Season::Peak));
    }
}

#[test]
fn both_individual_discounts_in_order() {
    assert_eq!(
        vec![IndividualDiscount::RoundTripDiscount, group(90)],
        individual(Station::Himeji, Station::Tokyo, 5, 5, Season::Peak)
    );
    assert_eq!(
        Err(FareError::UnknownRoute),
        judge_individual_discounts(
            &RideSection { departure: Station::ShinOsaka, arrival: Station::Himeji },
            &NumberOfPassengers { adult: 1, child: 0 },
            &Season::Regular
        )
    );
}

#[test]
fn apply() {
    let cases = [
        (IndividualDiscount::RoundTripDiscount, 10010, 5920, 9000, 5920),
        (group(90), 8910, 5490, 8010, 4940),
        (group(85), 8910, 5490, 7570, 4660),
    ];
    for (sut, train_fare, express_fare, applied_train_fare, applied_express_fare) in cases {
        let fare = (TrainFare { value: Amount { value: train_fare } }, ExpressFare { value: Amount { value: express_fare } });
        let exp = (
            TrainFare { value: Amount { value: applied_train_fare } },
            ExpressFare { value: Amount { value: applied_express_fare } },
        );
        assert_eq!(exp, sut.apply(fare));
    }
}

#[test]
fn test_create_overall_discounts_no_result() {
    for (adult, child) in [(1, 0), (0, 1), (7, 0), (0, 7), (30, 0), (15, 15)] {
        assert_eq!(None, judge_overall_discount(&NumberOfPassengers { adult, child }));
    }
}

#[test]
fn test_create_overall_discounts() {
    let cases = [(31, 0, 1), (50, 0, 1), (51, 0, 1), (99, 0, 1), (100, 0, 2), (0, 31, 1), (60, 90, 3)];
    for (adult, child, free_count) in cases {
        assert_eq!(
            Some(OverallDiscount::GroupDiscountMore31 { free_count }),
            judge_overall_discount(&NumberOfPassengers { adult, child })
        );
    }
}

#[test]
fn total_counts_both() {
    assert_eq!(0, NumberOfPassengers { adult: 0, child: 0 }.total());
    assert_eq!(60, NumberOfPassengers { adult: 40, child: 20 }.total());
}
