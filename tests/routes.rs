use shinkansen_fare::error::FareError;
use shinkansen_fare::fare::{calc_train_fare, TrainFare};
use shinkansen_fare::amount::Amount;
use shinkansen_fare::ride_section::{OperatingKilometer, RideSection, Station};

fn section(departure: Station, arrival: Station) -> RideSection {
    RideSection { departure, arrival }
}

#[test]
fn get_operation_kilometer() {
    let cases = [
        (Station::Tokyo, Station::ShinOsaka, 553),
        (Station::ShinOsaka, Station::Tokyo, 553),
        (Station::Tokyo, Station::Himeji, 644),
        (Station::Himeji, Station::Tokyo, 644),
    ];
    for (departure, arrival, exp) in cases {
        assert_eq!(Ok(OperatingKilometer { value: exp }), section(departure, arrival).get_operation_kilometer());
    }
}

#[test]
fn get_station_pair_is_direction_free() {
    assert_eq!((Station::Tokyo, Station::Himeji), section(Station::Himeji, Station::Tokyo).get_station_pair());
    assert_eq!((Station::Tokyo, Station::Himeji), section(Station::Tokyo, Station::Himeji).get_station_pair());
    assert_eq!(
        (Station::ShinOsaka, Station::Himeji),
        section(Station::Himeji, Station::ShinOsaka).get_station_pair()
    );
}

#[test]
fn test_create_train_fare() {
    let cases = [
        (Station::Tokyo, Station::ShinOsaka, 8910),
        (Station::ShinOsaka, Station::Tokyo, 8910),
        (Station::Tokyo, Station::Himeji, 10010),
        (Station::Himeji, Station::Tokyo, 10010),
    ];
    for (departure, arrival, exp) in cases {
        assert_eq!(Ok(TrainFare { value: Amount { value: exp } }), calc_train_fare(&section(departure, arrival)));
    }
}

#[test]
fn train_fare_is_symmetric_and_unknown_pairs_fail() {
    let stations = [Station::Tokyo, Station::ShinOsaka, Station::Himeji];
    for a in stations {
        for b in stations {
            assert_eq!(calc_train_fare(&section(a, b)), calc_train_fare(&section(b, a)));
        }
    }
    assert_eq!(Err(FareError::UnknownRoute), calc_train_fare(&section(Station::ShinOsaka, Station::Himeji)));
    assert_eq!(Err(FareError::UnknownRoute), calc_train_fare(&section(Station::Himeji, Station::ShinOsaka)));
    assert_eq!(Err(FareError::UnknownRoute), calc_train_fare(&section(Station::Tokyo, Station::Tokyo)));
    assert_eq!(
        Err(FareError::UnknownRoute),
        section(Station::Himeji, Station::ShinOsaka).get_operation_kilometer()
    );
}
