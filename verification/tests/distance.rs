use weatherbot::weather::Coord;
use weatherbot::geo::distance_km_centi;
use weatherbot::render::distance_reply;

fn london() -> Coord {
    Coord { lat: 51_507_400, lon: -127_800 }
}

fn paris() -> Coord {
    Coord { lat: 48_856_600, lon: 2_352_200 }
}

fn new_york() -> Coord {
    Coord { lat: 40_712_800, lon: -74_006_000 }
}

fn tokyo() -> Coord {
    Coord { lat: 35_676_200, lon: 139_650_300 }
}

#[test]
fn distance_from_a_coordinate_to_itself_is_zero() {
    assert_eq!(distance_km_centi(&london(), &london()), 0);
    assert_eq!(distance_km_centi(&tokyo(), &tokyo()), 0);
    let origin = Coord { lat: 0, lon: 0 };
    assert_eq!(distance_km_centi(&origin, &origin), 0);
}

#[test]
fn zero_distance_formats_as_zero_in_both_units() {
    let km = distance_km_centi(&paris(), &paris());
    assert_eq!(
        distance_reply("Paris", "Paris", km),
        "The distance between Paris and Paris is 0.00 kilometers, and 0.00 miles."
    );
}

#[test]
fn distance_is_symmetric() {
    assert_eq!(
        distance_km_centi(&london(), &paris()),
        distance_km_centi(&paris(), &london())
    );
    assert_eq!(
        distance_km_centi(&new_york(), &tokyo()),
        distance_km_centi(&tokyo(), &new_york())
    );
}

#[test]
fn london_to_paris_distance() {
    // great-circle distance is 343.556 km
    assert_eq!(distance_km_centi(&london(), &paris()), 34356);
}

#[test]
fn quarter_of_the_equator() {
    // a 90-degree arc along the equator: 6371 km * pi / 2 = 10007.54 km
    let a = Coord { lat: 0, lon: 0 };
    let b = Coord { lat: 0, lon: 90_000_000 };
    assert_eq!(distance_km_centi(&a, &b), 1_000_754);
}

#[test]
fn new_york_to_tokyo_distance_reply() {
    let km = distance_km_centi(&new_york(), &tokyo());
    // 10851.73 km, 6742.95 mi
    assert_eq!(
        distance_reply("New York", "Tokyo", km),
        "The distance between New York and Tokyo is 10851.73 kilometers, and 6742.95 miles."
    );
}
