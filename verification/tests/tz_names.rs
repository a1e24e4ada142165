//! Time-zone name matching against the real zone catalogue.

use raystack::{skyspark_tz_string_to_tz, time_zone_name_to_short_name};

#[test]
fn short_name_match_works() {
    let tz = skyspark_tz_string_to_tz("Sydney").unwrap();
    assert_eq!(tz, chrono_tz::Tz::Australia__Sydney);
}

#[test]
fn full_name_match_works() {
    let tz = skyspark_tz_string_to_tz("Australia/Sydney").unwrap();
    assert_eq!(tz, chrono_tz::Tz::Australia__Sydney);
}

#[test]
fn unknown_name_matches_nothing() {
    assert!(skyspark_tz_string_to_tz("Not_A_Zone_At_All").is_none());
}

#[test]
fn short_name_is_last_segment() {
    assert_eq!(time_zone_name_to_short_name("America/New_York"), "New_York");
    assert_eq!(time_zone_name_to_short_name("America/Argentina/Buenos_Aires"), "Buenos_Aires");
    assert_eq!(time_zone_name_to_short_name("UTC"), "UTC");
}
