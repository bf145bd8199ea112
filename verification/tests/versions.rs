use diesel_cli::text::precedes;
use diesel_cli::version::{
    migration_version, timestamp_version, version_at, versioned_name, UtcMoment,
};

fn moment(year: i32, month: u32, day: u32, hour: u32, minute: u32, second: u32) -> UtcMoment {
    UtcMoment { year, month, day, hour, minute, second }
}

#[test]
fn timestamp_version_writes_fourteen_digits() {
    assert_eq!("20180504123456", timestamp_version(&moment(2018, 5, 4, 12, 34, 56)));
}

#[test]
fn timestamp_version_pads_every_field_with_zeros() {
    assert_eq!("00070102030405", timestamp_version(&moment(7, 1, 2, 3, 4, 5)));
    assert_eq!("00000101000000", timestamp_version(&moment(0, 1, 1, 0, 0, 0)));
    assert_eq!("99991231235959", timestamp_version(&moment(9999, 12, 31, 23, 59, 59)));
}

#[test]
fn a_moment_fits_within_the_calendar_ranges_only() {
    assert!(moment(2024, 2, 29, 0, 0, 0).fits());
    assert!(moment(0, 1, 1, 0, 0, 0).fits());
    assert!(moment(9999, 12, 31, 23, 59, 59).fits());
    assert!(!moment(10000, 1, 1, 0, 0, 0).fits());
    assert!(!moment(-1, 1, 1, 0, 0, 0).fits());
    assert!(!moment(2024, 0, 1, 0, 0, 0).fits());
    assert!(!moment(2024, 13, 1, 0, 0, 0).fits());
    assert!(!moment(2024, 1, 0, 0, 0, 0).fits());
    assert!(!moment(2024, 1, 32, 0, 0, 0).fits());
    assert!(!moment(2024, 1, 1, 24, 0, 0).fits());
    assert!(!moment(2024, 1, 1, 0, 60, 0).fits());
    assert!(!moment(2024, 1, 1, 0, 0, 60).fits());
}

#[test]
fn version_at_keeps_an_explicit_version_as_it_stands() {
    let now = moment(2018, 5, 4, 12, 34, 56);
    assert_eq!(Some(String::from("1")), version_at(Some(String::from("1")), &now));
    assert_eq!(
        Some(String::from("not a timestamp")),
        version_at(Some(String::from("not a timestamp")), &now)
    );
    assert_eq!(Some(String::new()), version_at(Some(String::new()), &now));
    let beyond = moment(10000, 1, 1, 0, 0, 0);
    assert_eq!(Some(String::from("1")), version_at(Some(String::from("1")), &beyond));
}

#[test]
fn version_at_writes_the_moment_without_an_explicit_version() {
    assert_eq!(
        Some(String::from("20180504123456")),
        version_at(None, &moment(2018, 5, 4, 12, 34, 56))
    );
}

#[test]
fn version_at_has_no_version_for_a_moment_out_of_range() {
    assert_eq!(None, version_at(None, &moment(10000, 1, 1, 0, 0, 0)));
    assert_eq!(None, version_at(None, &moment(-1, 1, 1, 0, 0, 0)));
    assert_eq!(None, version_at(None, &moment(2018, 13, 1, 0, 0, 0)));
    assert_eq!(None, version_at(None, &moment(2018, 1, 1, 0, 0, 60)));
}

#[test]
fn migration_version_keeps_an_explicit_version_as_it_stands() {
    assert_eq!(Some(String::from("2")), migration_version(Some(String::from("2"))));
    assert_eq!(
        Some(String::from("Mixed Case / odd")),
        migration_version(Some(String::from("Mixed Case / odd")))
    );
}

#[test]
fn migration_version_from_the_clock_has_fourteen_digits() {
    let version = migration_version(None).unwrap();
    assert_eq!(14, version.len());
    assert!(version.chars().all(|c| c.is_ascii_digit()));
    assert!(version.as_str() > "20200101000000");
    let month: u32 = version[4..6].parse().unwrap();
    let day: u32 = version[6..8].parse().unwrap();
    let hour: u32 = version[8..10].parse().unwrap();
    assert!((1..=12).contains(&month));
    assert!((1..=31).contains(&day));
    assert!(hour <= 23);
}

#[test]
fn versions_from_the_clock_do_not_go_back() {
    let first = migration_version(None).unwrap();
    let second = migration_version(None).unwrap();
    assert!(first <= second);
    assert!(!precedes(&second, &first));
}

#[test]
fn versions_one_second_apart_are_ordered_as_the_moments() {
    let pairs = [
        (moment(2018, 5, 4, 12, 34, 56), moment(2018, 5, 4, 12, 34, 57)),
        (moment(2018, 5, 4, 12, 34, 59), moment(2018, 5, 4, 12, 35, 0)),
        (moment(2018, 5, 4, 12, 59, 59), moment(2018, 5, 4, 13, 0, 0)),
        (moment(2018, 5, 4, 23, 59, 59), moment(2018, 5, 5, 0, 0, 0)),
        (moment(2018, 9, 30, 23, 59, 59), moment(2018, 10, 1, 0, 0, 0)),
        (moment(999, 12, 31, 23, 59, 59), moment(1000, 1, 1, 0, 0, 0)),
        (moment(2018, 12, 31, 23, 59, 59), moment(2019, 1, 1, 0, 0, 0)),
    ];
    for (earlier, later) in pairs {
        let a = timestamp_version(&earlier);
        let b = timestamp_version(&later);
        assert!(precedes(&a, &b));
        assert!(!precedes(&b, &a));
        assert!(a < b);
    }
}

#[test]
fn versioned_name_joins_version_and_name_with_an_underscore() {
    assert_eq!("20180504123456_create_users", versioned_name("20180504123456", "create_users"));
}

#[test]
fn versioned_name_takes_the_name_as_it_stands() {
    assert_eq!("1_Create Users!", versioned_name("1", "Create Users!"));
    assert_eq!("_", versioned_name("", ""));
}
