use apod_cache::date::{dates_in_range, Date};

#[test]
fn new_accepts_valid_dates() {
    assert!(Date::new(2022, 1, 1).is_some());
    assert!(Date::new(1, 1, 1).is_some());
    assert!(Date::new(9999, 12, 31).is_some());
    assert!(Date::new(2020, 2, 29).is_some());
    assert!(Date::new(2000, 2, 29).is_some());
}

#[test]
fn new_rejects_invalid_dates() {
    assert!(Date::new(2021, 2, 29).is_none());
    assert!(Date::new(1900, 2, 29).is_none());
    assert!(Date::new(2022, 0, 1).is_none());
    assert!(Date::new(2022, 13, 1).is_none());
    assert!(Date::new(2022, 4, 31).is_none());
    assert!(Date::new(0, 1, 1).is_none());
    assert!(Date::new(10000, 1, 1).is_none());
}

#[test]
fn iso_string_is_zero_padded() {
    assert_eq!(Date::new(2022, 1, 1).unwrap().iso_string(), "2022-01-01");
    assert_eq!(Date::new(999, 12, 31).unwrap().iso_string(), "0999-12-31");
    assert_eq!(Date::new(9999, 12, 31).unwrap().iso_string(), "9999-12-31");
    assert_eq!(Date::new(1, 2, 3).unwrap().iso_string(), "0001-02-03");
}

#[test]
fn next_steps_through_month_and_year_ends() {
    assert_eq!(Date::new(2020, 2, 28).unwrap().next(), Date::new(2020, 2, 29).unwrap());
    assert_eq!(Date::new(2021, 2, 28).unwrap().next(), Date::new(2021, 3, 1).unwrap());
    assert_eq!(Date::new(2021, 12, 31).unwrap().next(), Date::new(2022, 1, 1).unwrap());
    assert_eq!(Date::new(2022, 4, 30).unwrap().next(), Date::new(2022, 5, 1).unwrap());
}

#[test]
fn day_number_counts_from_year_one() {
    assert_eq!(Date::new(1, 1, 1).unwrap().day_number(), 0);
    assert_eq!(Date::new(1, 12, 31).unwrap().day_number(), 364);
    assert_eq!(Date::new(2, 1, 1).unwrap().day_number(), 365);
    assert_eq!(Date::new(5, 1, 1).unwrap().day_number(), 4 * 365 + 1);
}

#[test]
fn range_visits_each_date_once_in_ascending_order() {
    let start = Date::new(2021, 12, 30).unwrap();
    let end = Date::new(2022, 1, 2).unwrap();
    let dates = dates_in_range(&start, &end);
    assert_eq!(dates.len(), 3);
    assert_eq!(dates[0], Date::new(2021, 12, 30).unwrap());
    assert_eq!(dates[1], Date::new(2021, 12, 31).unwrap());
    assert_eq!(dates[2], Date::new(2022, 1, 1).unwrap());
}

#[test]
fn range_is_restartable() {
    let start = Date::new(2020, 2, 27).unwrap();
    let end = Date::new(2020, 3, 2).unwrap();
    let first = dates_in_range(&start, &end);
    let second = dates_in_range(&start, &end);
    assert_eq!(first, second);
    assert_eq!(first.len(), 4);
    assert_eq!(first[2], Date::new(2020, 2, 29).unwrap());
}

#[test]
fn inverted_or_empty_range_is_empty() {
    let a = Date::new(2022, 1, 2).unwrap();
    let b = Date::new(2022, 1, 1).unwrap();
    assert_eq!(dates_in_range(&a, &b).len(), 0);
    assert_eq!(dates_in_range(&a, &a).len(), 0);
}
