use chrono::Datelike;
use plot_app::date::{leap_year, month_length, Date};

fn clock_date() -> chrono::NaiveDate {
    chrono::DateTime::<chrono::Utc>::from(std::time::SystemTime::now()).date_naive()
}

#[test]
fn leap_years_follow_the_gregorian_rule() {
    assert!(leap_year(2024));
    assert!(!leap_year(2023));
    assert!(!leap_year(1900));
    assert!(leap_year(2000));
    assert!(!leap_year(2100));
    assert!(leap_year(0));
    assert!(leap_year(-4));
    assert!(!leap_year(-1));
    assert!(!leap_year(-100));
    assert!(leap_year(-400));
    assert!(leap_year(i32::MIN));
    assert!(!leap_year(i32::MAX));
}

#[test]
fn month_lengths_are_those_of_the_calendar() {
    let lengths = [31u32, 28, 31, 30, 31, 30, 31, 31, 30, 31, 30, 31];
    for (index, length) in lengths.iter().enumerate() {
        assert_eq!(month_length(2023, index as u32 + 1), *length);
    }
    assert_eq!(month_length(2024, 2), 29);
    assert_eq!(month_length(1900, 2), 28);
    assert_eq!(month_length(2000, 2), 29);
}

#[test]
fn a_month_that_the_calendar_lacks_has_no_days() {
    assert_eq!(month_length(2024, 0), 0);
    assert_eq!(month_length(2024, 13), 0);
    assert_eq!(month_length(2024, u32::MAX), 0);
}

#[test]
fn new_takes_the_days_that_the_calendar_has() {
    let date = Date::new(2024, 2, 29).unwrap();
    assert_eq!((date.year(), date.month(), date.day()), (2024, 2, 29));
    assert!(Date::new(2000, 2, 29).is_some());
    assert!(Date::new(2023, 12, 31).is_some());
    assert!(Date::new(2023, 1, 1).is_some());
    assert!(Date::new(-44, 3, 15).is_some());
    assert!(Date::new(i32::MAX, 12, 31).is_some());
    assert!(Date::new(i32::MIN, 1, 1).is_some());
}

#[test]
fn new_refuses_the_days_that_the_calendar_lacks() {
    assert_eq!(Date::new(2023, 2, 29), None);
    assert_eq!(Date::new(1900, 2, 29), None);
    assert_eq!(Date::new(2024, 2, 30), None);
    assert_eq!(Date::new(2024, 4, 31), None);
    assert_eq!(Date::new(2024, 0, 1), None);
    assert_eq!(Date::new(2024, 13, 1), None);
    assert_eq!(Date::new(2024, 1, 0), None);
    assert_eq!(Date::new(2024, 1, 32), None);
    assert_eq!(Date::new(2024, u32::MAX, u32::MAX), None);
}

#[test]
fn new_agrees_with_chrono_on_which_days_exist() {
    let mut year = -1200;
    while year <= 2800 {
        for month in 0..=13u32 {
            for day in 0..=32u32 {
                let ours = Date::new(year, month, day);
                let theirs = chrono::NaiveDate::from_ymd_opt(year, month, day);
                assert_eq!(ours.is_some(), theirs.is_some(), "{year}-{month}-{day}");
                if let (Some(ours), Some(theirs)) = (ours, theirs) {
                    assert_eq!(ours.year(), theirs.year());
                    assert_eq!(ours.month(), theirs.month());
                    assert_eq!(ours.day(), theirs.day());
                }
            }
        }
        year += 1;
    }
}

#[test]
fn dates_compare_by_year_month_and_day() {
    assert_eq!(Date::new(2024, 5, 17), Date::new(2024, 5, 17));
    assert_ne!(Date::new(2024, 5, 17), Date::new(2024, 5, 18));
    assert_ne!(Date::new(2024, 5, 17), Date::new(2024, 6, 17));
    assert_ne!(Date::new(2024, 5, 17), Date::new(2025, 5, 17));
}

#[test]
fn today_is_the_day_that_the_clock_says() {
    let before = clock_date();
    let today = Date::today();
    let after = clock_date();
    let read = chrono::NaiveDate::from_ymd_opt(today.year(), today.month(), today.day())
        .expect("a day of the calendar");
    assert!(before <= read && read <= after);
}

#[test]
fn today_is_a_day_that_new_takes() {
    let today = Date::today();
    assert_eq!(Date::new(today.year(), today.month(), today.day()), Some(today));
    assert!((1..=12).contains(&today.month()));
    assert!((1..=month_length(today.year(), today.month())).contains(&today.day()));
}
