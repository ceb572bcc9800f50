use liturgical_calendar::church_day::ChurchDay;
use liturgical_calendar::church_day::DayClass;
use liturgical_calendar::church_day::Season;
use liturgical_calendar::dates::Date;
use liturgical_calendar::dates::days_in_month;
use liturgical_calendar::dates::is_leap_year;
use liturgical_calendar::text::day_string;
use liturgical_calendar::text::month_string;
use liturgical_calendar::text::number_string;
use liturgical_calendar::text::ordinal_suffix;

#[test]
fn leap_year_rule() {
    assert!(is_leap_year(2024));
    assert!(!is_leap_year(2023));
    assert!(!is_leap_year(1900));
    assert!(is_leap_year(2000));
    assert!(!is_leap_year(2100));
}

#[test]
fn month_lengths() {
    assert_eq!(days_in_month(2, 2024), 29);
    assert_eq!(days_in_month(2, 2023), 28);
    assert_eq!(days_in_month(4, 2023), 30);
    assert_eq!(days_in_month(12, 2023), 31);
    assert_eq!(days_in_month(13, 2023), 0);
}

#[test]
fn invalid_dates_are_rejected() {
    assert!(Date::try_new(2024, 2, 30).is_none());
    assert!(Date::try_new(2024, 13, 1).is_none());
    assert!(Date::try_new(2024, 0, 10).is_none());
    assert!(Date::try_new(2023, 2, 29).is_none());
    assert!(Date::try_new(2024, 2, 29).is_some());
}

#[test]
fn weekday_agrees_with_civil_reality() {
    assert_eq!(Date { year: 2024, month: 7, day: 1 }.day_of_week(), 1);
    assert_eq!(Date { year: 2000, month: 1, day: 1 }.day_of_week(), 6);
    assert_eq!(Date { year: 1583, month: 1, day: 1 }.day_of_week(), 6);
    assert_eq!(Date { year: 2023, month: 12, day: 3 }.day_of_week(), 0);
}

#[test]
fn day_arithmetic_crosses_months_and_years() {
    let feb28 = Date { year: 2024, month: 2, day: 28 };
    let feb29 = feb28.add_days(1);
    assert_eq!((feb29.month, feb29.day), (2, 29));
    let mar1 = feb28.add_days(2);
    assert_eq!((mar1.month, mar1.day), (3, 1));
    let dec31 = Date { year: 2023, month: 12, day: 31 };
    let jan1 = dec31.add_days(1);
    assert_eq!((jan1.year, jan1.month, jan1.day), (2024, 1, 1));
    assert_eq!(jan1.subtract_days(1), dec31);
    let back = Date { year: 2024, month: 3, day: 31 }.subtract_days(46);
    assert_eq!((back.month, back.day), (2, 14));
}

#[test]
fn ordinal_suffixes() {
    assert_eq!(ordinal_suffix(1), "st");
    assert_eq!(ordinal_suffix(2), "nd");
    assert_eq!(ordinal_suffix(3), "rd");
    assert_eq!(ordinal_suffix(4), "th");
    assert_eq!(ordinal_suffix(11), "th");
    assert_eq!(ordinal_suffix(12), "th");
    assert_eq!(ordinal_suffix(13), "th");
    assert_eq!(ordinal_suffix(21), "st");
    assert_eq!(ordinal_suffix(22), "nd");
    assert_eq!(ordinal_suffix(23), "rd");
    assert_eq!(ordinal_suffix(34), "th");
}

#[test]
fn number_rendering() {
    assert_eq!(number_string(0), "0");
    assert_eq!(number_string(7), "7");
    assert_eq!(number_string(10), "10");
    assert_eq!(number_string(34), "34");
    assert_eq!(number_string(99), "99");
}

#[test]
fn weekday_and_month_names() {
    assert_eq!(day_string(0), "Sunday");
    assert_eq!(day_string(3), "Wednesday");
    assert_eq!(day_string(6), "Saturday");
    assert_eq!(month_string(1), "January");
    assert_eq!(month_string(12), "December");
}

#[test]
fn church_day_construction_and_display_helpers() {
    let day = ChurchDay::new(
        2024,
        7,
        1,
        DayClass::FerialWeekday,
        Season::OrdinaryTime,
        "Monday of the 13th week of Ordinary Time",
    );
    assert_eq!((day.date.year, day.date.month, day.date.day), (2024, 7, 1));
    assert_eq!(day.month_name(), "July");
    assert_eq!(day.string_day_of_week(), "Monday");
    assert_eq!(day.description, "Monday of the 13th week of Ordinary Time");
}

#[test]
fn class_and_season_names() {
    assert_eq!(DayClass::Solemnity.name(), "Solemnity");
    assert_eq!(DayClass::SeasonalWeekday.name(), "Seasonal Weekday");
    assert_eq!(DayClass::FerialWeekday.name(), "Ferial");
    assert_eq!(DayClass::Memorial.name(), "Memorial");
    assert_eq!(Season::Triduum.name(), "Sacred Triduum");
    assert_eq!(Season::OrdinaryTime.name(), "Ordinary Time");
}
