use liturgical_calendar::anchors::ash_wednesday;
use liturgical_calendar::anchors::baptism;
use liturgical_calendar::anchors::easter_for_year;
use liturgical_calendar::anchors::epiphany;
use liturgical_calendar::anchors::first_sunday_advent;
use liturgical_calendar::anchors::pentecost;
use liturgical_calendar::church_day::DayClass;
use liturgical_calendar::church_day::Season;

#[test]
fn easter_2024_is_march_31() {
    let e = easter_for_year(2024);
    assert_eq!(e.date.year, 2024);
    assert_eq!(e.date.month, 3);
    assert_eq!(e.date.day, 31);
    assert_eq!(e.date.day_of_week(), 0);
    assert_eq!(e.description, "Easter Sunday of the Resurrection of the Lord");
    assert!(matches!(e.class, DayClass::Solemnity));
    assert!(matches!(e.season, Season::Easter));
}

#[test]
fn easter_2025_is_april_20() {
    let e = easter_for_year(2025);
    assert_eq!((e.date.month, e.date.day), (4, 20));
    assert_eq!(e.date.day_of_week(), 0);
}

#[test]
fn easter_2038_is_april_25_the_latest() {
    let e = easter_for_year(2038);
    assert_eq!((e.date.month, e.date.day), (4, 25));
    assert_eq!(e.date.day_of_week(), 0);
}

#[test]
fn easter_2285_is_march_22_the_earliest() {
    let e = easter_for_year(2285);
    assert_eq!((e.date.month, e.date.day), (3, 22));
    assert_eq!(e.date.day_of_week(), 0);
}

#[test]
fn easter_always_sunday_in_window_for_a_century() {
    for year in 2000..2100 {
        let e = easter_for_year(year);
        assert_eq!(e.date.day_of_week(), 0);
        let in_window = (e.date.month == 3 && e.date.day >= 22) || (e.date.month == 4
            && e.date.day <= 25);
        assert!(in_window);
    }
}

#[test]
fn ash_wednesday_2024_is_february_14() {
    let e = easter_for_year(2024);
    let aw = ash_wednesday(&e);
    assert_eq!((aw.date.year, aw.date.month, aw.date.day), (2024, 2, 14));
    assert_eq!(aw.date.day_of_week(), 3);
    assert_eq!(aw.description, "Ash Wednesday");
    assert!(matches!(aw.class, DayClass::Solemnity));
    assert!(matches!(aw.season, Season::Lent));
}

#[test]
fn pentecost_2024_is_may_19() {
    let p = pentecost(easter_for_year(2024));
    assert_eq!((p.date.year, p.date.month, p.date.day), (2024, 5, 19));
    assert_eq!(p.description, "Pentecost Sunday");
    assert!(matches!(p.class, DayClass::Solemnity));
}

#[test]
fn first_sunday_advent_2023_is_december_3() {
    let a = first_sunday_advent(2023);
    assert_eq!((a.date.year, a.date.month, a.date.day), (2023, 12, 3));
    assert_eq!(a.date.day_of_week(), 0);
    assert_eq!(a.description, "1st Sunday of Advent");
    assert!(matches!(a.class, DayClass::Sunday));
    assert!(matches!(a.season, Season::Advent));
}

#[test]
fn first_sunday_advent_2024_is_december_1() {
    let a = first_sunday_advent(2024);
    assert_eq!((a.date.month, a.date.day), (12, 1));
    assert_eq!(a.date.day_of_week(), 0);
}

#[test]
fn first_sunday_advent_2025_is_november_30() {
    let a = first_sunday_advent(2025);
    assert_eq!((a.date.month, a.date.day), (11, 30));
    assert_eq!(a.date.day_of_week(), 0);
}

#[test]
fn epiphany_2024_is_january_7() {
    let e = epiphany(2024).unwrap();
    assert_eq!((e.date.year, e.date.month, e.date.day), (2024, 1, 7));
    assert_eq!(e.date.day_of_week(), 0);
    assert_eq!(e.description, "The Epiphany of the Lord");
    assert!(matches!(e.class, DayClass::Solemnity));
    assert!(matches!(e.season, Season::Christmas));
}

#[test]
fn epiphany_exists_even_when_january_1_is_sunday() {
    // January 1, 2023 was a Sunday; the first Sunday of the window is
    // January 8.
    let e = epiphany(2023).unwrap();
    assert_eq!((e.date.month, e.date.day), (1, 8));
    assert_eq!(e.date.day_of_week(), 0);
}

#[test]
fn baptism_2024_is_january_14() {
    let b = baptism(epiphany(2024).unwrap());
    assert_eq!((b.date.year, b.date.month, b.date.day), (2024, 1, 14));
    assert_eq!(b.description, "The Baptism of the Lord");
    assert!(matches!(b.class, DayClass::Feast));
    assert!(matches!(b.season, Season::Christmas));
}
