use liturgical_calendar::builder::calculate_christmas;
use liturgical_calendar::builder::proper_of_seasons;
use liturgical_calendar::church_day::ChurchDay;
use liturgical_calendar::church_day::ChurchYear;
use liturgical_calendar::church_day::DayClass;
use liturgical_calendar::church_day::Season;
use liturgical_calendar::dates::Date;

fn find_day(year: &ChurchYear, y: i32, m: u32, d: u32) -> &ChurchDay {
    year.days
        .iter()
        .find(|day| day.date.year == y && day.date.month == m && day.date.day == d)
        .expect("date not found in liturgical year")
}

fn count_description(year: &ChurchYear, text: &str) -> usize {
    year.days.iter().filter(|day| day.description == text).count()
}

#[test]
fn year_of_july_2024_runs_advent_to_advent() {
    let year = proper_of_seasons(Date { year: 2024, month: 7, day: 1 });
    let first = &year.days[0];
    assert_eq!((first.date.year, first.date.month, first.date.day), (2023, 12, 3));
    assert_eq!(first.description, "1st Sunday of Advent");
    assert!(matches!(first.class, DayClass::Sunday));
    assert!(matches!(first.season, Season::Advent));
    let last = &year.days[year.days.len() - 1];
    assert_eq!((last.date.year, last.date.month, last.date.day), (2024, 11, 30));
    assert_eq!(last.date.day_of_week(), 6);
}

#[test]
fn year_days_are_strictly_consecutive() {
    let year = proper_of_seasons(Date { year: 2024, month: 7, day: 1 });
    for pair in year.days.windows(2) {
        assert_eq!(pair[1].date.day_num(), pair[0].date.day_num() + 1);
    }
}

#[test]
fn named_days_appear_exactly_once() {
    let year = proper_of_seasons(Date { year: 2024, month: 7, day: 1 });
    for text in [
        "Easter Sunday of the Resurrection of the Lord",
        "Ash Wednesday",
        "Pentecost Sunday",
        "The Most Holy Trinity",
        "The Most Holy Body and Blood of Christ",
        "Our Lord Jesus Christ, King of the Universe",
        "1st Sunday of Advent",
        "The Nativity of the Lord (Christmas)",
        "The Epiphany of the Lord",
        "The Baptism of the Lord",
    ] {
        assert_eq!(count_description(&year, text), 1, "{text}");
    }
}

#[test]
fn year_contains_its_input_date_with_season() {
    let year = proper_of_seasons(Date { year: 2024, month: 7, day: 1 });
    let day = find_day(&year, 2024, 7, 1);
    assert!(matches!(day.season, Season::OrdinaryTime));
}

#[test]
fn easter_2024_day_in_year() {
    let year = proper_of_seasons(Date { year: 2024, month: 7, day: 1 });
    let day = find_day(&year, 2024, 3, 31);
    assert_eq!(day.description, "Easter Sunday of the Resurrection of the Lord");
    assert!(matches!(day.class, DayClass::Solemnity));
    assert!(matches!(day.season, Season::Easter));
}

#[test]
fn triduum_2024_days() {
    let year = proper_of_seasons(Date { year: 2024, month: 7, day: 1 });
    let thursday = find_day(&year, 2024, 3, 28);
    assert_eq!(thursday.description, "Holy Thursday");
    assert!(matches!(thursday.season, Season::Triduum));
    assert!(matches!(thursday.class, DayClass::Solemnity));
    let friday = find_day(&year, 2024, 3, 29);
    assert_eq!(friday.description, "Friday of the Passion of the Lord");
    assert!(matches!(friday.season, Season::Triduum));
    let saturday = find_day(&year, 2024, 3, 30);
    assert_eq!(saturday.description, "Holy Saturday");
    assert!(matches!(saturday.season, Season::Triduum));
    let palm = find_day(&year, 2024, 3, 24);
    assert_eq!(palm.description, "Palm Sunday of the Passion of the Lord");
    assert!(matches!(palm.season, Season::Lent));
}

#[test]
fn pentecost_offsets_2024() {
    let year = proper_of_seasons(Date { year: 2024, month: 7, day: 1 });
    let pentecost = find_day(&year, 2024, 5, 19);
    assert_eq!(pentecost.description, "Pentecost Sunday");
    let trinity = find_day(&year, 2024, 5, 26);
    assert_eq!(trinity.description, "The Most Holy Trinity");
    assert!(matches!(trinity.class, DayClass::Solemnity));
    let corpus = find_day(&year, 2024, 6, 2);
    assert_eq!(corpus.description, "The Most Holy Body and Blood of Christ");
    assert!(matches!(corpus.class, DayClass::Solemnity));
    let mercy = find_day(&year, 2024, 4, 7);
    assert_eq!(mercy.description, "Sunday of Divine Mercy");
    let ascension = find_day(&year, 2024, 5, 12);
    assert_eq!(ascension.description, "The Ascension of the Lord");
    assert!(matches!(ascension.class, DayClass::Solemnity));
}

#[test]
fn christ_the_king_2025_is_november_23() {
    let year = proper_of_seasons(Date { year: 2025, month: 6, day: 1 });
    let ctk = find_day(&year, 2025, 11, 23);
    assert_eq!(ctk.description, "Our Lord Jesus Christ, King of the Universe");
    assert!(matches!(ctk.class, DayClass::Solemnity));
    let last = &year.days[year.days.len() - 1];
    assert_eq!((last.date.year, last.date.month, last.date.day), (2025, 11, 29));
}

#[test]
fn late_advent_days_use_december_names() {
    let year = proper_of_seasons(Date { year: 2024, month: 7, day: 1 });
    let d18 = find_day(&year, 2023, 12, 18);
    assert_eq!(d18.description, "December 18th");
    let d24 = find_day(&year, 2023, 12, 24);
    assert_eq!(d24.description, "December 24th");
    // December 24, 2023 is a Sunday: it keeps the Sunday rank under the
    // Late Advent name.
    assert!(matches!(d24.class, DayClass::Sunday));
    let d21 = find_day(&year, 2023, 12, 21);
    assert_eq!(d21.description, "December 21st");
}

#[test]
fn counted_sundays_2024() {
    let year = proper_of_seasons(Date { year: 2024, month: 7, day: 1 });
    let advent2 = find_day(&year, 2023, 12, 10);
    assert_eq!(advent2.description, "2nd Sunday of Advent");
    let ot2 = find_day(&year, 2024, 1, 21);
    assert_eq!(ot2.description, "2nd Sunday of Ordinary Time");
    let lent1 = find_day(&year, 2024, 2, 18);
    assert_eq!(lent1.description, "1st Sunday of Lent");
    let lent5 = find_day(&year, 2024, 3, 17);
    assert_eq!(lent5.description, "5th Sunday of Lent");
    let easter3 = find_day(&year, 2024, 4, 14);
    assert_eq!(easter3.description, "3rd Sunday of Easter");
}

#[test]
fn weekday_descriptions_2024() {
    let year = proper_of_seasons(Date { year: 2024, month: 7, day: 1 });
    let monday_ot1 = find_day(&year, 2024, 1, 15);
    assert_eq!(monday_ot1.description, "Monday of the 1st week of Ordinary Time");
    assert!(matches!(monday_ot1.class, DayClass::FerialWeekday));
    let thursday_after_aw = find_day(&year, 2024, 2, 15);
    assert_eq!(thursday_after_aw.description, "Thursday after Ash Wednesday");
    let friday_octave = find_day(&year, 2024, 4, 5);
    assert_eq!(friday_octave.description, "Friday within the Octave of Easter");
    assert!(matches!(friday_octave.class, DayClass::Solemnity));
}

#[test]
fn christmas_octave_2023() {
    let days = calculate_christmas(2023);
    assert_eq!(days[0].description, "The Nativity of the Lord (Christmas)");
    assert_eq!(days[1].description, "Saint Stephen, First Martyr");
    assert_eq!(days[2].description, "Saint John, Apostle and Evangelist");
    assert_eq!(days[3].description, "Holy Innocents");
    assert_eq!(days[4].description, "Fifth Day within the Octave of the Nativity of the Lord");
    assert_eq!(days[5].description, "Sixth Day within the Octave of the Nativity of the Lord");
    // December 31, 2023 was a Sunday: the Holy Family replaces the
    // seventh octave day.
    assert_eq!(days[6].description, "The Holy Family of Jesus, Mary, and Joseph");
    assert!(matches!(days[6].class, DayClass::Feast));
}

#[test]
fn holy_family_moves_to_december_30_when_christmas_is_sunday() {
    // December 25, 2022 was a Sunday, so no Sunday falls within
    // December 26..=31.
    let days = calculate_christmas(2022);
    let d30 = &days[5];
    assert_eq!((d30.date.month, d30.date.day), (12, 30));
    assert_eq!(d30.description, "The Holy Family of Jesus, Mary, and Joseph");
    assert!(matches!(d30.class, DayClass::Feast));
    // January 1, 2023, a Sunday before Epiphany, stays an ordinary
    // Christmas-season Sunday.
    let jan1 = &days[7];
    assert_eq!((jan1.date.year, jan1.date.month, jan1.date.day), (2023, 1, 1));
    assert_eq!(jan1.description, "Sunday between Christmas and Epiphany");
    assert!(matches!(jan1.class, DayClass::Sunday));
}
