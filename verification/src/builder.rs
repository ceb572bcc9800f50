//! Season builders and the year assembler.
//!
//! Each builder takes its anchor day(s) and emits the ordered list of
//! days of one season. Every builder's contract pins, for each emitted
//! day, the date (consecutive day numbers), the season, the rank and
//! the exact description text, via the spec functions defined here
//! over day numbers.

use crate::anchors::easter_for_year;
use crate::anchors::epiphany;
use crate::anchors::epiphany_num;
use crate::anchors::fsa_num;
use crate::church_day::ChurchDay;
use crate::church_day::ChurchYear;
use crate::church_day::DayClass;
use crate::church_day::Season;
use crate::dates::Date;
use crate::dates::day_number;
use crate::dates::days_before_month;
use crate::dates::days_before_year;
use crate::dates::days_in_month_spec;
use crate::dates::lemma_days_in_year;
use crate::dates::lemma_dby_bounds;
use crate::dates::lemma_dbm_monotone;
use crate::dates::lemma_dby_succ;
use crate::dates::lemma_num_range;
use crate::dates::lemma_year_ge;
use crate::dates::lemma_year_le;
use crate::text::december_desc;
use crate::text::december_text;
use crate::text::nth_sunday_text;
use crate::text::sunday_desc;
use crate::text::weekday_week_desc;
use crate::text::weekday_week_text;
use vstd::arithmetic::div_mod::lemma_fundamental_div_mod;
use vstd::arithmetic::div_mod::lemma_fundamental_div_mod_converse;
use vstd::arithmetic::div_mod::lemma_mod_division_less_than_divisor;
use vstd::arithmetic::div_mod::lemma_mod_multiples_vanish;
use vstd::prelude::*;

verus! {

// ---------------------------------------------------------------- Advent
/// Advent week count at day `t`: week 1 starts on the First Sunday of
/// Advent `fsa` and each later Sunday opens the next week.
pub open spec fn advent_week(fsa: int, t: int) -> int {
    (t - fsa) / 7 + 1
}

/// Rank of an Advent day.
pub open spec fn advent_class(t: int) -> DayClass {
    if t % 7 == 0 {
        DayClass::Sunday
    } else {
        DayClass::SeasonalWeekday
    }
}

/// Description of an Advent day: "December Nth" from December 17 on,
/// otherwise the counted Sunday or weekday form.
pub open spec fn advent_desc(fsa: int, dec24: int, t: int) -> Seq<char> {
    if t > dec24 - 8 {
        december_text(t - dec24 + 24)
    } else if t % 7 == 0 {
        nth_sunday_text(advent_week(fsa, t), "Advent"@)
    } else {
        weekday_week_text(t % 7, advent_week(fsa, t), "Advent"@)
    }
}

/// What the Advent builder promises of its `j`-th emitted day.
pub open spec fn advent_day_ok(y: int, fsa: int, d: ChurchDay, j: int) -> bool {
    &&& d.wf()
    &&& d.date.num() == fsa + j
    &&& d.season == Season::Advent
    &&& d.class == advent_class(fsa + j)
    &&& d.description@ == advent_desc(fsa, day_number(y, 12, 24), fsa + j)
}

/// Emits Advent: from the First Sunday of Advent through December 24.
pub fn calculate_advent(start: ChurchDay) -> (days: Vec<ChurchDay>)
    requires
        start.wf(),
        5 <= start.date.year <= 19000,
        start.date.num() == fsa_num(start.date.year as int),
        day_number(start.date.year as int, 11, 27) <= start.date.num(),
        start.date.num() <= day_number(start.date.year as int, 12, 3),
        start.date.num() % 7 == 0,
        start.class == DayClass::Sunday,
        start.season == Season::Advent,
        start.description@ == nth_sunday_text(1, "Advent"@),
    ensures
        days@.len() == day_number(start.date.year as int, 12, 24) - start.date.num() + 1,
        forall|j: int|
            #![trigger days@[j]]
            0 <= j < days@.len() ==> advent_day_ok(
                start.date.year as int,
                start.date.num(),
                days@[j],
                j,
            ),
{
    let year = start.date.year;
    let ghost y = year as int;
    let ghost fsa = start.date.num();
    let mut cur: Date = start.date;
    let fsa_n: u64 = start.date.day_num();
    let mut n: u64 = fsa_n;
    let end_date = Date { year, month: 12, day: 24 };
    let end_n: u64 = end_date.day_num();
    let ghost dec24 = day_number(y, 12, 24);
    let mut days: Vec<ChurchDay> = Vec::new();
    days.push(start);
    proof {
        lemma_fundamental_div_mod_converse(0, 7, 0, 0);
        assert(advent_day_ok(y, fsa, days@[0], 0));
    }
    while n < end_n
        invariant
            cur.wf(),
            cur.year == year,
            5 <= year <= 19000,
            y == year as int,
            fsa % 7 == 0,
            day_number(y, 11, 27) <= fsa <= day_number(y, 12, 3),
            dec24 == day_number(y, 12, 24),
            end_date == (Date { year, month: 12, day: 24 }),
            end_date.wf(),
            end_date.num() == dec24,
            end_n as int == dec24,
            fsa_n as int == fsa,
            n as int == cur.num(),
            fsa <= n as int <= dec24,
            days@.len() == n as int - fsa + 1,
            forall|j: int|
                #![trigger days@[j]]
                0 <= j < days@.len() ==> advent_day_ok(y, fsa, days@[j], j),
        decreases end_n - n,
    {
        let next = cur.next_day();
        let next_n = n + 1;
        proof {
            lemma_dbm_monotone(y, 1, 11);
            lemma_year_ge(next, y);
            lemma_num_range(end_date);
            lemma_year_le(next, y);
            if next.month < 11 {
                assert(days_before_month(y, next.month as int + 1) == days_before_month(
                    y,
                    next.month as int,
                ) + days_in_month_spec(y, next.month as int));
                lemma_dbm_monotone(y, next.month as int + 1, 11);
                assert(false);
            }
            assert(days_before_month(y, 12) == days_before_month(y, 11) + 30);
            lemma_fundamental_div_mod(next.num() - fsa, 7);
            lemma_mod_division_less_than_divisor(next.num() - fsa, 7);
        }
        let w = next.day_of_week();
        let late_advent = next.month == 12 && next.day >= 17;
        let nn = ((next_n - fsa_n) / 7 + 1) as u32;
        let desc = if late_advent {
            december_desc(next.day)
        } else if w == 0 {
            sunday_desc(nn, "Advent")
        } else {
            weekday_week_desc(w, nn, "Advent")
        };
        let cls = if w == 0 {
            DayClass::Sunday
        } else {
            DayClass::SeasonalWeekday
        };
        days.push(ChurchDay { date: next, class: cls, season: Season::Advent, description: desc });
        cur = next;
        n = next_n;
    }
    days
}

// ------------------------------------------------------------- Christmas
/// Fixed octave-day names for December 26 through 31, by day of month.
pub open spec fn octave_text(dom: int) -> Seq<char> {
    if dom == 26 {
        "Saint Stephen, First Martyr"@
    } else if dom == 27 {
        "Saint John, Apostle and Evangelist"@
    } else if dom == 28 {
        "Holy Innocents"@
    } else if dom == 29 {
        "Fifth Day within the Octave of the Nativity of the Lord"@
    } else if dom == 30 {
        "Sixth Day within the Octave of the Nativity of the Lord"@
    } else {
        "Seventh Day within the Octave of the Nativity of the Lord"@
    }
}

/// Rank of a day of the Christmas season, `dec25` through `ep + 7`.
/// Holy Family is the Sunday within the octave, or December 30 when
/// Christmas itself falls on a Sunday and the octave has no Sunday.
pub open spec fn christmas_class(dec25: int, ep: int, t: int) -> DayClass {
    if t == dec25 || t == ep {
        DayClass::Solemnity
    } else if t == ep + 7 {
        DayClass::Feast
    } else if t <= dec25 + 6 && t % 7 == 0 {
        DayClass::Feast
    } else if t <= dec25 + 6 && dec25 % 7 == 0 && t == dec25 + 5 {
        DayClass::Feast
    } else if t % 7 == 0 {
        DayClass::Sunday
    } else {
        DayClass::SeasonalWeekday
    }
}

/// Description of a day of the Christmas season.
pub open spec fn christmas_desc(dec25: int, ep: int, t: int) -> Seq<char> {
    if t == dec25 {
        "The Nativity of the Lord (Christmas)"@
    } else if t == ep {
        "The Epiphany of the Lord"@
    } else if t == ep + 7 {
        "The Baptism of the Lord"@
    } else if t > ep {
        crate::text::weekday_then_text(t % 7, " between Epiphany and Baptism of the Lord"@)
    } else if t <= dec25 + 6 {
        if t % 7 == 0 {
            "The Holy Family of Jesus, Mary, and Joseph"@
        } else if dec25 % 7 == 0 && t == dec25 + 5 {
            "The Holy Family of Jesus, Mary, and Joseph"@
        } else {
            octave_text(t - dec25 + 25)
        }
    } else {
        crate::text::weekday_then_text(t % 7, " between Christmas and Epiphany"@)
    }
}

/// What the Christmas builder promises of its `j`-th emitted day.
pub open spec fn christmas_day_ok(y: int, d: ChurchDay, j: int) -> bool {
    let dec25 = day_number(y, 12, 25);
    let ep = epiphany_num(y + 1);
    &&& d.wf()
    &&& d.date.num() == dec25 + j
    &&& d.season == Season::Christmas
    &&& d.class == christmas_class(dec25, ep, dec25 + j)
    &&& d.description@ == christmas_desc(dec25, ep, dec25 + j)
}

/// The fixed octave-day name for December `dom`, 26 through 31.
fn octave_string(dom: u32) -> (s: String)
    requires
        26 <= dom <= 31,
    ensures
        s@ == octave_text(dom as int),
{
    if dom == 26 {
        String::from_str("Saint Stephen, First Martyr")
    } else if dom == 27 {
        String::from_str("Saint John, Apostle and Evangelist")
    } else if dom == 28 {
        String::from_str("Holy Innocents")
    } else if dom == 29 {
        String::from_str("Fifth Day within the Octave of the Nativity of the Lord")
    } else if dom == 30 {
        String::from_str("Sixth Day within the Octave of the Nativity of the Lord")
    } else {
        String::from_str("Seventh Day within the Octave of the Nativity of the Lord")
    }
}

/// Emits the Christmas season: December 25 of `year` through the
/// Baptism of the Lord of the following January.
#[verifier::rlimit(80)]
pub fn calculate_christmas(year: i32) -> (days: Vec<ChurchDay>)
    requires
        5 <= year <= 18999,
    ensures
        days@.len() == epiphany_num(year as int + 1) + 7 - day_number(year as int, 12, 25) + 1,
        forall|j: int|
            #![trigger days@[j]]
            0 <= j < days@.len() ==> christmas_day_ok(year as int, days@[j], j),
{
    let ghost y = year as int;
    let christmas_date = Date { year, month: 12, day: 25 };
    let w25 = christmas_date.day_of_week();
    let mut cur = christmas_date;
    let mut n: u64 = christmas_date.day_num();
    let ghost dec25 = day_number(y, 12, 25);
    let ep_day = epiphany(year + 1).unwrap();
    let ep_n: u64 = ep_day.date.day_num();
    let bap_n: u64 = ep_n + 7;
    let ghost ep = epiphany_num(y + 1);
    let mut days: Vec<ChurchDay> = Vec::new();
    days.push(
        ChurchDay {
            date: christmas_date,
            class: DayClass::Solemnity,
            season: Season::Christmas,
            description: String::from_str("The Nativity of the Lord (Christmas)"),
        },
    );
    proof {
        lemma_dbm_monotone(y, 1, 12);
        lemma_days_in_year(y);
        lemma_dby_succ(y);
        assert(christmas_day_ok(y, days@[0], 0));
    }
    while n < bap_n
        invariant
            cur.wf(),
            5 <= year <= 18999,
            y == year as int,
            dec25 == day_number(y, 12, 25),
            ep == epiphany_num(y + 1),
            ep % 7 == 0,
            day_number(y + 1, 1, 2) <= ep <= day_number(y + 1, 1, 8),
            ep_n as int == ep,
            bap_n as int == ep + 7,
            w25 as int == dec25 % 7,
            n as int == cur.num(),
            dec25 <= n as int <= ep + 7,
            days@.len() == n as int - dec25 + 1,
            forall|j: int|
                #![trigger days@[j]]
                0 <= j < days@.len() ==> christmas_day_ok(y, days@[j], j),
        decreases bap_n - n,
    {
        proof {
            lemma_dbm_monotone(y, 1, 12);
            lemma_num_range(cur);
            lemma_year_le(cur, y + 1);
            lemma_dby_succ(y + 1);
            lemma_year_ge(cur, y);
        }
        let next = cur.next_day();
        let next_n = n + 1;
        proof {
            lemma_year_ge(next, y);
            lemma_days_in_year(y);
            lemma_dby_succ(y);
            lemma_year_le(next, y + 1);
            if next.year == year {
                if next.month < 12 {
                    assert(days_before_month(y, next.month as int + 1) == days_before_month(
                        y,
                        next.month as int,
                    ) + days_in_month_spec(y, next.month as int));
                    lemma_dbm_monotone(y, next.month as int + 1, 12);
                    assert(false);
                }
            } else {
                assert(next.year == year + 1);
                if next.month >= 2 {
                    assert(days_before_month(y + 1, 2) == 31);
                    lemma_dbm_monotone(y + 1, 2, next.month as int);
                    assert(false);
                }
            }
        }
        let w = next.day_of_week();
        let day_rec = if next_n == ep_n {
            ChurchDay {
                date: next,
                class: DayClass::Solemnity,
                season: Season::Christmas,
                description: String::from_str("The Epiphany of the Lord"),
            }
        } else if next_n == bap_n {
            ChurchDay {
                date: next,
                class: DayClass::Feast,
                season: Season::Christmas,
                description: String::from_str("The Baptism of the Lord"),
            }
        } else if next_n > ep_n {
            ChurchDay {
                date: next,
                class: DayClass::SeasonalWeekday,
                season: Season::Christmas,
                description: crate::text::weekday_then_desc(
                    w,
                    " between Epiphany and Baptism of the Lord",
                ),
            }
        } else if next.month == 12 {
            if w == 0 {
                ChurchDay {
                    date: next,
                    class: DayClass::Feast,
                    season: Season::Christmas,
                    description: String::from_str("The Holy Family of Jesus, Mary, and Joseph"),
                }
            } else if w25 == 0 && next.day == 30 {
                ChurchDay {
                    date: next,
                    class: DayClass::Feast,
                    season: Season::Christmas,
                    description: String::from_str("The Holy Family of Jesus, Mary, and Joseph"),
                }
            } else {
                ChurchDay {
                    date: next,
                    class: DayClass::SeasonalWeekday,
                    season: Season::Christmas,
                    description: octave_string(next.day),
                }
            }
        } else {
            ChurchDay {
                date: next,
                class: if w == 0 {
                    DayClass::Sunday
                } else {
                    DayClass::SeasonalWeekday
                },
                season: Season::Christmas,
                description: crate::text::weekday_then_desc(w, " between Christmas and Epiphany"),
            }
        };
        days.push(day_rec);
        cur = next;
        n = next_n;
    }
    days
}

// ------------------------------------------------------------------ Lent
/// Lent week count at day `t`: 0 before the First Sunday of Lent
/// (`aw + 4`), then one more per later Sunday.
pub open spec fn lent_week(aw: int, t: int) -> int {
    if t < aw + 4 {
        0
    } else {
        (t - (aw + 4)) / 7 + 1
    }
}

/// Rank of a Lenten day; Ash Wednesday itself opens the season as a
/// solemnity.
pub open spec fn lent_class(aw: int, t: int) -> DayClass {
    if t == aw {
        DayClass::Solemnity
    } else if t % 7 == 0 {
        DayClass::Sunday
    } else {
        DayClass::SeasonalWeekday
    }
}

/// Description of a Lenten day.
pub open spec fn lent_desc(aw: int, t: int) -> Seq<char> {
    if t == aw {
        "Ash Wednesday"@
    } else if t < aw + 4 {
        crate::text::weekday_then_text(t % 7, " after Ash Wednesday"@)
    } else if t % 7 == 0 {
        nth_sunday_text(lent_week(aw, t), "Lent"@)
    } else {
        weekday_week_text(t % 7, lent_week(aw, t), "Lent"@)
    }
}

/// What the Lent builder promises of its `j`-th emitted day.
pub open spec fn lent_day_ok(aw: int, d: ChurchDay, j: int) -> bool {
    &&& d.wf()
    &&& d.date.num() == aw + j
    &&& d.season == Season::Lent
    &&& d.class == lent_class(aw, aw + j)
    &&& d.description@ == lent_desc(aw, aw + j)
}

/// Emits Lent: Ash Wednesday through the Saturday before Palm Sunday.
pub fn calculate_lent(ash_wednesday: ChurchDay) -> (days: Vec<ChurchDay>)
    requires
        ash_wednesday.wf(),
        1583 <= ash_wednesday.date.year <= 10000,
        ash_wednesday.date.num() == crate::anchors::easter_num(ash_wednesday.date.year as int)
            - 46,
        ash_wednesday.class == DayClass::Solemnity,
        ash_wednesday.season == Season::Lent,
        ash_wednesday.description@ == "Ash Wednesday"@,
    ensures
        days@.len() == 39,
        forall|j: int|
            #![trigger days@[j]]
            0 <= j < days@.len() ==> lent_day_ok(ash_wednesday.date.num(), days@[j], j),
{
    let ghost y = ash_wednesday.date.year as int;
    let ghost aw = ash_wednesday.date.num();
    let easter = easter_for_year(ash_wednesday.date.year);
    let e_n: u64 = easter.date.day_num();
    let aw_n: u64 = ash_wednesday.date.day_num();
    let end_n: u64 = e_n - 8;
    let mut cur = ash_wednesday.date;
    let mut n: u64 = aw_n;
    let ghost easter_year = easter.date.year as int;
    let mut days: Vec<ChurchDay> = Vec::new();
    days.push(ash_wednesday);
    proof {
        assert(lent_day_ok(aw, days@[0], 0));
        lemma_num_range(easter.date);
    }
    while n < end_n
        invariant
            cur.wf(),
            1583 <= y <= 10000,
            aw == crate::anchors::easter_num(y) - 46,
            aw_n as int == aw,
            end_n as int == aw + 38,
            aw + 38 <= days_before_year(y + 1),
            n as int == cur.num(),
            aw <= n as int <= aw + 38,
            days@.len() == n as int - aw + 1,
            forall|j: int|
                #![trigger days@[j]]
                0 <= j < days@.len() ==> lent_day_ok(aw, days@[j], j),
        decreases end_n - n,
    {
        proof {
            lemma_year_le(cur, y);
        }
        let next = cur.next_day();
        let next_n = n + 1;
        proof {
            lemma_fundamental_div_mod(next.num() - (aw + 4), 7);
            lemma_mod_division_less_than_divisor(next.num() - (aw + 4), 7);
        }
        let w = next.day_of_week();
        let day_rec = if next_n < aw_n + 4 {
            ChurchDay {
                date: next,
                class: if w == 0 {
                    DayClass::Sunday
                } else {
                    DayClass::SeasonalWeekday
                },
                season: Season::Lent,
                description: crate::text::weekday_then_desc(w, " after Ash Wednesday"),
            }
        } else {
            let nn = ((next_n - (aw_n + 4)) / 7 + 1) as u32;
            ChurchDay {
                date: next,
                class: if w == 0 {
                    DayClass::Sunday
                } else {
                    DayClass::SeasonalWeekday
                },
                season: Season::Lent,
                description: if w == 0 {
                    sunday_desc(nn, "Lent")
                } else {
                    weekday_week_desc(w, nn, "Lent")
                },
            }
        };
        days.push(day_rec);
        cur = next;
        n = next_n;
    }
    days
}

// -------------------------------------------------- Holy Week to Pentecost
/// Fixed Holy Week names by offset from Easter, `off` in -7..=-1.
pub open spec fn holy_week_text(off: int) -> Seq<char> {
    if off == -7 {
        "Palm Sunday of the Passion of the Lord"@
    } else if off == -6 {
        "Monday of Holy Week"@
    } else if off == -5 {
        "Tuesday of Holy Week"@
    } else if off == -4 {
        "Wednesday of Holy Week"@
    } else if off == -3 {
        "Holy Thursday"@
    } else if off == -2 {
        "Friday of the Passion of the Lord"@
    } else {
        "Holy Saturday"@
    }
}

/// Fixed Easter octave names by offset from Easter, `off` in 1..=7.
pub open spec fn easter_octave_text(off: int) -> Seq<char> {
    if off == 1 {
        "Monday within the Octave of Easter"@
    } else if off == 2 {
        "Tuesday within the Octave of Easter"@
    } else if off == 3 {
        "Wednesday within the Octave of Easter"@
    } else if off == 4 {
        "Thursday within the Octave of Easter"@
    } else if off == 5 {
        "Friday within the Octave of Easter"@
    } else if off == 6 {
        "Saturday within the Octave of Easter"@
    } else {
        "Sunday of Divine Mercy"@
    }
}

/// Easter week count at day `t` past the octave: Easter Sunday is week
/// 1 and Divine Mercy week 2.
pub open spec fn easter_week(e: int, t: int) -> int {
    (t - e - 7) / 7 + 2
}

/// Season of a day emitted by the Easter builder: the end of Lent, the
/// Triduum, then Eastertide.
pub open spec fn easter_season_season(e: int, t: int) -> Season {
    if t < e - 3 {
        Season::Lent
    } else if t < e {
        Season::Triduum
    } else {
        Season::Easter
    }
}

/// Rank of a day emitted by the Easter builder.
pub open spec fn easter_season_class(e: int, t: int) -> DayClass {
    if t == e - 7 {
        DayClass::Sunday
    } else if t < e - 3 {
        DayClass::SeasonalWeekday
    } else if t <= e + 7 {
        DayClass::Solemnity
    } else if t == e + 42 || t == e + 49 {
        DayClass::Solemnity
    } else if t % 7 == 0 {
        DayClass::Sunday
    } else {
        DayClass::SeasonalWeekday
    }
}

/// Description of a day emitted by the Easter builder. The seventh
/// Sunday of Easter is the Ascension.
pub open spec fn easter_season_desc(e: int, t: int) -> Seq<char> {
    if t < e {
        holy_week_text(t - e)
    } else if t == e {
        "Easter Sunday of the Resurrection of the Lord"@
    } else if t <= e + 7 {
        easter_octave_text(t - e)
    } else if t == e + 49 {
        "Pentecost Sunday"@
    } else if t == e + 42 {
        "The Ascension of the Lord"@
    } else if t % 7 == 0 {
        nth_sunday_text(easter_week(e, t), "Easter"@)
    } else {
        weekday_week_text(t % 7, easter_week(e, t), "Easter"@)
    }
}

/// What the Easter builder promises of its `j`-th emitted day.
pub open spec fn easter_day_ok(e: int, d: ChurchDay, j: int) -> bool {
    &&& d.wf()
    &&& d.date.num() == e - 7 + j
    &&& d.season == easter_season_season(e, e - 7 + j)
    &&& d.class == easter_season_class(e, e - 7 + j)
    &&& d.description@ == easter_season_desc(e, e - 7 + j)
}

/// The fixed Holy Week name `back` days before Easter, 1..=7.
fn holy_week_string(back: u32) -> (s: String)
    requires
        1 <= back <= 7,
    ensures
        s@ == holy_week_text(-(back as int)),
{
    if back == 7 {
        String::from_str("Palm Sunday of the Passion of the Lord")
    } else if back == 6 {
        String::from_str("Monday of Holy Week")
    } else if back == 5 {
        String::from_str("Tuesday of Holy Week")
    } else if back == 4 {
        String::from_str("Wednesday of Holy Week")
    } else if back == 3 {
        String::from_str("Holy Thursday")
    } else if back == 2 {
        String::from_str("Friday of the Passion of the Lord")
    } else {
        String::from_str("Holy Saturday")
    }
}

/// The fixed octave name `off` days after Easter, 1..=7.
fn easter_octave_string(off: u32) -> (s: String)
    requires
        1 <= off <= 7,
    ensures
        s@ == easter_octave_text(off as int),
{
    if off == 1 {
        String::from_str("Monday within the Octave of Easter")
    } else if off == 2 {
        String::from_str("Tuesday within the Octave of Easter")
    } else if off == 3 {
        String::from_str("Wednesday within the Octave of Easter")
    } else if off == 4 {
        String::from_str("Thursday within the Octave of Easter")
    } else if off == 5 {
        String::from_str("Friday within the Octave of Easter")
    } else if off == 6 {
        String::from_str("Saturday within the Octave of Easter")
    } else {
        String::from_str("Sunday of Divine Mercy")
    }
}

/// Emits Holy Week, the Triduum, Eastertide and Pentecost: from Palm
/// Sunday through Pentecost Sunday.
pub fn calculate_easter(sat_before_palm_sun: &ChurchDay) -> (days: Vec<ChurchDay>)
    requires
        sat_before_palm_sun.wf(),
        1583 <= sat_before_palm_sun.date.year <= 10000,
        sat_before_palm_sun.date.num() == crate::anchors::easter_num(
            sat_before_palm_sun.date.year as int,
        ) - 8,
    ensures
        days@.len() == 57,
        forall|j: int|
            #![trigger days@[j]]
            0 <= j < days@.len() ==> easter_day_ok(
                crate::anchors::easter_num(sat_before_palm_sun.date.year as int),
                days@[j],
                j,
            ),
{
    let ghost y = sat_before_palm_sun.date.year as int;
    let ghost e = crate::anchors::easter_num(y);
    let easter = easter_for_year(sat_before_palm_sun.date.year);
    let e_n: u64 = easter.date.day_num();
    proof {
        lemma_num_range(easter.date);
        lemma_dby_succ(y + 1);
        lemma_dby_bounds(y + 1);
    }
    let end_n: u64 = e_n + 49;
    let mut cur = sat_before_palm_sun.date;
    let mut n: u64 = cur.day_num();
    let mut days: Vec<ChurchDay> = Vec::new();
    while n < end_n
        invariant
            cur.wf(),
            1583 <= y <= 10000,
            e == crate::anchors::easter_num(y),
            e_n as int == e,
            end_n as int == e + 49,
            e <= days_before_year(y + 1),
            e + 49 <= days_before_year(y + 2),
            n as int == cur.num(),
            e - 8 <= n as int <= e + 49,
            days@.len() == n as int - (e - 8),
            forall|j: int|
                #![trigger days@[j]]
                0 <= j < days@.len() ==> easter_day_ok(e, days@[j], j),
        decreases end_n - n,
    {
        proof {
            lemma_year_le(cur, y + 1);
        }
        let next = cur.next_day();
        let next_n = n + 1;
        proof {
            lemma_fundamental_div_mod(next.num() - e - 7, 7);
            lemma_mod_division_less_than_divisor(next.num() - e - 7, 7);
        }
        let w = next.day_of_week();
        let day_rec = if next_n < e_n {
            let back = (e_n - next_n) as u32;
            ChurchDay {
                date: next,
                class: if back == 7 {
                    DayClass::Sunday
                } else if back >= 4 {
                    DayClass::SeasonalWeekday
                } else {
                    DayClass::Solemnity
                },
                season: if back >= 4 {
                    Season::Lent
                } else {
                    Season::Triduum
                },
                description: holy_week_string(back),
            }
        } else if next_n == e_n {
            ChurchDay {
                date: next,
                class: DayClass::Solemnity,
                season: Season::Easter,
                description: String::from_str("Easter Sunday of the Resurrection of the Lord"),
            }
        } else if next_n <= e_n + 7 {
            ChurchDay {
                date: next,
                class: DayClass::Solemnity,
                season: Season::Easter,
                description: easter_octave_string((next_n - e_n) as u32),
            }
        } else if next_n == e_n + 49 {
            ChurchDay {
                date: next,
                class: DayClass::Solemnity,
                season: Season::Easter,
                description: String::from_str("Pentecost Sunday"),
            }
        } else if next_n == e_n + 42 {
            ChurchDay {
                date: next,
                class: DayClass::Solemnity,
                season: Season::Easter,
                description: String::from_str("The Ascension of the Lord"),
            }
        } else {
            let nn = ((next_n - e_n - 7) / 7 + 2) as u32;
            ChurchDay {
                date: next,
                class: if w == 0 {
                    DayClass::Sunday
                } else {
                    DayClass::SeasonalWeekday
                },
                season: Season::Easter,
                description: if w == 0 {
                    sunday_desc(nn, "Easter")
                } else {
                    weekday_week_desc(w, nn, "Easter")
                },
            }
        };
        days.push(day_rec);
        cur = next;
        n = next_n;
    }
    days
}

// --------------------------------------------- Ordinary Time before Lent
/// Ordinary Time week count before Lent: the Baptism of the Lord
/// (`bap`, a Sunday) opens week 1.
pub open spec fn prelent_week(bap: int, t: int) -> int {
    (t - bap) / 7 + 1
}

/// Rank of an Ordinary Time day.
pub open spec fn ot_class(t: int) -> DayClass {
    if t % 7 == 0 {
        DayClass::Sunday
    } else {
        DayClass::FerialWeekday
    }
}

/// Description of an Ordinary Time day before Lent.
pub open spec fn prelent_desc(bap: int, t: int) -> Seq<char> {
    if t % 7 == 0 {
        nth_sunday_text(prelent_week(bap, t), "Ordinary Time"@)
    } else {
        weekday_week_text(t % 7, prelent_week(bap, t), "Ordinary Time"@)
    }
}

/// What the pre-Lent Ordinary Time builder promises of its `j`-th day.
pub open spec fn prelent_day_ok(bap: int, d: ChurchDay, j: int) -> bool {
    &&& d.wf()
    &&& d.date.num() == bap + 1 + j
    &&& d.season == Season::OrdinaryTime
    &&& d.class == ot_class(bap + 1 + j)
    &&& d.description@ == prelent_desc(bap, bap + 1 + j)
}

/// Emits Ordinary Time before Lent: the day after the Baptism of the
/// Lord through the day before Ash Wednesday.
pub fn calculate_otime_prelent(baptism: ChurchDay) -> (days: Vec<ChurchDay>)
    requires
        baptism.wf(),
        1583 <= baptism.date.year <= 10000,
        baptism.date.num() == epiphany_num(baptism.date.year as int) + 7,
    ensures
        days@.len() == crate::anchors::easter_num(baptism.date.year as int) - 47
            - baptism.date.num(),
        forall|j: int|
            #![trigger days@[j]]
            0 <= j < days@.len() ==> prelent_day_ok(baptism.date.num(), days@[j], j),
{
    let ghost y = baptism.date.year as int;
    let ghost bap = baptism.date.num();
    let easter = easter_for_year(baptism.date.year);
    let e_n: u64 = easter.date.day_num();
    let bap_n: u64 = baptism.date.day_num();
    proof {
        crate::anchors::lemma_epiphany_window(y);
        lemma_num_range(easter.date);
        lemma_dbm_monotone(y, 1, 3);
        assert(days_before_month(y, 4) == 90 + if crate::dates::is_leap_year_spec(y) {
            1int
        } else {
            0int
        }) by {
            reveal_with_fuel(days_before_month, 5);
        }
    }
    let end_n: u64 = e_n - 47;
    let mut cur = baptism.date;
    let mut n: u64 = bap_n;
    let mut days: Vec<ChurchDay> = Vec::new();
    while n < end_n
        invariant
            cur.wf(),
            1583 <= y <= 10000,
            bap == epiphany_num(y) + 7,
            days_before_year(y) + 9 <= bap <= days_before_year(y) + 15,
            bap_n as int == bap,
            end_n as int == crate::anchors::easter_num(y) - 47,
            end_n as int <= days_before_year(y) + 70,
            end_n as int <= days_before_year(y + 1),
            n as int == cur.num(),
            bap <= n as int <= end_n as int,
            days@.len() == n as int - bap,
            forall|j: int|
                #![trigger days@[j]]
                0 <= j < days@.len() ==> prelent_day_ok(bap, days@[j], j),
        decreases end_n - n,
    {
        proof {
            lemma_year_le(cur, y);
        }
        let next = cur.next_day();
        let next_n = n + 1;
        proof {
            lemma_fundamental_div_mod(next.num() - bap, 7);
            lemma_mod_division_less_than_divisor(next.num() - bap, 7);
        }
        let w = next.day_of_week();
        let nn = ((next_n - bap_n) / 7 + 1) as u32;
        let day_rec = ChurchDay {
            date: next,
            class: if w == 0 {
                DayClass::Sunday
            } else {
                DayClass::FerialWeekday
            },
            season: Season::OrdinaryTime,
            description: if w == 0 {
                sunday_desc(nn, "Ordinary Time")
            } else {
                weekday_week_desc(w, nn, "Ordinary Time")
            },
        };
        days.push(day_rec);
        cur = next;
        n = next_n;
    }
    days
}

// ---------------------------------------------- Ordinary Time after Easter
/// Ordinary Time week count after Easter, fixed from its end: the week
/// before the next First Sunday of Advent (`adv`) is week 34.
pub open spec fn posteaster_week(adv: int, t: int) -> int {
    34 - (adv - t - 1) / 7
}

/// Rank of an Ordinary Time day after Easter: Trinity Sunday, Corpus
/// Christi and Christ the King are solemnities.
pub open spec fn posteaster_class(p: int, adv: int, t: int) -> DayClass {
    if t % 7 == 0 {
        if t == p + 7 || t == p + 14 || t == adv - 7 {
            DayClass::Solemnity
        } else {
            DayClass::Sunday
        }
    } else {
        DayClass::FerialWeekday
    }
}

/// Description of an Ordinary Time day after Easter. Sundays counted
/// backwards from Christ the King carry a count one below their week.
pub open spec fn posteaster_desc(p: int, adv: int, t: int) -> Seq<char> {
    if t % 7 == 0 {
        if t == p + 7 {
            "The Most Holy Trinity"@
        } else if t == p + 14 {
            "The Most Holy Body and Blood of Christ"@
        } else if t == adv - 7 {
            "Our Lord Jesus Christ, King of the Universe"@
        } else {
            nth_sunday_text(33 - (adv - t - 1) / 7, "Ordinary Time"@)
        }
    } else {
        weekday_week_text(t % 7, posteaster_week(adv, t), "Ordinary Time"@)
    }
}

/// What the post-Easter Ordinary Time builder promises of its `j`-th
/// day.
pub open spec fn posteaster_day_ok(p: int, adv: int, d: ChurchDay, j: int) -> bool {
    &&& d.wf()
    &&& d.date.num() == p + 1 + j
    &&& d.season == Season::OrdinaryTime
    &&& d.class == posteaster_class(p, adv, p + 1 + j)
    &&& d.description@ == posteaster_desc(p, adv, p + 1 + j)
}

/// Emits Ordinary Time after Easter: the day after Pentecost through
/// the day before the next First Sunday of Advent.
pub fn calculate_otime_posteaster(pentecost: ChurchDay) -> (days: Vec<ChurchDay>)
    requires
        pentecost.wf(),
        1583 <= pentecost.date.year <= 10000,
        pentecost.date.num() == crate::anchors::easter_num(pentecost.date.year as int) + 49,
    ensures
        days@.len() == fsa_num(pentecost.date.year as int) - 1 - pentecost.date.num(),
        forall|j: int|
            #![trigger days@[j]]
            0 <= j < days@.len() ==> posteaster_day_ok(
                pentecost.date.num(),
                fsa_num(pentecost.date.year as int),
                days@[j],
                j,
            ),
{
    let ghost y = pentecost.date.year as int;
    let ghost p = pentecost.date.num();
    let ghost adv = fsa_num(y);
    let advent = crate::anchors::first_sunday_advent(pentecost.date.year);
    let adv_n: u64 = advent.date.day_num();
    let p_n: u64 = pentecost.date.day_num();
    proof {
        lemma_num_range(advent.date);
        lemma_days_in_year(y);
        crate::anchors::lemma_easter_sunday(y);
        lemma_mod_multiples_vanish(7, crate::anchors::easter_num(y), 7);
        assert(days_before_month(y, 13) == days_before_month(y, 12) + 31);
        assert(days_before_month(y, 3) == 59 + if crate::dates::is_leap_year_spec(y) {
            1int
        } else {
            0int
        }) by {
            reveal_with_fuel(days_before_month, 4);
        }
    }
    let end_n: u64 = adv_n - 1;
    let mut cur = pentecost.date;
    let mut n: u64 = p_n;
    let mut days: Vec<ChurchDay> = Vec::new();
    while n < end_n
        invariant
            cur.wf(),
            1583 <= y <= 10000,
            p == crate::anchors::easter_num(y) + 49,
            p % 7 == 0,
            days_before_year(y) + 130 <= p,
            adv == fsa_num(y),
            adv % 7 == 0,
            adv <= days_before_year(y) + 340,
            adv <= days_before_year(y + 1),
            p_n as int == p,
            adv_n as int == adv,
            end_n as int == adv - 1,
            p + 1 <= adv - 1,
            n as int == cur.num(),
            p <= n as int <= adv - 1,
            days@.len() == n as int - p,
            forall|j: int|
                #![trigger days@[j]]
                0 <= j < days@.len() ==> posteaster_day_ok(p, adv, days@[j], j),
        decreases end_n - n,
    {
        proof {
            lemma_year_le(cur, y);
        }
        let next = cur.next_day();
        let next_n = n + 1;
        proof {
            lemma_fundamental_div_mod(adv - next.num() - 1, 7);
            lemma_mod_division_less_than_divisor(adv - next.num() - 1, 7);
        }
        let w = next.day_of_week();
        let back = (adv_n - next_n - 1) / 7;
        let day_rec = if w == 0 {
            if next_n == p_n + 7 {
                ChurchDay {
                    date: next,
                    class: DayClass::Solemnity,
                    season: Season::OrdinaryTime,
                    description: String::from_str("The Most Holy Trinity"),
                }
            } else if next_n == p_n + 14 {
                ChurchDay {
                    date: next,
                    class: DayClass::Solemnity,
                    season: Season::OrdinaryTime,
                    description: String::from_str("The Most Holy Body and Blood of Christ"),
                }
            } else if next_n == adv_n - 7 {
                ChurchDay {
                    date: next,
                    class: DayClass::Solemnity,
                    season: Season::OrdinaryTime,
                    description: String::from_str("Our Lord Jesus Christ, King of the Universe"),
                }
            } else {
                ChurchDay {
                    date: next,
                    class: DayClass::Sunday,
                    season: Season::OrdinaryTime,
                    description: sunday_desc((33 - back) as u32, "Ordinary Time"),
                }
            }
        } else {
            ChurchDay {
                date: next,
                class: DayClass::FerialWeekday,
                season: Season::OrdinaryTime,
                description: weekday_week_desc(w, (34 - back) as u32, "Ordinary Time"),
            }
        };
        days.push(day_rec);
        cur = next;
        n = next_n;
    }
    days
}

// --------------------------------------------------------- Year assembly
/// Season of day `t` within the liturgical year that begins with the
/// First Sunday of Advent of civil year `y`.
pub open spec fn year_day_season(y: int, t: int) -> Season {
    let e = crate::anchors::easter_num(y + 1);
    let ep = epiphany_num(y + 1);
    if t <= day_number(y, 12, 24) {
        Season::Advent
    } else if t <= ep + 7 {
        Season::Christmas
    } else if t < e - 46 {
        Season::OrdinaryTime
    } else if t <= e - 8 {
        Season::Lent
    } else if t <= e + 49 {
        easter_season_season(e, t)
    } else {
        Season::OrdinaryTime
    }
}

/// Rank of day `t` within the liturgical year of `y`.
pub open spec fn year_day_class(y: int, t: int) -> DayClass {
    let e = crate::anchors::easter_num(y + 1);
    let ep = epiphany_num(y + 1);
    if t <= day_number(y, 12, 24) {
        advent_class(t)
    } else if t <= ep + 7 {
        christmas_class(day_number(y, 12, 25), ep, t)
    } else if t < e - 46 {
        ot_class(t)
    } else if t <= e - 8 {
        lent_class(e - 46, t)
    } else if t <= e + 49 {
        easter_season_class(e, t)
    } else {
        posteaster_class(e + 49, fsa_num(y + 1), t)
    }
}

/// Description of day `t` within the liturgical year of `y`.
pub open spec fn year_day_desc(y: int, t: int) -> Seq<char> {
    let e = crate::anchors::easter_num(y + 1);
    let ep = epiphany_num(y + 1);
    if t <= day_number(y, 12, 24) {
        advent_desc(fsa_num(y), day_number(y, 12, 24), t)
    } else if t <= ep + 7 {
        christmas_desc(day_number(y, 12, 25), ep, t)
    } else if t < e - 46 {
        prelent_desc(ep + 7, t)
    } else if t <= e - 8 {
        lent_desc(e - 46, t)
    } else if t <= e + 49 {
        easter_season_desc(e, t)
    } else {
        posteaster_desc(e + 49, fsa_num(y + 1), t)
    }
}

/// The civil year whose First Sunday of Advent opens the liturgical
/// year containing `t`.
pub open spec fn liturgical_year_of(t: Date) -> int {
    if t.num() < fsa_num(t.year as int) {
        t.year as int - 1
    } else {
        t.year as int
    }
}

/// What the assembled year promises of its `j`-th day.
pub open spec fn year_day_ok(y: int, d: ChurchDay, j: int) -> bool {
    &&& d.wf()
    &&& d.date.num() == fsa_num(y) + j
    &&& d.season == year_day_season(y, fsa_num(y) + j)
    &&& d.class == year_day_class(y, fsa_num(y) + j)
    &&& d.description@ == year_day_desc(y, fsa_num(y) + j)
}

/// Concatenating the six season segments yields one sequence that
/// meets the whole-year contract, day by day.
#[verifier::rlimit(100)]
proof fn lemma_assemble_year(
    y: int,
    seg_a: Seq<ChurchDay>,
    seg_c: Seq<ChurchDay>,
    seg_p: Seq<ChurchDay>,
    seg_l: Seq<ChurchDay>,
    seg_e: Seq<ChurchDay>,
    seg_t: Seq<ChurchDay>,
)
    requires
        1582 <= y <= 9999,
        seg_a.len() == day_number(y, 12, 24) - fsa_num(y) + 1,
        seg_c.len() == epiphany_num(y + 1) + 7 - day_number(y, 12, 25) + 1,
        seg_p.len() == crate::anchors::easter_num(y + 1) - 47 - (epiphany_num(y + 1) + 7),
        seg_l.len() == 39,
        seg_e.len() == 57,
        seg_t.len() == fsa_num(y + 1) - 1 - (crate::anchors::easter_num(y + 1) + 49),
        forall|j: int|
            #![trigger seg_a[j]]
            0 <= j < seg_a.len() ==> advent_day_ok(y, fsa_num(y), seg_a[j], j),
        forall|j: int| #![trigger seg_c[j]] 0 <= j < seg_c.len() ==> christmas_day_ok(y, seg_c[j], j),
        forall|j: int|
            #![trigger seg_p[j]]
            0 <= j < seg_p.len() ==> prelent_day_ok(epiphany_num(y + 1) + 7, seg_p[j], j),
        forall|j: int|
            #![trigger seg_l[j]]
            0 <= j < seg_l.len() ==> lent_day_ok(crate::anchors::easter_num(y + 1) - 46, seg_l[j], j),
        forall|j: int|
            #![trigger seg_e[j]]
            0 <= j < seg_e.len() ==> easter_day_ok(crate::anchors::easter_num(y + 1), seg_e[j], j),
        forall|j: int|
            #![trigger seg_t[j]]
            0 <= j < seg_t.len() ==> posteaster_day_ok(
                crate::anchors::easter_num(y + 1) + 49,
                fsa_num(y + 1),
                seg_t[j],
                j,
            ),
    ensures
        ({
            let s = seg_a + seg_c + seg_p + seg_l + seg_e + seg_t;
            &&& s.len() == fsa_num(y + 1) - fsa_num(y)
            &&& forall|j: int| #![trigger s[j]] 0 <= j < s.len() ==> year_day_ok(y, s[j], j)
        }),
{
    crate::laws::lemma_anchor_chain(y);
    let s = seg_a + seg_c + seg_p + seg_l + seg_e + seg_t;
    let fsa = fsa_num(y);
    let e = crate::anchors::easter_num(y + 1);
    let ep = epiphany_num(y + 1);
    let adv2 = fsa_num(y + 1);
    let bap = ep + 7;
    let aw = e - 46;
    let p = e + 49;
    assert forall|j: int| #![trigger s[j]] 0 <= j < s.len() implies year_day_ok(y, s[j], j) by {
        let la = seg_a.len() as int;
        let lc = seg_c.len() as int;
        let lp = seg_p.len() as int;
        let ll = seg_l.len() as int;
        let le = seg_e.len() as int;
        if j < la {
            assert(s[j] == seg_a[j]);
            assert(advent_day_ok(y, fsa, seg_a[j], j));
        } else if j < la + lc {
            assert(s[j] == seg_c[j - la]);
            assert(christmas_day_ok(y, seg_c[j - la], j - la));
        } else if j < la + lc + lp {
            assert(s[j] == seg_p[j - la - lc]);
            assert(prelent_day_ok(bap, seg_p[j - la - lc], j - la - lc));
        } else if j < la + lc + lp + ll {
            assert(s[j] == seg_l[j - la - lc - lp]);
            assert(lent_day_ok(aw, seg_l[j - la - lc - lp], j - la - lc - lp));
        } else if j < la + lc + lp + ll + le {
            assert(s[j] == seg_e[j - la - lc - lp - ll]);
            assert(easter_day_ok(e, seg_e[j - la - lc - lp - ll], j - la - lc - lp - ll));
        } else {
            assert(s[j] == seg_t[j - la - lc - lp - ll - le]);
            assert(posteaster_day_ok(p, adv2, seg_t[j - la - lc - lp - ll - le], j - la - lc - lp
                - ll - le));
        }
    }
}

/// Builds the liturgical year containing the civil date `today`: one
/// entry per day from the First Sunday of Advent through the Saturday
/// before the next one, each with its season, rank and description.
#[verifier::rlimit(100)]
pub fn proper_of_seasons(today: Date) -> (r: ChurchYear)
    requires
        today.wf(),
        1583 <= today.year <= 9999,
    ensures
        ({
            let y = liturgical_year_of(today);
            &&& r.days@.len() == fsa_num(y + 1) - fsa_num(y)
            &&& r.days@.len() > 0
            &&& forall|j: int|
                #![trigger r.days@[j]]
                0 <= j < r.days@.len() ==> year_day_ok(y, r.days@[j], j)
            &&& fsa_num(y) <= today.num() < fsa_num(y + 1)
            &&& r.days@[today.num() - fsa_num(y)].date == today
            &&& r.days@[0].description@ == "1st Sunday of Advent"@
            &&& r.days@[0].class == DayClass::Sunday
            &&& r.days@[0].season == Season::Advent
            &&& r.days@[r.days@.len() - 1].date.num() == fsa_num(y + 1) - 1
            &&& r.days@[r.days@.len() - 1].date.num() % 7 == 6
            &&& forall|j: int|
                #![trigger r.days@[j]]
                0 <= j < r.days@.len() ==> {
                    let t = fsa_num(y) + j;
                    &&& (r.days@[j].description@
                        == "Easter Sunday of the Resurrection of the Lord"@ <==> t == crate::anchors::easter_num(
                        y + 1,
                    ))
                    &&& (r.days@[j].description@ == "Ash Wednesday"@ <==> t
                        == crate::anchors::easter_num(y + 1) - 46)
                    &&& (r.days@[j].description@ == "Pentecost Sunday"@ <==> t
                        == crate::anchors::easter_num(y + 1) + 49)
                    &&& (r.days@[j].description@ == "The Most Holy Trinity"@ <==> t
                        == crate::anchors::easter_num(y + 1) + 56)
                    &&& (r.days@[j].description@ == "The Most Holy Body and Blood of Christ"@
                        <==> t == crate::anchors::easter_num(y + 1) + 63)
                    &&& (r.days@[j].description@
                        == "Our Lord Jesus Christ, King of the Universe"@ <==> t == fsa_num(y + 1)
                        - 7)
                    &&& (r.days@[j].description@ == "1st Sunday of Advent"@ <==> t == fsa_num(y))
                    &&& (r.days@[j].description@ == "The Nativity of the Lord (Christmas)"@
                        <==> t == day_number(y, 12, 25))
                    &&& (r.days@[j].description@ == "The Epiphany of the Lord"@ <==> t
                        == epiphany_num(y + 1))
                    &&& (r.days@[j].description@ == "The Baptism of the Lord"@ <==> t
                        == epiphany_num(y + 1) + 7)
                }
        }),
{
    let mut first_advent = crate::anchors::first_sunday_advent(today.year);
    let today_n: u64 = today.day_num();
    let fa_n: u64 = first_advent.date.day_num();
    if today_n < fa_n {
        first_advent = crate::anchors::first_sunday_advent(today.year - 1);
    }
    let year = first_advent.date.year;
    let ghost y = year as int;
    let ghost fsa = fsa_num(y);
    let ghost e = crate::anchors::easter_num(y + 1);
    let ghost ep = epiphany_num(y + 1);
    let ghost adv2 = fsa_num(y + 1);
    proof {
        lemma_num_range(today);
        assert(y == liturgical_year_of(today));
        // month-table constants for years y and y + 1
        lemma_days_in_year(y);
        lemma_dby_succ(y);
        assert(days_before_month(y, 13) == days_before_month(y, 12) + 31);
        lemma_days_in_year(y + 1);
        lemma_dby_succ(y + 1);
        assert(days_before_month(y + 1, 13) == days_before_month(y + 1, 12) + 31);
        assert(days_before_month(y + 1, 12) == days_before_month(y + 1, 11) + 30);
        assert(days_before_month(y + 1, 4) == 90 + if crate::dates::is_leap_year_spec(y + 1) {
            1int
        } else {
            0int
        }) by {
            reveal_with_fuel(days_before_month, 5);
        }
        assert(days_before_month(y + 1, 1) == 0);
        crate::anchors::lemma_epiphany_window(y + 1);
        crate::anchors::lemma_easter_shift_range(y + 1);
        crate::anchors::lemma_easter_sunday(y + 1);
    }
    let mut days = calculate_advent(first_advent);
    let ghost seg_a = days@;
    let mut christmas_days = calculate_christmas(year);
    let ghost seg_c = christmas_days@;
    days.append(&mut christmas_days);
    let bap_day = crate::anchors::baptism(epiphany(year + 1).unwrap());
    proof {
        lemma_year_ge(bap_day.date, y + 1);
        lemma_year_le(bap_day.date, y + 1);
    }
    let mut prelent_days = calculate_otime_prelent(bap_day);
    let ghost seg_p = prelent_days@;
    days.append(&mut prelent_days);
    let easter = easter_for_year(year + 1);
    let aw_day = crate::anchors::ash_wednesday(&easter);
    proof {
        lemma_num_range(easter.date);
        lemma_year_ge(aw_day.date, y + 1);
        lemma_year_le(aw_day.date, y + 1);
    }
    let mut lent_days = calculate_lent(aw_day);
    let ghost seg_l = lent_days@;
    days.append(&mut lent_days);
    let last_idx = days.len() - 1;
    proof {
        lemma_year_ge(days@[last_idx as int].date, y + 1);
        lemma_year_le(days@[last_idx as int].date, y + 1);
    }
    let mut easter_days = calculate_easter(&days[last_idx]);
    let ghost seg_e = easter_days@;
    days.append(&mut easter_days);
    let pent_day = crate::anchors::pentecost(easter_for_year(year + 1));
    proof {
        lemma_year_ge(pent_day.date, y + 1);
        lemma_year_le(pent_day.date, y + 1);
    }
    let mut post_days = calculate_otime_posteaster(pent_day);
    let ghost seg_t = post_days@;
    days.append(&mut post_days);
    proof {
        assert(days@ =~= seg_a + seg_c + seg_p + seg_l + seg_e + seg_t);
        lemma_assemble_year(y, seg_a, seg_c, seg_p, seg_l, seg_e, seg_t);
        crate::laws::lemma_year_opens_with_advent(y);
        crate::laws::lemma_year_ends_saturday(y + 1);
        crate::laws::lemma_year_named_days(y, days@);
        crate::dates::lemma_date_inj(days@[today.num() - fsa].date, today);
    }
    ChurchYear { days }
}

} // verus!
