//! Calendar-wide laws, stated and proved over the same spec functions
//! that the anchor and builder contracts use.

use crate::anchors::easter_num;
use crate::anchors::epiphany_num;
use crate::anchors::fsa_num;
use crate::anchors::lemma_easter_sunday;
use crate::builder::advent_desc;
use crate::builder::advent_week;
use crate::builder::christmas_desc;
use crate::builder::easter_season_desc;
use crate::builder::easter_week;
use crate::builder::lent_desc;
use crate::builder::lent_week;
use crate::builder::posteaster_desc;
use crate::builder::prelent_desc;
use crate::builder::year_day_class;
use crate::builder::year_day_desc;
use crate::builder::year_day_season;
use crate::church_day::DayClass;
use crate::church_day::Season;
use crate::dates::day_number;
use crate::dates::days_before_month;
use crate::dates::days_before_year;
use crate::text::number_text;
use crate::text::ordinal_suffix_text;
use crate::text::weekday_text;
use vstd::arithmetic::div_mod::lemma_fundamental_div_mod;
use vstd::arithmetic::div_mod::lemma_fundamental_div_mod_converse;
use vstd::arithmetic::div_mod::lemma_mod_division_less_than_divisor;
use vstd::arithmetic::div_mod::lemma_mod_multiples_vanish;
use vstd::prelude::*;

verus! {

/// Ash Wednesday is a Wednesday: 46 days before any Easter Sunday of
/// the supported years falls on weekday 3.
pub proof fn lemma_ash_wednesday_weekday(y: int)
    requires
        1583 <= y <= 10000,
    ensures
        (easter_num(y) - 46) % 7 == 3,
{
    lemma_easter_sunday(y);
    let e = easter_num(y);
    lemma_fundamental_div_mod(e, 7);
    lemma_fundamental_div_mod_converse(e - 46, 7, e / 7 - 7, 3);
}

/// The liturgical year ends on a Saturday: the day before a First
/// Sunday of Advent has weekday 6.
pub proof fn lemma_year_ends_saturday(y: int)
    ensures
        (fsa_num(y) - 1) % 7 == 6,
{
    let d3 = day_number(y, 12, 3);
    lemma_fundamental_div_mod(d3, 7);
    lemma_mod_division_less_than_divisor(d3, 7);
    lemma_fundamental_div_mod_converse(fsa_num(y) - 1, 7, d3 / 7 - 1, 6);
}

/// The first day of every liturgical year is the First Sunday of
/// Advent, ranked as a Sunday and bearing its traditional label.
pub proof fn lemma_year_opens_with_advent(y: int)
    ensures
        year_day_desc(y, fsa_num(y)) == "1st Sunday of Advent"@,
        year_day_class(y, fsa_num(y)) == DayClass::Sunday,
        year_day_season(y, fsa_num(y)) == Season::Advent,
{
    let d3 = day_number(y, 12, 3);
    let fsa = fsa_num(y);
    lemma_fundamental_div_mod(d3, 7);
    lemma_mod_division_less_than_divisor(d3, 7);
    assert(fsa == 7 * (d3 / 7));
    lemma_fundamental_div_mod_converse(fsa, 7, d3 / 7, 0);
    lemma_fundamental_div_mod_converse(0, 7, 0, 0);
    assert(advent_week(fsa, fsa) == 1);
    reveal_strlit("1");
    reveal_strlit("st");
    reveal_strlit(" Sunday of ");
    reveal_strlit("Advent");
    reveal_strlit("1st Sunday of Advent");
    assert(year_day_desc(y, fsa) =~= "1st Sunday of Advent"@);
}

/// Lengths and leading characters of the parameterized text forms,
/// used to tell descriptions apart.
pub proof fn lemma_text_metrics(n: int, w: int)
    requires
        0 <= n <= 99,
        0 <= w <= 6,
    ensures
        ordinal_suffix_text(n).len() == 2,
        n < 10 ==> number_text(n).len() == 1,
        n >= 10 ==> number_text(n).len() == 2,
        6 <= weekday_text(w).len() <= 9,
        weekday_text(w).len() == 7 ==> weekday_text(w) == "Tuesday"@,
        weekday_text(w)[0] == 'S' || weekday_text(w)[0] == 'M' || weekday_text(w)[0] == 'T'
            || weekday_text(w)[0] == 'W' || weekday_text(w)[0] == 'F',
{
    reveal_strlit("0");
    reveal_strlit("1");
    reveal_strlit("2");
    reveal_strlit("3");
    reveal_strlit("4");
    reveal_strlit("5");
    reveal_strlit("6");
    reveal_strlit("7");
    reveal_strlit("8");
    reveal_strlit("9");
    reveal_strlit("st");
    reveal_strlit("nd");
    reveal_strlit("rd");
    reveal_strlit("th");
    reveal_strlit("Sunday");
    reveal_strlit("Monday");
    reveal_strlit("Tuesday");
    reveal_strlit("Wednesday");
    reveal_strlit("Thursday");
    reveal_strlit("Friday");
    reveal_strlit("Saturday");
    if n >= 10 {
        lemma_fundamental_div_mod(n, 10);
        lemma_mod_division_less_than_divisor(n, 10);
    }
}

/// A counted Sunday beyond the first never reads as the year's opening
/// label, whatever its season.
pub proof fn lemma_nth_ne_first_advent(n: int, season: Seq<char>)
    requires
        2 <= n <= 9,
    ensures
        crate::text::nth_sunday_text(n, season) != "1st Sunday of Advent"@,
{
    reveal_strlit("2");
    reveal_strlit("3");
    reveal_strlit("4");
    reveal_strlit("5");
    reveal_strlit("6");
    reveal_strlit("7");
    reveal_strlit("8");
    reveal_strlit("9");
    reveal_strlit("1st Sunday of Advent");
    assert(crate::text::nth_sunday_text(n, season)[0] == crate::text::digit_text(n)[0]);
    assert(crate::text::digit_text(n)[0] != '1');
}

/// The anchors of one liturgical year in their calendar order, with
/// their weekday alignment and their distances from the civil year
/// boundary.
pub proof fn lemma_anchor_chain(y: int)
    requires
        1582 <= y <= 9999,
    ensures
        fsa_num(y) % 7 == 0,
        day_number(y, 12, 24) - 27 <= fsa_num(y) <= day_number(y, 12, 24) - 21,
        day_number(y, 12, 25) == day_number(y, 12, 24) + 1,
        day_number(y, 12, 25) + 6 == days_before_year(y + 1),
        days_before_year(y + 1) + 2 <= epiphany_num(y + 1) <= days_before_year(y + 1) + 8,
        epiphany_num(y + 1) % 7 == 0,
        easter_num(y + 1) % 7 == 0,
        days_before_year(y + 1) + 81 <= easter_num(y + 1) <= days_before_year(y + 1) + 116,
        fsa_num(y + 1) % 7 == 0,
        days_before_year(y + 1) + 331 <= fsa_num(y + 1) <= days_before_year(y + 1) + 338,
{
    crate::dates::lemma_days_in_year(y);
    crate::dates::lemma_dby_succ(y);
    assert(days_before_month(y, 13) == days_before_month(y, 12) + 31);
    crate::dates::lemma_days_in_year(y + 1);
    assert(days_before_month(y + 1, 13) == days_before_month(y + 1, 12) + 31);
    assert(days_before_month(y + 1, 12) == days_before_month(y + 1, 11) + 30);
    assert(days_before_month(y + 1, 4) == 90 + if crate::dates::is_leap_year_spec(y + 1) {
        1int
    } else {
        0int
    }) by {
        reveal_with_fuel(days_before_month, 5);
    }
    assert(days_before_month(y + 1, 1) == 0);
    crate::anchors::lemma_epiphany_window(y + 1);
    crate::anchors::lemma_easter_shift_range(y + 1);
    lemma_easter_sunday(y + 1);
    let d3 = day_number(y, 12, 3);
    lemma_fundamental_div_mod(d3, 7);
    lemma_mod_division_less_than_divisor(d3, 7);
    lemma_fundamental_div_mod_converse(fsa_num(y), 7, d3 / 7, 0);
    let d3b = day_number(y + 1, 12, 3);
    lemma_fundamental_div_mod(d3b, 7);
    lemma_mod_division_less_than_divisor(d3b, 7);
    lemma_fundamental_div_mod_converse(fsa_num(y + 1), 7, d3b / 7, 0);
}

/// Within Advent, no day but the first bears one of the named-day
/// labels.
#[verifier::rlimit(100)]
proof fn lemma_advent_names(fsa: int, dec24: int, t: int)
    requires
        fsa % 7 == 0,
        dec24 - 27 <= fsa <= dec24 - 21,
        fsa <= t <= dec24,
    ensures
        advent_desc(fsa, dec24, t) == "1st Sunday of Advent"@ <==> t == fsa,
        advent_desc(fsa, dec24, t) != "Easter Sunday of the Resurrection of the Lord"@,
        advent_desc(fsa, dec24, t) != "Ash Wednesday"@,
        advent_desc(fsa, dec24, t) != "Pentecost Sunday"@,
        advent_desc(fsa, dec24, t) != "The Most Holy Trinity"@,
        advent_desc(fsa, dec24, t) != "The Most Holy Body and Blood of Christ"@,
        advent_desc(fsa, dec24, t) != "Our Lord Jesus Christ, King of the Universe"@,
        advent_desc(fsa, dec24, t) != "The Nativity of the Lord (Christmas)"@,
        advent_desc(fsa, dec24, t) != "The Epiphany of the Lord"@,
        advent_desc(fsa, dec24, t) != "The Baptism of the Lord"@,
{
    reveal_strlit("1st Sunday of Advent");
    reveal_strlit("Easter Sunday of the Resurrection of the Lord");
    reveal_strlit("Ash Wednesday");
    reveal_strlit("Pentecost Sunday");
    reveal_strlit("The Most Holy Trinity");
    reveal_strlit("The Most Holy Body and Blood of Christ");
    reveal_strlit("Our Lord Jesus Christ, King of the Universe");
    reveal_strlit("The Nativity of the Lord (Christmas)");
    reveal_strlit("The Epiphany of the Lord");
    reveal_strlit("The Baptism of the Lord");
    assert("Easter Sunday of the Resurrection of the Lord"@.len() == 45);
    assert("Ash Wednesday"@.len() == 13);
    assert("Pentecost Sunday"@.len() == 16);
    assert("The Most Holy Trinity"@.len() == 21);
    assert("The Most Holy Body and Blood of Christ"@.len() == 38);
    assert("Our Lord Jesus Christ, King of the Universe"@.len() == 43);
    assert("1st Sunday of Advent"@.len() == 20);
    assert("The Nativity of the Lord (Christmas)"@.len() == 36);
    assert("The Epiphany of the Lord"@.len() == 24);
    assert("The Baptism of the Lord"@.len() == 23);
    reveal_strlit("December ");
    reveal_strlit(" Sunday of ");
    reveal_strlit(" of the ");
    reveal_strlit(" week of ");
    reveal_strlit("Advent");
    reveal_strlit("1");
    reveal_strlit("st");
    lemma_fundamental_div_mod(t, 7);
    lemma_mod_division_less_than_divisor(t, 7);
    lemma_fundamental_div_mod(fsa, 7);
    if t > dec24 - 8 {
        let n = t - dec24 + 24;
        lemma_text_metrics(n, 0);
        assert(crate::text::december_text(n).len() == 13);
        assert(crate::text::december_text(n)[0] == 'D');
    } else if t % 7 == 0 {
        lemma_fundamental_div_mod_converse(t - fsa, 7, t / 7 - fsa / 7, 0);
        let n = advent_week(fsa, t);
        assert(n == t / 7 - fsa / 7 + 1);
        assert(1 <= n <= 3);
        lemma_text_metrics(n, 0);
        assert(crate::text::nth_sunday_text(n, "Advent"@).len() == 20);
        if n == 1 {
            assert(t == fsa);
            assert(crate::text::nth_sunday_text(1, "Advent"@) =~= "1st Sunday of Advent"@);
        } else {
            assert(t != fsa);
            lemma_nth_ne_first_advent(n, "Advent"@);
        }
    } else {
        let w = t % 7;
        let n = advent_week(fsa, t);
        lemma_fundamental_div_mod(t - fsa, 7);
        assert(0 <= n - 1 <= 2);
        lemma_text_metrics(n, w);
        assert(32 <= crate::text::weekday_week_text(w, n, "Advent"@).len() <= 35);
        assert(advent_desc(fsa, dec24, t) != "1st Sunday of Advent"@);
    }
}

/// Within the Christmas season, exactly Christmas Day, Epiphany and
/// the Baptism bear their named-day labels.
#[verifier::rlimit(100)]
proof fn lemma_christmas_names(dec25: int, ep: int, t: int)
    requires
        ep % 7 == 0,
        dec25 + 8 <= ep <= dec25 + 14,
        dec25 <= t <= ep + 7,
    ensures
        christmas_desc(dec25, ep, t) == "The Nativity of the Lord (Christmas)"@ <==> t == dec25,
        christmas_desc(dec25, ep, t) == "The Epiphany of the Lord"@ <==> t == ep,
        christmas_desc(dec25, ep, t) == "The Baptism of the Lord"@ <==> t == ep + 7,
        christmas_desc(dec25, ep, t) != "Easter Sunday of the Resurrection of the Lord"@,
        christmas_desc(dec25, ep, t) != "Ash Wednesday"@,
        christmas_desc(dec25, ep, t) != "Pentecost Sunday"@,
        christmas_desc(dec25, ep, t) != "The Most Holy Trinity"@,
        christmas_desc(dec25, ep, t) != "The Most Holy Body and Blood of Christ"@,
        christmas_desc(dec25, ep, t) != "Our Lord Jesus Christ, King of the Universe"@,
        christmas_desc(dec25, ep, t) != "1st Sunday of Advent"@,
{
    reveal_strlit("1st Sunday of Advent");
    reveal_strlit("Easter Sunday of the Resurrection of the Lord");
    reveal_strlit("Ash Wednesday");
    reveal_strlit("Pentecost Sunday");
    reveal_strlit("The Most Holy Trinity");
    reveal_strlit("The Most Holy Body and Blood of Christ");
    reveal_strlit("Our Lord Jesus Christ, King of the Universe");
    reveal_strlit("The Nativity of the Lord (Christmas)");
    reveal_strlit("The Epiphany of the Lord");
    reveal_strlit("The Baptism of the Lord");
    assert("Easter Sunday of the Resurrection of the Lord"@.len() == 45);
    assert("Ash Wednesday"@.len() == 13);
    assert("Pentecost Sunday"@.len() == 16);
    assert("The Most Holy Trinity"@.len() == 21);
    assert("The Most Holy Body and Blood of Christ"@.len() == 38);
    assert("Our Lord Jesus Christ, King of the Universe"@.len() == 43);
    assert("1st Sunday of Advent"@.len() == 20);
    assert("The Nativity of the Lord (Christmas)"@.len() == 36);
    assert("The Epiphany of the Lord"@.len() == 24);
    assert("The Baptism of the Lord"@.len() == 23);
    reveal_strlit("The Holy Family of Jesus, Mary, and Joseph");
    reveal_strlit("Saint Stephen, First Martyr");
    reveal_strlit("Saint John, Apostle and Evangelist");
    reveal_strlit("Holy Innocents");
    reveal_strlit("Fifth Day within the Octave of the Nativity of the Lord");
    reveal_strlit("Sixth Day within the Octave of the Nativity of the Lord");
    reveal_strlit("Seventh Day within the Octave of the Nativity of the Lord");
    reveal_strlit(" between Epiphany and Baptism of the Lord");
    reveal_strlit(" between Christmas and Epiphany");
    reveal_strlit("Tuesday");
    if t == dec25 || t == ep || t == ep + 7 {
        assert("The Nativity of the Lord (Christmas)"@.len() == 36);
        assert("The Epiphany of the Lord"@.len() == 24);
        assert("The Baptism of the Lord"@.len() == 23);
        assert("Easter Sunday of the Resurrection of the Lord"@.len() == 45);
        assert("Ash Wednesday"@.len() == 13);
        assert("Pentecost Sunday"@.len() == 16);
        assert("The Most Holy Trinity"@.len() == 21);
        assert("The Most Holy Body and Blood of Christ"@.len() == 38);
        assert("Our Lord Jesus Christ, King of the Universe"@.len() == 43);
        assert("1st Sunday of Advent"@.len() == 20);
        if t == dec25 {
            assert(christmas_desc(dec25, ep, t) == "The Nativity of the Lord (Christmas)"@);
        } else if t == ep {
            assert(christmas_desc(dec25, ep, t) == "The Epiphany of the Lord"@);
        } else {
            assert(christmas_desc(dec25, ep, t) == "The Baptism of the Lord"@);
        }
    } else if t > ep {
        let w = t % 7;
        lemma_mod_division_less_than_divisor(t, 7);
        lemma_text_metrics(0, w);
        assert(47 <= christmas_desc(dec25, ep, t).len() <= 50);
    } else if t <= dec25 + 6 {
        lemma_mod_division_less_than_divisor(t, 7);
        if t % 7 == 0 || (dec25 % 7 == 0 && t == dec25 + 5) {
            assert(christmas_desc(dec25, ep, t) == "The Holy Family of Jesus, Mary, and Joseph"@);
        } else {
            assert(christmas_desc(dec25, ep, t) == crate::builder::octave_text(t - dec25 + 25));
        }
    } else {
        let w = t % 7;
        lemma_mod_division_less_than_divisor(t, 7);
        lemma_text_metrics(0, w);
        let d = christmas_desc(dec25, ep, t);
        assert(d == crate::text::weekday_then_text(w, " between Christmas and Epiphany"@));
        assert(37 <= d.len() <= 40);
        if d.len() == 38 {
            assert(weekday_text(w) == "Tuesday"@);
            assert(d[1] == 'u');
        }
    }
}

/// Within Lent, only Ash Wednesday bears a named-day label.
#[verifier::rlimit(100)]
proof fn lemma_lent_names(aw: int, t: int)
    requires
        aw <= t <= aw + 38,
    ensures
        lent_desc(aw, t) == "Ash Wednesday"@ <==> t == aw,
        lent_desc(aw, t) != "Easter Sunday of the Resurrection of the Lord"@,
        lent_desc(aw, t) != "Pentecost Sunday"@,
        lent_desc(aw, t) != "The Most Holy Trinity"@,
        lent_desc(aw, t) != "The Most Holy Body and Blood of Christ"@,
        lent_desc(aw, t) != "Our Lord Jesus Christ, King of the Universe"@,
        lent_desc(aw, t) != "1st Sunday of Advent"@,
        lent_desc(aw, t) != "The Nativity of the Lord (Christmas)"@,
        lent_desc(aw, t) != "The Epiphany of the Lord"@,
        lent_desc(aw, t) != "The Baptism of the Lord"@,
{
    reveal_strlit("1st Sunday of Advent");
    reveal_strlit("Easter Sunday of the Resurrection of the Lord");
    reveal_strlit("Ash Wednesday");
    reveal_strlit("Pentecost Sunday");
    reveal_strlit("The Most Holy Trinity");
    reveal_strlit("The Most Holy Body and Blood of Christ");
    reveal_strlit("Our Lord Jesus Christ, King of the Universe");
    reveal_strlit("The Nativity of the Lord (Christmas)");
    reveal_strlit("The Epiphany of the Lord");
    reveal_strlit("The Baptism of the Lord");
    assert("Easter Sunday of the Resurrection of the Lord"@.len() == 45);
    assert("Ash Wednesday"@.len() == 13);
    assert("Pentecost Sunday"@.len() == 16);
    assert("The Most Holy Trinity"@.len() == 21);
    assert("The Most Holy Body and Blood of Christ"@.len() == 38);
    assert("Our Lord Jesus Christ, King of the Universe"@.len() == 43);
    assert("1st Sunday of Advent"@.len() == 20);
    assert("The Nativity of the Lord (Christmas)"@.len() == 36);
    assert("The Epiphany of the Lord"@.len() == 24);
    assert("The Baptism of the Lord"@.len() == 23);
    reveal_strlit(" after Ash Wednesday");
    reveal_strlit(" Sunday of ");
    reveal_strlit(" of the ");
    reveal_strlit(" week of ");
    reveal_strlit("Lent");
    if t == aw {
    } else if t < aw + 4 {
        let w = t % 7;
        lemma_mod_division_less_than_divisor(t, 7);
        lemma_text_metrics(0, w);
        assert(26 <= lent_desc(aw, t).len() <= 29);
    } else {
        let w = t % 7;
        let n = lent_week(aw, t);
        lemma_mod_division_less_than_divisor(t, 7);
        lemma_fundamental_div_mod(t - (aw + 4), 7);
        lemma_mod_division_less_than_divisor(t - (aw + 4), 7);
        assert(1 <= n <= 5);
        lemma_text_metrics(n, w);
        if t % 7 == 0 {
            assert(lent_desc(aw, t).len() == 18);
        } else {
            assert(30 <= lent_desc(aw, t).len() <= 33);
        }
    }
}

/// Within Ordinary Time before Lent, no day bears a named-day label.
#[verifier::rlimit(100)]
proof fn lemma_prelent_names(bap: int, t: int)
    requires
        bap + 1 <= t <= bap + 62,
    ensures
        prelent_desc(bap, t) != "Easter Sunday of the Resurrection of the Lord"@,
        prelent_desc(bap, t) != "Ash Wednesday"@,
        prelent_desc(bap, t) != "Pentecost Sunday"@,
        prelent_desc(bap, t) != "The Most Holy Trinity"@,
        prelent_desc(bap, t) != "The Most Holy Body and Blood of Christ"@,
        prelent_desc(bap, t) != "Our Lord Jesus Christ, King of the Universe"@,
        prelent_desc(bap, t) != "1st Sunday of Advent"@,
        prelent_desc(bap, t) != "The Nativity of the Lord (Christmas)"@,
        prelent_desc(bap, t) != "The Epiphany of the Lord"@,
        prelent_desc(bap, t) != "The Baptism of the Lord"@,
{
    reveal_strlit("1st Sunday of Advent");
    reveal_strlit("Easter Sunday of the Resurrection of the Lord");
    reveal_strlit("Ash Wednesday");
    reveal_strlit("Pentecost Sunday");
    reveal_strlit("The Most Holy Trinity");
    reveal_strlit("The Most Holy Body and Blood of Christ");
    reveal_strlit("Our Lord Jesus Christ, King of the Universe");
    reveal_strlit("The Nativity of the Lord (Christmas)");
    reveal_strlit("The Epiphany of the Lord");
    reveal_strlit("The Baptism of the Lord");
    assert("Easter Sunday of the Resurrection of the Lord"@.len() == 45);
    assert("Ash Wednesday"@.len() == 13);
    assert("Pentecost Sunday"@.len() == 16);
    assert("The Most Holy Trinity"@.len() == 21);
    assert("The Most Holy Body and Blood of Christ"@.len() == 38);
    assert("Our Lord Jesus Christ, King of the Universe"@.len() == 43);
    assert("1st Sunday of Advent"@.len() == 20);
    assert("The Nativity of the Lord (Christmas)"@.len() == 36);
    assert("The Epiphany of the Lord"@.len() == 24);
    assert("The Baptism of the Lord"@.len() == 23);
    reveal_strlit(" Sunday of ");
    reveal_strlit(" of the ");
    reveal_strlit(" week of ");
    reveal_strlit("Ordinary Time");
    let w = t % 7;
    let n = crate::builder::prelent_week(bap, t);
    lemma_mod_division_less_than_divisor(t, 7);
    lemma_fundamental_div_mod(t - bap, 7);
    lemma_mod_division_less_than_divisor(t - bap, 7);
    assert(1 <= n <= 9);
    lemma_text_metrics(n, w);
    if t % 7 == 0 {
        assert(prelent_desc(bap, t).len() == 27);
    } else {
        assert(39 <= prelent_desc(bap, t).len() <= 42);
    }
}

/// Within the span from Palm Sunday through Pentecost, exactly Easter
/// Sunday and Pentecost bear named-day labels.
#[verifier::rlimit(100)]
proof fn lemma_easter_names(e: int, t: int)
    requires
        e % 7 == 0,
        e - 7 <= t <= e + 49,
    ensures
        easter_season_desc(e, t) == "Easter Sunday of the Resurrection of the Lord"@ <==> t == e,
        easter_season_desc(e, t) == "Pentecost Sunday"@ <==> t == e + 49,
        easter_season_desc(e, t) != "Ash Wednesday"@,
        easter_season_desc(e, t) != "The Most Holy Trinity"@,
        easter_season_desc(e, t) != "The Most Holy Body and Blood of Christ"@,
        easter_season_desc(e, t) != "Our Lord Jesus Christ, King of the Universe"@,
        easter_season_desc(e, t) != "1st Sunday of Advent"@,
        easter_season_desc(e, t) != "The Nativity of the Lord (Christmas)"@,
        easter_season_desc(e, t) != "The Epiphany of the Lord"@,
        easter_season_desc(e, t) != "The Baptism of the Lord"@,
{
    reveal_strlit("1st Sunday of Advent");
    reveal_strlit("Easter Sunday of the Resurrection of the Lord");
    reveal_strlit("Ash Wednesday");
    reveal_strlit("Pentecost Sunday");
    reveal_strlit("The Most Holy Trinity");
    reveal_strlit("The Most Holy Body and Blood of Christ");
    reveal_strlit("Our Lord Jesus Christ, King of the Universe");
    reveal_strlit("The Nativity of the Lord (Christmas)");
    reveal_strlit("The Epiphany of the Lord");
    reveal_strlit("The Baptism of the Lord");
    assert("Easter Sunday of the Resurrection of the Lord"@.len() == 45);
    assert("Ash Wednesday"@.len() == 13);
    assert("Pentecost Sunday"@.len() == 16);
    assert("The Most Holy Trinity"@.len() == 21);
    assert("The Most Holy Body and Blood of Christ"@.len() == 38);
    assert("Our Lord Jesus Christ, King of the Universe"@.len() == 43);
    assert("1st Sunday of Advent"@.len() == 20);
    assert("The Nativity of the Lord (Christmas)"@.len() == 36);
    assert("The Epiphany of the Lord"@.len() == 24);
    assert("The Baptism of the Lord"@.len() == 23);
    reveal_strlit("Palm Sunday of the Passion of the Lord");
    reveal_strlit("Monday of Holy Week");
    reveal_strlit("Tuesday of Holy Week");
    reveal_strlit("Wednesday of Holy Week");
    reveal_strlit("Holy Thursday");
    reveal_strlit("Friday of the Passion of the Lord");
    reveal_strlit("Holy Saturday");
    reveal_strlit("Monday within the Octave of Easter");
    reveal_strlit("Tuesday within the Octave of Easter");
    reveal_strlit("Wednesday within the Octave of Easter");
    reveal_strlit("Thursday within the Octave of Easter");
    reveal_strlit("Friday within the Octave of Easter");
    reveal_strlit("Saturday within the Octave of Easter");
    reveal_strlit("Sunday of Divine Mercy");
    reveal_strlit("The Ascension of the Lord");
    reveal_strlit(" Sunday of ");
    reveal_strlit(" of the ");
    reveal_strlit(" week of ");
    reveal_strlit("Easter");
    lemma_fundamental_div_mod(t, 7);
    lemma_mod_division_less_than_divisor(t, 7);
    lemma_fundamental_div_mod(e, 7);
    if t < e {
        assert("Palm Sunday of the Passion of the Lord"@.len() == 38);
        assert("Monday of Holy Week"@.len() == 19);
        assert("Tuesday of Holy Week"@.len() == 20);
        assert("Wednesday of Holy Week"@.len() == 22);
        assert("Holy Thursday"@.len() == 13);
        assert("Friday of the Passion of the Lord"@.len() == 33);
        assert("Holy Saturday"@.len() == 13);
        assert("Holy Thursday"@[0] == 'H' && "Holy Saturday"@[0] == 'H' && "Ash Wednesday"@[0]
            == 'A');
        assert("Palm Sunday of the Passion of the Lord"@[0] == 'P'
            && "The Most Holy Body and Blood of Christ"@[0] == 'T');
        assert("Tuesday of Holy Week"@[0] == 'T' && "1st Sunday of Advent"@[0] == '1');
    } else if t <= e + 7 || t == e + 49 || t == e + 42 {
        assert("Monday within the Octave of Easter"@.len() == 34);
        assert("Tuesday within the Octave of Easter"@.len() == 35);
        assert("Wednesday within the Octave of Easter"@.len() == 37);
        assert("Thursday within the Octave of Easter"@.len() == 36);
        assert("Friday within the Octave of Easter"@.len() == 34);
        assert("Saturday within the Octave of Easter"@.len() == 36);
        assert("Sunday of Divine Mercy"@.len() == 22);
        assert("The Ascension of the Lord"@.len() == 25);
        assert("Thursday within the Octave of Easter"@[2] == 'u'
            && "The Nativity of the Lord (Christmas)"@[2] == 'e');
        assert("Saturday within the Octave of Easter"@[0] == 'S'
            && "The Nativity of the Lord (Christmas)"@[0] == 'T');
    } else if t % 7 == 0 {
        lemma_fundamental_div_mod_converse(t - e - 7, 7, t / 7 - e / 7 - 1, 0);
        let n = easter_week(e, t);
        assert(3 <= n <= 6);
        lemma_text_metrics(n, 0);
        assert(easter_season_desc(e, t).len() == 20);
        lemma_nth_ne_first_advent(n, "Easter"@);
    } else {
        let w = t % 7;
        let n = easter_week(e, t);
        lemma_fundamental_div_mod(t - e - 7, 7);
        lemma_mod_division_less_than_divisor(t - e - 7, 7);
        assert(2 <= n <= 7);
        lemma_text_metrics(n, w);
        assert(32 <= easter_season_desc(e, t).len() <= 35);
    }
}

/// Within Ordinary Time after Easter, exactly Trinity Sunday, Corpus
/// Christi and Christ the King bear named-day labels.
#[verifier::rlimit(100)]
proof fn lemma_posteaster_names(p: int, adv: int, t: int)
    requires
        p % 7 == 0,
        adv % 7 == 0,
        p + 1 <= t <= adv - 1,
        100 <= adv - p <= 220,
    ensures
        posteaster_desc(p, adv, t) == "The Most Holy Trinity"@ <==> t == p + 7,
        posteaster_desc(p, adv, t) == "The Most Holy Body and Blood of Christ"@ <==> t == p + 14,
        posteaster_desc(p, adv, t) == "Our Lord Jesus Christ, King of the Universe"@ <==> t == adv
            - 7,
        posteaster_desc(p, adv, t) != "Easter Sunday of the Resurrection of the Lord"@,
        posteaster_desc(p, adv, t) != "Ash Wednesday"@,
        posteaster_desc(p, adv, t) != "Pentecost Sunday"@,
        posteaster_desc(p, adv, t) != "1st Sunday of Advent"@,
        posteaster_desc(p, adv, t) != "The Nativity of the Lord (Christmas)"@,
        posteaster_desc(p, adv, t) != "The Epiphany of the Lord"@,
        posteaster_desc(p, adv, t) != "The Baptism of the Lord"@,
{
    reveal_strlit("1st Sunday of Advent");
    reveal_strlit("Easter Sunday of the Resurrection of the Lord");
    reveal_strlit("Ash Wednesday");
    reveal_strlit("Pentecost Sunday");
    reveal_strlit("The Most Holy Trinity");
    reveal_strlit("The Most Holy Body and Blood of Christ");
    reveal_strlit("Our Lord Jesus Christ, King of the Universe");
    reveal_strlit("The Nativity of the Lord (Christmas)");
    reveal_strlit("The Epiphany of the Lord");
    reveal_strlit("The Baptism of the Lord");
    assert("Easter Sunday of the Resurrection of the Lord"@.len() == 45);
    assert("Ash Wednesday"@.len() == 13);
    assert("Pentecost Sunday"@.len() == 16);
    assert("The Most Holy Trinity"@.len() == 21);
    assert("The Most Holy Body and Blood of Christ"@.len() == 38);
    assert("Our Lord Jesus Christ, King of the Universe"@.len() == 43);
    assert("1st Sunday of Advent"@.len() == 20);
    assert("The Nativity of the Lord (Christmas)"@.len() == 36);
    assert("The Epiphany of the Lord"@.len() == 24);
    assert("The Baptism of the Lord"@.len() == 23);
    reveal_strlit(" Sunday of ");
    reveal_strlit(" of the ");
    reveal_strlit(" week of ");
    reveal_strlit("Ordinary Time");
    lemma_fundamental_div_mod(t, 7);
    lemma_mod_division_less_than_divisor(t, 7);
    lemma_fundamental_div_mod(p, 7);
    lemma_fundamental_div_mod(adv, 7);
    lemma_fundamental_div_mod(adv - t - 1, 7);
    lemma_mod_division_less_than_divisor(adv - t - 1, 7);
    if t == p + 7 || t == p + 14 {
        lemma_fundamental_div_mod_converse(p + 7, 7, p / 7 + 1, 0);
        lemma_fundamental_div_mod_converse(p + 14, 7, p / 7 + 2, 0);
        assert(t % 7 == 0);
    } else if t == adv - 7 {
        lemma_fundamental_div_mod_converse(adv - 7, 7, adv / 7 - 1, 0);
        assert(t % 7 == 0);
    }
    if t % 7 == 0 {
        if t == p + 7 || t == p + 14 || t == adv - 7 {
        } else {
            let q = (adv - t - 1) / 7;
            assert(0 <= q <= 31);
            let sn = 33 - q;
            lemma_text_metrics(sn, 0);
            assert(27 <= posteaster_desc(p, adv, t).len() <= 28);
        }
    } else {
        let w = t % 7;
        let q = (adv - t - 1) / 7;
        assert(0 <= q <= 31);
        lemma_text_metrics(34 - q, w);
        let d = posteaster_desc(p, adv, t);
        assert(d[0] == weekday_text(w)[0]);
        assert("Our Lord Jesus Christ, King of the Universe"@[0] == 'O');
        assert(39 <= d.len() <= 43);
    }
}

/// Each named day's label appears in the liturgical year of `y` on its
/// own date and on no other: the description of day `t` equals the
/// name exactly when `t` is that anchor.
#[verifier::rlimit(100)]
pub proof fn lemma_named_day_unique(y: int, t: int)
    requires
        1582 <= y <= 9999,
        fsa_num(y) <= t < fsa_num(y + 1),
    ensures
        year_day_desc(y, t) == "1st Sunday of Advent"@ <==> t == fsa_num(y),
        year_day_desc(y, t) == "The Nativity of the Lord (Christmas)"@ <==> t == day_number(
            y,
            12,
            25,
        ),
        year_day_desc(y, t) == "The Epiphany of the Lord"@ <==> t == epiphany_num(y + 1),
        year_day_desc(y, t) == "The Baptism of the Lord"@ <==> t == epiphany_num(y + 1) + 7,
        year_day_desc(y, t) == "Ash Wednesday"@ <==> t == easter_num(y + 1) - 46,
        year_day_desc(y, t) == "Easter Sunday of the Resurrection of the Lord"@ <==> t
            == easter_num(y + 1),
        year_day_desc(y, t) == "Pentecost Sunday"@ <==> t == easter_num(y + 1) + 49,
        year_day_desc(y, t) == "The Most Holy Trinity"@ <==> t == easter_num(y + 1) + 56,
        year_day_desc(y, t) == "The Most Holy Body and Blood of Christ"@ <==> t == easter_num(
            y + 1,
        ) + 63,
        year_day_desc(y, t) == "Our Lord Jesus Christ, King of the Universe"@ <==> t == fsa_num(
            y + 1,
        ) - 7,
{
    lemma_anchor_chain(y);
    let e = easter_num(y + 1);
    let ep = epiphany_num(y + 1);
    let dec24 = day_number(y, 12, 24);
    let dec25 = day_number(y, 12, 25);
    lemma_mod_multiples_vanish(7, e, 7);
    if t <= dec24 {
        lemma_advent_names(fsa_num(y), dec24, t);
    } else if t <= ep + 7 {
        lemma_christmas_names(dec25, ep, t);
    } else if t < e - 46 {
        lemma_prelent_names(ep + 7, t);
    } else if t <= e - 8 {
        lemma_lent_names(e - 46, t);
    } else if t <= e + 49 {
        lemma_easter_names(e, t);
    } else {
        lemma_posteaster_names(e + 49, fsa_num(y + 1), t);
    }
}

/// The named days of a built liturgical year appear exactly once: in
/// any day sequence that meets the year contract, an entry bears a
/// named-day label precisely when it sits on that anchor's date.
#[verifier::rlimit(100)]
pub proof fn lemma_year_named_days(y: int, s: Seq<crate::church_day::ChurchDay>)
    requires
        1582 <= y <= 9999,
        s.len() == fsa_num(y + 1) - fsa_num(y),
        forall|j: int|
            #![trigger s[j]]
            0 <= j < s.len() ==> crate::builder::year_day_ok(y, s[j], j),
    ensures
        forall|j: int|
            #![trigger s[j]]
            0 <= j < s.len() ==> {
                let t = fsa_num(y) + j;
                &&& (s[j].description@ == "Easter Sunday of the Resurrection of the Lord"@ <==> t
                    == easter_num(y + 1))
                &&& (s[j].description@ == "Ash Wednesday"@ <==> t == easter_num(y + 1) - 46)
                &&& (s[j].description@ == "Pentecost Sunday"@ <==> t == easter_num(y + 1) + 49)
                &&& (s[j].description@ == "The Most Holy Trinity"@ <==> t == easter_num(y + 1)
                    + 56)
                &&& (s[j].description@ == "The Most Holy Body and Blood of Christ"@ <==> t
                    == easter_num(y + 1) + 63)
                &&& (s[j].description@ == "Our Lord Jesus Christ, King of the Universe"@ <==> t
                    == fsa_num(y + 1) - 7)
                &&& (s[j].description@ == "1st Sunday of Advent"@ <==> t == fsa_num(y))
                &&& (s[j].description@ == "The Nativity of the Lord (Christmas)"@ <==> t
                    == day_number(y, 12, 25))
                &&& (s[j].description@ == "The Epiphany of the Lord"@ <==> t == epiphany_num(
                    y + 1,
                ))
                &&& (s[j].description@ == "The Baptism of the Lord"@ <==> t == epiphany_num(y + 1)
                    + 7)
            },
{
    assert forall|j: int| #![trigger s[j]] 0 <= j < s.len() implies {
        let t = fsa_num(y) + j;
        &&& (s[j].description@ == "Easter Sunday of the Resurrection of the Lord"@ <==> t
            == easter_num(y + 1))
        &&& (s[j].description@ == "Ash Wednesday"@ <==> t == easter_num(y + 1) - 46)
        &&& (s[j].description@ == "Pentecost Sunday"@ <==> t == easter_num(y + 1) + 49)
        &&& (s[j].description@ == "The Most Holy Trinity"@ <==> t == easter_num(y + 1) + 56)
        &&& (s[j].description@ == "The Most Holy Body and Blood of Christ"@ <==> t == easter_num(
            y + 1,
        ) + 63)
        &&& (s[j].description@ == "Our Lord Jesus Christ, King of the Universe"@ <==> t
            == fsa_num(y + 1) - 7)
        &&& (s[j].description@ == "1st Sunday of Advent"@ <==> t == fsa_num(y))
        &&& (s[j].description@ == "The Nativity of the Lord (Christmas)"@ <==> t == day_number(
            y,
            12,
            25,
        ))
        &&& (s[j].description@ == "The Epiphany of the Lord"@ <==> t == epiphany_num(y + 1))
        &&& (s[j].description@ == "The Baptism of the Lord"@ <==> t == epiphany_num(y + 1) + 7)
    } by {
        lemma_named_day_unique(y, fsa_num(y) + j);
    }
}

} // verus!
