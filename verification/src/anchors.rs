//! Anchor days of the liturgical year.
//!
//! Each anchor is a pure function of the civil year: Easter by the
//! anonymous Gregorian Computus, the First Sunday of Advent as the
//! Sunday nearest November 30, Epiphany as the first Sunday of a fixed
//! January window, and the days fixed offsets away from these.

use crate::church_day::ChurchDay;
use crate::church_day::DayClass;
use crate::church_day::Season;
use crate::dates::Date;
use crate::dates::day_number;
use crate::dates::days_before_month;
use crate::dates::days_before_year;
use crate::dates::lemma_dbm_monotone;
use crate::dates::lemma_dby_succ;
use crate::dates::lemma_num_range;
use crate::dates::lemma_year_ge;
use crate::dates::lemma_year_le;
use crate::text::nth_sunday_text;
use crate::text::sunday_desc;
use vstd::arithmetic::div_mod::lemma_fundamental_div_mod;
use vstd::arithmetic::div_mod::lemma_fundamental_div_mod_converse;
use vstd::arithmetic::div_mod::lemma_mod_division_less_than_divisor;
use vstd::arithmetic::div_mod::lemma_mod_multiples_basic;
use vstd::prelude::*;
use vstd::string::*;

verus! {

/// Easter's distance in days from March 1 of its year, as the
/// anonymous Gregorian Computus defines it.
pub open spec fn easter_shift(y: int) -> int {
    let a = y % 19;
    let b = y / 100;
    let c = y % 100;
    let d = b / 4;
    let e = b % 4;
    let f = (b + 8) / 25;
    let g = (b - f + 1) / 3;
    let h = (19 * a + b - d - g + 15) % 30;
    let i = c / 4;
    let k = c % 4;
    let l = (32 + 2 * e + 2 * i - h - k) % 7;
    let m = (a + 11 * h + 22 * l) / 451;
    h + l - 7 * m + 21
}

/// Day number of Easter Sunday of year `y`.
pub open spec fn easter_num(y: int) -> int {
    day_number(y, 3, 1) + easter_shift(y)
}

/// Day number of the First Sunday of Advent of year `y`: the last
/// Sunday on or before December 3.
pub open spec fn fsa_num(y: int) -> int {
    day_number(y, 12, 3) - day_number(y, 12, 3) % 7
}

/// Day number of Epiphany of year `y`: the first Sunday on or after
/// January 2.
pub open spec fn epiphany_num(y: int) -> int {
    let j2 = day_number(y, 1, 2);
    j2 + (7 - j2 % 7) % 7
}

/// Epiphany's day number is the unique Sunday in its seven-day window.
pub proof fn lemma_epiphany_window(y: int)
    ensures
        day_number(y, 1, 2) <= epiphany_num(y) <= day_number(y, 1, 8),
        epiphany_num(y) % 7 == 0,
{
    let j2 = day_number(y, 1, 2);
    let q = j2 / 7;
    lemma_fundamental_div_mod(j2, 7);
    lemma_mod_division_less_than_divisor(j2, 7);
    if j2 % 7 == 0 {
        lemma_fundamental_div_mod_converse(7, 7, 1, 0);
    } else {
        lemma_fundamental_div_mod_converse(7 - j2 % 7, 7, 0, 7 - j2 % 7);
        lemma_fundamental_div_mod_converse(j2 + 7 - j2 % 7, 7, q + 1, 0);
    }
}

/// The Computus result stays between March 22 and April 25.
pub proof fn lemma_easter_shift_range(y: int)
    requires
        1583 <= y <= 10000,
    ensures
        21 <= easter_shift(y) <= 55,
{
    let a = y % 19;
    let b = y / 100;
    let c = y % 100;
    let d = b / 4;
    let e = b % 4;
    let f = (b + 8) / 25;
    let g = (b - f + 1) / 3;
    let h = (19 * a + b - d - g + 15) % 30;
    let i = c / 4;
    let k = c % 4;
    let l = (32 + 2 * e + 2 * i - h - k) % 7;
    let x = a + 11 * h + 22 * l;
    let m = x / 451;
    lemma_mod_division_less_than_divisor(y, 19);
    lemma_mod_division_less_than_divisor(19 * a + b - d - g + 15, 30);
    lemma_mod_division_less_than_divisor(32 + 2 * e + 2 * i - h - k, 7);
    lemma_fundamental_div_mod(x, 451);
    lemma_mod_division_less_than_divisor(x, 451);
    assert(0 <= a <= 18 && 0 <= h <= 29 && 0 <= l <= 6);
    assert(x <= 469);
    assert(0 <= m <= 1);
    if m == 1 {
        assert(x >= 451);
        assert(h + l >= 34);
    } else {
        if h + l >= 35 {
            assert(x >= 451);
            assert(false);
        }
        assert(h + l <= 34);
    }
}

/// The Computus always lands on a Sunday: Easter's day number is
/// divisible by 7.
pub proof fn lemma_easter_sunday(y: int)
    requires
        1583 <= y <= 10000,
    ensures
        easter_num(y) % 7 == 0,
{
    let a = y % 19;
    let b = y / 100;
    let c = y % 100;
    let d = b / 4;
    let e = b % 4;
    let f = (b + 8) / 25;
    let g = (b - f + 1) / 3;
    let h = (19 * a + b - d - g + 15) % 30;
    let i = c / 4;
    let k = c % 4;
    let s = 32 + 2 * e + 2 * i - h - k;
    let l = s % 7;
    let m = (a + 11 * h + 22 * l) / 451;
    let q4 = (y - 1) / 4;
    let q100 = (y - 1) / 100;
    let q400 = (y - 1) / 400;
    lemma_fundamental_div_mod(y, 100);
    lemma_mod_division_less_than_divisor(y, 100);
    lemma_fundamental_div_mod(c, 4);
    lemma_mod_division_less_than_divisor(c, 4);
    lemma_fundamental_div_mod(b, 4);
    lemma_mod_division_less_than_divisor(b, 4);
    lemma_fundamental_div_mod(s, 7);
    lemma_mod_division_less_than_divisor(s, 7);
    // characterize (y-1)/4
    if k >= 1 {
        lemma_fundamental_div_mod_converse(y - 1, 4, 25 * b + i, k - 1);
        assert(q4 == 25 * b + i);
    } else if i >= 1 {
        lemma_fundamental_div_mod_converse(y - 1, 4, 25 * b + i - 1, 3);
        assert(q4 == 25 * b + i - 1);
    } else {
        lemma_fundamental_div_mod_converse(y - 1, 4, 25 * b - 1, 3);
        assert(q4 == 25 * b - 1);
    }
    // characterize (y-1)/100
    if c >= 1 {
        lemma_fundamental_div_mod_converse(y - 1, 100, b, c - 1);
        assert(q100 == b);
    } else {
        lemma_fundamental_div_mod_converse(y - 1, 100, b - 1, 99);
        assert(q100 == b - 1);
    }
    // characterize (y-1)/400
    if c >= 1 {
        lemma_fundamental_div_mod_converse(y - 1, 400, d, 100 * e + c - 1);
        assert(q400 == d);
    } else if e >= 1 {
        lemma_fundamental_div_mod_converse(y - 1, 400, d, 100 * e - 1);
        assert(q400 == d);
    } else {
        lemma_fundamental_div_mod_converse(y - 1, 400, d - 1, 399);
        assert(q400 == d - 1);
    }
    // the leap-year test of y in terms of the residues
    lemma_fundamental_div_mod_converse(y, 4, 25 * b + i, k);
    lemma_fundamental_div_mod_converse(y, 400, d, 100 * e + c);
    assert(y % 4 == k && y % 100 == c && y % 400 == 100 * e + c);
    // February ends 59 days into an ordinary year
    assert(days_before_month(y, 3) == 59 + if crate::dates::is_leap_year_spec(y) {
        1int
    } else {
        0int
    }) by {
        reveal_with_fuel(days_before_month, 4);
    }
    let t = 20871 * d + 5218 * e + 209 * i + 52 * k - 36 - (s / 7) - m;
    assert(easter_num(y) == 7 * t);
    lemma_mod_multiples_basic(t, 7);
    assert(t * 7 == 7 * t);
}

/// Easter Sunday of the given year, by the Gregorian Computus.
pub fn easter_for_year(year: i32) -> (r: ChurchDay)
    requires
        1583 <= year <= 10000,
    ensures
        r.wf(),
        r.date.year == year,
        r.date.num() == easter_num(year as int),
        r.date.num() % 7 == 0,
        day_number(year as int, 3, 22) <= r.date.num() <= day_number(year as int, 4, 25),
        r.class == DayClass::Solemnity,
        r.season == Season::Easter,
        r.description@ == "Easter Sunday of the Resurrection of the Lord"@,
{
    let yy = year as u32;
    let a = yy % 19;
    let b = yy / 100;
    let c = yy % 100;
    proof {
        lemma_fundamental_div_mod(yy as int, 100);
        lemma_mod_division_less_than_divisor(yy as int, 100);
        lemma_mod_division_less_than_divisor(yy as int, 19);
        lemma_fundamental_div_mod(b as int, 4);
        lemma_mod_division_less_than_divisor(b as int, 4);
        lemma_fundamental_div_mod(c as int, 4);
        lemma_mod_division_less_than_divisor(c as int, 4);
        lemma_fundamental_div_mod(b as int + 8, 25);
        lemma_mod_division_less_than_divisor(b as int + 8, 25);
    }
    let d = b / 4;
    let e = b % 4;
    let f = (b + 8) / 25;
    proof {
        lemma_fundamental_div_mod(b as int - f as int + 1, 3);
        lemma_mod_division_less_than_divisor(b as int - f as int + 1, 3);
    }
    let g = (b - f + 1) / 3;
    let h = (19 * a + b - d - g + 15) % 30;
    let i = c / 4;
    let k = c % 4;
    proof {
        lemma_mod_division_less_than_divisor(19 * (a as int) + b - d - g + 15, 30);
        lemma_mod_division_less_than_divisor(
            32 + 2 * (e as int) + 2 * (i as int) - h as int - k as int,
            7,
        );
    }
    let l = (32 + 2 * e + 2 * i - h - k) % 7;
    let m = (a + 11 * h + 22 * l) / 451;
    proof {
        lemma_fundamental_div_mod(a as int + 11 * (h as int) + 22 * (l as int), 451);
        lemma_mod_division_less_than_divisor(a as int + 11 * (h as int) + 22 * (l as int), 451);
        lemma_easter_shift_range(year as int);
    }
    let x = h + l + 114 - 7 * m;
    assert(x as int == easter_shift(year as int) + 93);
    let month = x / 31;
    let day = x % 31 + 1;
    proof {
        if x < 124 {
            lemma_fundamental_div_mod_converse(x as int, 31, 3, x as int - 93);
        } else {
            lemma_fundamental_div_mod_converse(x as int, 31, 4, x as int - 124);
        }
        assert(days_before_month(year as int, 4) == days_before_month(year as int, 3) + 31);
        lemma_easter_sunday(year as int);
    }
    ChurchDay {
        date: Date { year, month, day },
        class: DayClass::Solemnity,
        season: Season::Easter,
        description: String::from_str("Easter Sunday of the Resurrection of the Lord"),
    }
}

/// Ash Wednesday: 46 days before the given Easter Sunday.
pub fn ash_wednesday(easter: &ChurchDay) -> (r: ChurchDay)
    requires
        easter.wf(),
        5 <= easter.date.year <= 19000,
    ensures
        r.wf(),
        r.date.num() == easter.date.num() - 46,
        easter.date.num() % 7 == 0 ==> r.date.num() % 7 == 3,
        r.class == DayClass::Solemnity,
        r.season == Season::Lent,
        r.description@ == "Ash Wednesday"@,
{
    let date = easter.date.subtract_days(46);
    proof {
        let en = easter.date.num();
        lemma_fundamental_div_mod(en, 7);
        lemma_mod_division_less_than_divisor(en, 7);
        if en % 7 == 0 {
            lemma_fundamental_div_mod_converse(en - 46, 7, en / 7 - 7, 3);
        }
    }
    ChurchDay {
        date,
        class: DayClass::Solemnity,
        season: Season::Lent,
        description: String::from_str("Ash Wednesday"),
    }
}

/// First Sunday of Advent of the given year: the Sunday nearest
/// November 30, always between November 27 and December 3.
pub fn first_sunday_advent(year: i32) -> (r: ChurchDay)
    requires
        5 <= year <= 19000,
    ensures
        r.wf(),
        r.date.year == year,
        r.date.num() == fsa_num(year as int),
        r.date.num() % 7 == 0,
        day_number(year as int, 11, 27) <= r.date.num() <= day_number(year as int, 12, 3),
        r.class == DayClass::Sunday,
        r.season == Season::Advent,
        r.description@ == nth_sunday_text(1, "Advent"@),
{
    let dec_first = Date { year, month: 12, day: 1 };
    let w = dec_first.day_of_week();
    proof {
        let d1 = dec_first.num();
        let q = d1 / 7;
        lemma_fundamental_div_mod(d1, 7);
        lemma_mod_division_less_than_divisor(d1, 7);
        if w == 0 {
            lemma_fundamental_div_mod_converse(d1 + 2, 7, q, 2);
        } else if w <= 4 {
            lemma_fundamental_div_mod_converse(d1 + 2, 7, q, w as int + 2);
        } else if w == 5 {
            lemma_fundamental_div_mod_converse(d1 + 2, 7, q + 1, 0);
        } else {
            lemma_fundamental_div_mod_converse(d1 + 2, 7, q + 1, 1);
        }
        lemma_mod_multiples_basic(q, 7);
        lemma_mod_multiples_basic(q + 1, 7);
        assert(days_before_month(year as int, 12) == days_before_month(year as int, 11) + 30);
    }
    let date = if w == 0 {
        dec_first
    } else if w <= 4 {
        dec_first.subtract_days(w)
    } else {
        dec_first.add_days(7 - w)
    };
    proof {
        lemma_dbm_monotone(year as int, 1, 12);
        lemma_year_ge(date, year as int);
        let d3 = Date { year, month: 12, day: 3 };
        lemma_num_range(d3);
        lemma_year_le(date, year as int);
    }
    ChurchDay {
        date,
        class: DayClass::Sunday,
        season: Season::Advent,
        description: sunday_desc(1, "Advent"),
    }
}

/// Epiphany of the given year: the first Sunday of January 2 through
/// January 8. The window is seven days wide, so the Sunday always
/// exists and the result is never `None`.
pub fn epiphany(year: i32) -> (r: Option<ChurchDay>)
    requires
        5 <= year <= 19000,
    ensures
        r is Some,
        r->Some_0.wf(),
        r->Some_0.date.year == year,
        r->Some_0.date.num() == epiphany_num(year as int),
        r->Some_0.date.num() % 7 == 0,
        day_number(year as int, 1, 2) <= r->Some_0.date.num() <= day_number(year as int, 1, 8),
        r->Some_0.class == DayClass::Solemnity,
        r->Some_0.season == Season::Christmas,
        r->Some_0.description@ == "The Epiphany of the Lord"@,
{
    let jan2 = Date { year, month: 1, day: 2 };
    let w = jan2.day_of_week();
    let date = if w == 0 {
        jan2
    } else {
        jan2.add_days(7 - w)
    };
    proof {
        let j2 = jan2.num();
        let q = j2 / 7;
        lemma_fundamental_div_mod(j2, 7);
        lemma_mod_division_less_than_divisor(j2, 7);
        if w == 0 {
            lemma_fundamental_div_mod_converse(7, 7, 1, 0);
        } else {
            lemma_fundamental_div_mod_converse(7 - w as int, 7, 0, 7 - w as int);
            lemma_fundamental_div_mod_converse(j2 + 7 - w as int, 7, q + 1, 0);
        }
        assert(days_before_month(year as int, 1) == 0);
        lemma_year_ge(date, year as int);
        lemma_dby_succ(year as int);
        lemma_year_le(date, year as int);
    }
    Some(
        ChurchDay {
            date,
            class: DayClass::Solemnity,
            season: Season::Christmas,
            description: String::from_str("The Epiphany of the Lord"),
        },
    )
}

/// The Baptism of the Lord: one week after Epiphany.
pub fn baptism(epiphany: ChurchDay) -> (r: ChurchDay)
    requires
        epiphany.wf(),
        epiphany.date.year <= 19000,
    ensures
        r.wf(),
        r.date.num() == epiphany.date.num() + 7,
        r.class == DayClass::Feast,
        r.season == Season::Christmas,
        r.description@ == "The Baptism of the Lord"@,
{
    ChurchDay {
        date: epiphany.date.add_days(7),
        class: DayClass::Feast,
        season: Season::Christmas,
        description: String::from_str("The Baptism of the Lord"),
    }
}

/// Pentecost: seven weeks after Easter Sunday.
pub fn pentecost(easter: ChurchDay) -> (r: ChurchDay)
    requires
        easter.wf(),
        easter.date.year <= 19000,
    ensures
        r.wf(),
        r.date.num() == easter.date.num() + 49,
        r.class == DayClass::Solemnity,
        r.season == Season::Easter,
        r.description@ == "Pentecost Sunday"@,
{
    ChurchDay {
        date: easter.date.add_days(49),
        class: DayClass::Solemnity,
        season: Season::Easter,
        description: String::from_str("Pentecost Sunday"),
    }
}

} // verus!
