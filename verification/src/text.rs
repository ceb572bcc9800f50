//! Description text for liturgical days.
//!
//! Every description the builders emit is specified here as a
//! `Seq<char>` spec function, and each executable helper returns a
//! `String` whose view equals the corresponding spec text.

use vstd::prelude::*;
use vstd::string::*;

verus! {

/// The decimal digit character for `d` in 0..=9.
pub open spec fn digit_text(d: int) -> Seq<char> {
    if d == 0 {
        "0"@
    } else if d == 1 {
        "1"@
    } else if d == 2 {
        "2"@
    } else if d == 3 {
        "3"@
    } else if d == 4 {
        "4"@
    } else if d == 5 {
        "5"@
    } else if d == 6 {
        "6"@
    } else if d == 7 {
        "7"@
    } else if d == 8 {
        "8"@
    } else {
        "9"@
    }
}

/// Decimal text of `n` in 0..=99.
pub open spec fn number_text(n: int) -> Seq<char> {
    if n < 10 {
        digit_text(n)
    } else {
        digit_text(n / 10) + digit_text(n % 10)
    }
}

/// English ordinal suffix for `n` in 0..=99: 11, 12 and 13 take "th",
/// otherwise the ones digit decides.
pub open spec fn ordinal_suffix_text(n: int) -> Seq<char> {
    if n == 11 || n == 12 || n == 13 {
        "th"@
    } else if n % 10 == 1 {
        "st"@
    } else if n % 10 == 2 {
        "nd"@
    } else if n % 10 == 3 {
        "rd"@
    } else {
        "th"@
    }
}

/// Full English weekday name; 0 is Sunday through 6 Saturday.
pub open spec fn weekday_text(w: int) -> Seq<char> {
    if w == 0 {
        "Sunday"@
    } else if w == 1 {
        "Monday"@
    } else if w == 2 {
        "Tuesday"@
    } else if w == 3 {
        "Wednesday"@
    } else if w == 4 {
        "Thursday"@
    } else if w == 5 {
        "Friday"@
    } else {
        "Saturday"@
    }
}

/// Full English month name; 1 is January through 12 December.
pub open spec fn month_text(m: int) -> Seq<char> {
    if m == 1 {
        "January"@
    } else if m == 2 {
        "February"@
    } else if m == 3 {
        "March"@
    } else if m == 4 {
        "April"@
    } else if m == 5 {
        "May"@
    } else if m == 6 {
        "June"@
    } else if m == 7 {
        "July"@
    } else if m == 8 {
        "August"@
    } else if m == 9 {
        "September"@
    } else if m == 10 {
        "October"@
    } else if m == 11 {
        "November"@
    } else {
        "December"@
    }
}

/// "Nth Sunday of <season>".
pub open spec fn nth_sunday_text(n: int, season: Seq<char>) -> Seq<char> {
    number_text(n) + ordinal_suffix_text(n) + " Sunday of "@ + season
}

/// "<Weekday> of the Nth week of <season>".
pub open spec fn weekday_week_text(w: int, n: int, season: Seq<char>) -> Seq<char> {
    weekday_text(w) + " of the "@ + number_text(n) + ordinal_suffix_text(n) + " week of "@ + season
}

/// "December Nth", the Late Advent naming.
pub open spec fn december_text(n: int) -> Seq<char> {
    "December "@ + number_text(n) + ordinal_suffix_text(n)
}

/// A weekday name followed by a fixed tail, such as
/// " after Ash Wednesday".
pub open spec fn weekday_then_text(w: int, tail: Seq<char>) -> Seq<char> {
    weekday_text(w) + tail
}

/// The digit character for `d` as a one-character string slice.
fn digit_str(d: u32) -> (s: &'static str)
    requires
        d <= 9,
    ensures
        s@ == digit_text(d as int),
{
    if d == 0 {
        "0"
    } else if d == 1 {
        "1"
    } else if d == 2 {
        "2"
    } else if d == 3 {
        "3"
    } else if d == 4 {
        "4"
    } else if d == 5 {
        "5"
    } else if d == 6 {
        "6"
    } else if d == 7 {
        "7"
    } else if d == 8 {
        "8"
    } else {
        "9"
    }
}

/// Decimal rendering of `n` in 0..=99.
pub fn number_string(n: u32) -> (s: String)
    requires
        n <= 99,
    ensures
        s@ == number_text(n as int),
{
    if n < 10 {
        String::from_str(digit_str(n))
    } else {
        String::from_str(digit_str(n / 10)).concat(digit_str(n % 10))
    }
}

/// English ordinal suffix of `number` in 0..=99.
pub fn ordinal_suffix(number: i32) -> (s: String)
    requires
        0 <= number <= 99,
    ensures
        s@ == ordinal_suffix_text(number as int),
{
    if number == 11 || number == 12 || number == 13 {
        String::from_str("th")
    } else if number % 10 == 1 {
        String::from_str("st")
    } else if number % 10 == 2 {
        String::from_str("nd")
    } else if number % 10 == 3 {
        String::from_str("rd")
    } else {
        String::from_str("th")
    }
}

/// Full English weekday name of `w`, 0 being Sunday.
pub fn day_string(w: u32) -> (s: String)
    requires
        w <= 6,
    ensures
        s@ == weekday_text(w as int),
{
    if w == 0 {
        String::from_str("Sunday")
    } else if w == 1 {
        String::from_str("Monday")
    } else if w == 2 {
        String::from_str("Tuesday")
    } else if w == 3 {
        String::from_str("Wednesday")
    } else if w == 4 {
        String::from_str("Thursday")
    } else if w == 5 {
        String::from_str("Friday")
    } else {
        String::from_str("Saturday")
    }
}

/// Full English month name of `m`, 1 being January.
pub fn month_string(m: u32) -> (s: String)
    requires
        1 <= m <= 12,
    ensures
        s@ == month_text(m as int),
{
    if m == 1 {
        String::from_str("January")
    } else if m == 2 {
        String::from_str("February")
    } else if m == 3 {
        String::from_str("March")
    } else if m == 4 {
        String::from_str("April")
    } else if m == 5 {
        String::from_str("May")
    } else if m == 6 {
        String::from_str("June")
    } else if m == 7 {
        String::from_str("July")
    } else if m == 8 {
        String::from_str("August")
    } else if m == 9 {
        String::from_str("September")
    } else if m == 10 {
        String::from_str("October")
    } else if m == 11 {
        String::from_str("November")
    } else {
        String::from_str("December")
    }
}

/// Builds "Nth Sunday of <season>".
pub fn sunday_desc(n: u32, season_name: &str) -> (s: String)
    requires
        1 <= n <= 99,
    ensures
        s@ == nth_sunday_text(n as int, season_name@),
{
    let mut s = number_string(n);
    let suf = ordinal_suffix(n as i32);
    s.append(suf.as_str());
    s.append(" Sunday of ");
    s.append(season_name);
    s
}

/// Builds "<Weekday> of the Nth week of <season>".
pub fn weekday_week_desc(w: u32, n: u32, season_name: &str) -> (s: String)
    requires
        w <= 6,
        1 <= n <= 99,
    ensures
        s@ == weekday_week_text(w as int, n as int, season_name@),
{
    let mut s = day_string(w);
    s.append(" of the ");
    let num = number_string(n);
    s.append(num.as_str());
    let suf = ordinal_suffix(n as i32);
    s.append(suf.as_str());
    s.append(" week of ");
    s.append(season_name);
    s
}

/// Builds "December Nth".
pub fn december_desc(n: u32) -> (s: String)
    requires
        n <= 99,
    ensures
        s@ == december_text(n as int),
{
    let mut s = String::from_str("December ");
    let num = number_string(n);
    s.append(num.as_str());
    let suf = ordinal_suffix(n as i32);
    s.append(suf.as_str());
    s
}

/// Builds a weekday name followed by the fixed tail `tail`.
pub fn weekday_then_desc(w: u32, tail: &str) -> (s: String)
    requires
        w <= 6,
    ensures
        s@ == weekday_then_text(w as int, tail@),
{
    let mut s = day_string(w);
    s.append(tail);
    s
}

} // verus!
