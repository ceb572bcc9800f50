//! Proleptic Gregorian dates.
//!
//! A date is modelled by its *day number*: the count of days since the
//! civil epoch, with `day_number(1, 1, 1) == 1`. Day numbers make day
//! arithmetic and weekday reasoning uniform: day 1 was a Monday, so a
//! date is a Sunday exactly when its day number is divisible by 7.

use vstd::arithmetic::div_mod::lemma_fundamental_div_mod;
use vstd::arithmetic::div_mod::lemma_fundamental_div_mod_converse;
use vstd::arithmetic::div_mod::lemma_mod_division_less_than_divisor;
use vstd::arithmetic::div_mod::lemma_mod_multiples_basic;
use vstd::prelude::*;

verus! {

/// Gregorian leap rule: divisible by 4, except century years not
/// divisible by 400.
pub open spec fn is_leap_year_spec(y: int) -> bool {
    (y % 4 == 0 && y % 100 != 0) || y % 400 == 0
}

/// Length of a month in the Gregorian calendar.
pub open spec fn days_in_month_spec(y: int, m: int) -> int {
    if m == 2 {
        if is_leap_year_spec(y) {
            29
        } else {
            28
        }
    } else if m == 4 || m == 6 || m == 9 || m == 11 {
        30
    } else {
        31
    }
}

/// Days of year `y` that precede the first of month `m`.
pub open spec fn days_before_month(y: int, m: int) -> int
    decreases m,
{
    if m <= 1 {
        0
    } else {
        days_before_month(y, m - 1) + days_in_month_spec(y, m - 1)
    }
}

/// Days that precede January 1 of year `y`, counted from the epoch.
pub open spec fn days_before_year(y: int) -> int {
    365 * (y - 1) + (y - 1) / 4 - (y - 1) / 100 + (y - 1) / 400
}

/// The day number of a calendar date; `day_number(1, 1, 1) == 1`.
pub open spec fn day_number(y: int, m: int, d: int) -> int {
    days_before_year(y) + days_before_month(y, m) + d
}

/// A calendar date the library will work on: year, month and day in
/// range. The year bound keeps all day arithmetic far from overflow.
pub open spec fn valid_ymd(y: int, m: int, d: int) -> bool {
    1 <= y <= 20000 && 1 <= m <= 12 && 1 <= d <= days_in_month_spec(y, m)
}

/// Stepping a positive dividend back by one lowers the quotient
/// exactly when the dividend was a multiple of the divisor.
pub proof fn lemma_div_succ(n: int, d: int)
    requires
        n >= 1,
        d >= 1,
    ensures
        n / d == (n - 1) / d + if n % d == 0 {
            1int
        } else {
            0int
        },
{
    let q = n / d;
    let r = n % d;
    lemma_fundamental_div_mod(n, d);
    lemma_mod_division_less_than_divisor(n, d);
    assert(d * q == q * d && (q - 1) * d == q * d - d) by (nonlinear_arith);
    if r == 0 {
        lemma_fundamental_div_mod_converse(n - 1, d, q - 1, d - 1);
    } else {
        lemma_fundamental_div_mod_converse(n - 1, d, q, r - 1);
    }
}

/// Divisibility by 400 gives divisibility by 100, and by 100 gives
/// divisibility by 4.
pub proof fn lemma_mod_chain(y: int)
    ensures
        y % 400 == 0 ==> y % 100 == 0,
        y % 100 == 0 ==> y % 4 == 0,
{
    lemma_fundamental_div_mod(y, 400);
    lemma_fundamental_div_mod(y, 100);
    if y % 400 == 0 {
        assert(y == (4 * (y / 400)) * 100);
        lemma_mod_multiples_basic(4 * (y / 400), 100);
    }
    if y % 100 == 0 {
        assert(y == (25 * (y / 100)) * 4);
        lemma_mod_multiples_basic(25 * (y / 100), 4);
    }
}

/// The months of a year sum to 365 days, or 366 in a leap year.
pub proof fn lemma_days_in_year(y: int)
    ensures
        days_before_month(y, 13) == 365 + if is_leap_year_spec(y) {
            1int
        } else {
            0int
        },
{
    reveal_with_fuel(days_before_month, 14);
}

/// Crossing from one year to the next advances the epoch count by the
/// length of the old year.
pub proof fn lemma_dby_succ(y: int)
    requires
        y >= 1,
    ensures
        days_before_year(y + 1) == days_before_year(y) + 365 + if is_leap_year_spec(y) {
            1int
        } else {
            0int
        },
{
    lemma_div_succ(y, 4);
    lemma_div_succ(y, 100);
    lemma_div_succ(y, 400);
    lemma_mod_chain(y);
}

/// `days_before_month` grows with the month, by at least 28 days per
/// month stepped over.
pub proof fn lemma_dbm_monotone(y: int, m1: int, m2: int)
    requires
        1 <= m1 <= m2 <= 13,
    ensures
        days_before_month(y, m1) + 28 * (m2 - m1) <= days_before_month(y, m2),
    decreases m2 - m1,
{
    if m1 < m2 {
        lemma_dbm_monotone(y, m1, m2 - 1);
    }
}

/// A valid date's day number lies strictly inside its year's range of
/// the epoch count.
pub proof fn lemma_num_range(d: Date)
    requires
        d.wf(),
    ensures
        days_before_year(d.year as int) < d.num() <= days_before_year(d.year as int + 1),
{
    let y = d.year as int;
    let m = d.month as int;
    lemma_dbm_monotone(y, 1, m);
    lemma_dbm_monotone(y, m + 1, 13);
    lemma_days_in_year(y);
    lemma_dby_succ(y);
    assert(days_before_month(y, m + 1) == days_before_month(y, m) + days_in_month_spec(y, m));
}

/// Each further year moves the epoch count forward by at least 365
/// days.
pub proof fn lemma_dby_monotone(y1: int, y2: int)
    requires
        1 <= y1 <= y2,
    ensures
        days_before_year(y1) + 365 * (y2 - y1) <= days_before_year(y2),
    decreases y2 - y1,
{
    if y1 < y2 {
        lemma_dby_monotone(y1, y2 - 1);
        lemma_dby_succ(y2 - 1);
    }
}

/// The epoch count of a year is bounded by 366 days per elapsed year.
pub proof fn lemma_dby_bounds(y: int)
    requires
        1 <= y,
    ensures
        0 <= days_before_year(y) <= 366 * (y - 1),
    decreases y,
{
    if y > 1 {
        lemma_dby_bounds(y - 1);
        lemma_dby_succ(y - 1);
    }
}

/// An upper bound on the day number bounds the year.
pub proof fn lemma_year_le(d: Date, y: int)
    requires
        d.wf(),
        1 <= y,
        d.num() <= days_before_year(y + 1),
    ensures
        d.year <= y,
{
    lemma_num_range(d);
    if d.year as int > y {
        lemma_dby_monotone(y + 1, d.year as int);
    }
}

/// A lower bound on the day number bounds the year from below.
pub proof fn lemma_year_ge(d: Date, y: int)
    requires
        d.wf(),
        1 <= y,
        d.num() > days_before_year(y),
    ensures
        d.year as int >= y,
{
    lemma_num_range(d);
    if (d.year as int) < y {
        lemma_dby_monotone(d.year as int + 1, y);
    }
}

/// Valid dates with equal day numbers are the same date.
pub proof fn lemma_date_inj(a: Date, b: Date)
    requires
        a.wf(),
        b.wf(),
        a.num() == b.num(),
    ensures
        a == b,
{
    lemma_num_range(a);
    lemma_num_range(b);
    lemma_year_le(a, b.year as int);
    lemma_year_le(b, a.year as int);
    let y = a.year as int;
    let ma = a.month as int;
    let mb = b.month as int;
    if ma < mb {
        assert(days_before_month(y, ma + 1) == days_before_month(y, ma) + days_in_month_spec(
            y,
            ma,
        ));
        lemma_dbm_monotone(y, ma + 1, mb);
    }
    if mb < ma {
        assert(days_before_month(y, mb + 1) == days_before_month(y, mb) + days_in_month_spec(
            y,
            mb,
        ));
        lemma_dbm_monotone(y, mb + 1, ma);
    }
}

/// A proleptic Gregorian calendar date.
#[derive(Copy, Clone, Debug, PartialEq, Eq, Structural)]
pub struct Date {
    pub year: i32,
    pub month: u32,
    pub day: u32,
}

impl Date {
    /// Well-formed: fields denote a real calendar date.
    pub open spec fn wf(self) -> bool {
        valid_ymd(self.year as int, self.month as int, self.day as int)
    }

    /// The mathematical model of the date: its day number.
    pub open spec fn num(self) -> int {
        day_number(self.year as int, self.month as int, self.day as int)
    }

    /// Weekday as a residue: 0 is Sunday, 1 Monday, ..., 6 Saturday.
    pub open spec fn dow(self) -> int {
        self.num() % 7
    }
}

/// Gregorian leap rule, executable form.
pub fn is_leap_year(year: i32) -> (r: bool)
    requires
        year >= 1,
    ensures
        r == is_leap_year_spec(year as int),
{
    let by_4 = year % 4 == 0;
    let by_100 = year % 100 == 0;
    let by_400 = year % 400 == 0;
    (by_4 && !by_100) || by_400
}

/// Length of a month; 0 when the month is out of range.
pub fn days_in_month(month: i32, year: i32) -> (r: i32)
    requires
        year >= 1,
    ensures
        1 <= month <= 12 ==> r == days_in_month_spec(year as int, month as int),
        1 <= month <= 12 ==> 28 <= r <= 31,
{
    match month {
        2 => {
            if is_leap_year(year) {
                29
            } else {
                28
            }
        },
        4 | 6 | 9 | 11 => 30,
        1 | 3 | 5 | 7 | 8 | 10 | 12 => 31,
        _ => 0,
    }
}

/// Month length for a known-valid month, in unsigned form.
fn month_len(year: i32, month: u32) -> (r: u32)
    requires
        1 <= year,
        1 <= month <= 12,
    ensures
        r == days_in_month_spec(year as int, month as int),
        28 <= r <= 31,
{
    if month == 2 {
        if is_leap_year(year) {
            29
        } else {
            28
        }
    } else if month == 4 || month == 6 || month == 9 || month == 11 {
        30
    } else {
        31
    }
}

impl Date {
    /// Checked construction from year, month and day.
    pub fn try_new(year: i32, month: u32, day: u32) -> (r: Option<Date>)
        ensures
            r is Some <==> valid_ymd(year as int, month as int, day as int),
            r is Some ==> r->Some_0 == (Date { year, month, day }),
    {
        if 1 <= year && year <= 20000 && 1 <= month && month <= 12 && 1 <= day && day
            <= month_len(year, month) {
            Some(Date { year, month, day })
        } else {
            None
        }
    }

    /// The date's day number, computed from the fields.
    pub fn day_num(&self) -> (n: u64)
        requires
            self.wf(),
        ensures
            n as int == self.num(),
    {
        let y: u64 = (self.year - 1) as u64;
        let before_years: u64 = 365 * y + y / 4 - y / 100 + y / 400;
        assert(before_years as int == days_before_year(self.year as int));
        let mut acc: u64 = 0;
        let mut m: u32 = 1;
        while m < self.month
            invariant
                self.wf(),
                1 <= m <= self.month,
                acc as int == days_before_month(self.year as int, m as int),
                acc <= 31 * (m - 1),
            decreases self.month - m,
        {
            acc = acc + month_len(self.year, m) as u64;
            m = m + 1;
        }
        before_years + acc + self.day as u64
    }

    /// The date one day later.
    pub fn next_day(self) -> (r: Date)
        requires
            self.wf(),
            self.year < 20000,
        ensures
            r.wf(),
            r.num() == self.num() + 1,
    {
        let ml = month_len(self.year, self.month);
        if self.day < ml {
            Date { day: self.day + 1, ..self }
        } else if self.month < 12 {
            Date { month: self.month + 1, day: 1, ..self }
        } else {
            proof {
                lemma_days_in_year(self.year as int);
                lemma_dby_succ(self.year as int);
            }
            Date { year: self.year + 1, month: 1, day: 1 }
        }
    }

    /// The date one day earlier.
    pub fn prev_day(self) -> (r: Date)
        requires
            self.wf(),
            self.year > 1,
        ensures
            r.wf(),
            r.num() == self.num() - 1,
    {
        if self.day > 1 {
            Date { day: self.day - 1, ..self }
        } else if self.month > 1 {
            let ml = month_len(self.year, self.month - 1);
            Date { month: self.month - 1, day: ml, ..self }
        } else {
            proof {
                lemma_days_in_year(self.year as int - 1);
                lemma_dby_succ(self.year as int - 1);
            }
            Date { year: self.year - 1, month: 12, day: 31 }
        }
    }

    /// The date `amount` days later.
    pub fn add_days(self, amount: u32) -> (r: Date)
        requires
            self.wf(),
            self.year <= 19000,
            amount <= 1000,
        ensures
            r.wf(),
            r.num() == self.num() + amount,
    {
        let mut cur = self;
        let mut i: u32 = 0;
        while i < amount
            invariant
                cur.wf(),
                self.wf(),
                self.year <= 19000,
                i <= amount <= 1000,
                cur.num() == self.num() + i,
            decreases amount - i,
        {
            proof {
                lemma_num_range(self);
                lemma_dby_monotone(self.year as int + 1, self.year as int + 4);
                lemma_year_le(cur, self.year as int + 3);
            }
            cur = cur.next_day();
            i = i + 1;
        }
        cur
    }

    /// The date `amount` days earlier.
    pub fn subtract_days(self, amount: u32) -> (r: Date)
        requires
            self.wf(),
            self.year >= 5,
            amount <= 1000,
        ensures
            r.wf(),
            r.num() == self.num() - amount,
    {
        let mut cur = self;
        let mut i: u32 = 0;
        while i < amount
            invariant
                cur.wf(),
                self.wf(),
                self.year >= 5,
                i <= amount <= 1000,
                cur.num() == self.num() - i,
            decreases amount - i,
        {
            proof {
                lemma_num_range(self);
                lemma_dby_monotone(self.year as int - 3, self.year as int);
                lemma_year_ge(cur, self.year as int - 3);
            }
            cur = cur.prev_day();
            i = i + 1;
        }
        cur
    }

    /// Weekday of the date: 0 is Sunday through 6 Saturday.
    pub fn day_of_week(&self) -> (w: u32)
        requires
            self.wf(),
        ensures
            w as int == self.dow(),
            w <= 6,
    {
        (self.day_num() % 7) as u32
    }
}

} // verus!
