//! The domain model: day classifications, seasons, and the value
//! objects a liturgical year is made of.

use crate::dates::Date;
use crate::dates::valid_ymd;
use crate::text::day_string;
use crate::text::month_string;
use crate::text::month_text;
use crate::text::weekday_text;
use vstd::prelude::*;
use vstd::string::*;

verus! {

/// Rank of a liturgical day, ordered by precedence.
#[derive(Copy, Clone, Debug, PartialEq, Eq, Structural)]
pub enum DayClass {
    Solemnity,
    Sunday,
    Feast,
    Memorial,
    SeasonalWeekday,
    FerialWeekday,
}

/// Display text of a rank.
pub open spec fn day_class_text(c: DayClass) -> Seq<char> {
    match c {
        DayClass::Solemnity => "Solemnity"@,
        DayClass::Sunday => "Sunday"@,
        DayClass::Feast => "Feast"@,
        DayClass::Memorial => "Memorial"@,
        DayClass::SeasonalWeekday => "Seasonal Weekday"@,
        DayClass::FerialWeekday => "Ferial"@,
    }
}

impl DayClass {
    /// Display text of the rank, for callers that print days.
    pub fn name(&self) -> (s: String)
        ensures
            s@ == day_class_text(*self),
    {
        match self {
            DayClass::Solemnity => String::from_str("Solemnity"),
            DayClass::Sunday => String::from_str("Sunday"),
            DayClass::Feast => String::from_str("Feast"),
            DayClass::Memorial => String::from_str("Memorial"),
            DayClass::SeasonalWeekday => String::from_str("Seasonal Weekday"),
            DayClass::FerialWeekday => String::from_str("Ferial"),
        }
    }
}

/// Season of the liturgical year. The Triduum is kept apart from Lent
/// and Easter: its three days form a liturgical unit of their own.
#[derive(Copy, Clone, Debug, PartialEq, Eq, Structural)]
pub enum Season {
    Advent,
    Christmas,
    OrdinaryTime,
    Lent,
    Triduum,
    Easter,
}

/// Display text of a season.
pub open spec fn season_text(s: Season) -> Seq<char> {
    match s {
        Season::Advent => "Advent"@,
        Season::Christmas => "Christmas"@,
        Season::OrdinaryTime => "Ordinary Time"@,
        Season::Lent => "Lent"@,
        Season::Triduum => "Sacred Triduum"@,
        Season::Easter => "Easter"@,
    }
}

impl Season {
    /// Display text of the season, for callers that print days.
    pub fn name(&self) -> (s: String)
        ensures
            s@ == season_text(*self),
    {
        match self {
            Season::Advent => String::from_str("Advent"),
            Season::Christmas => String::from_str("Christmas"),
            Season::OrdinaryTime => String::from_str("Ordinary Time"),
            Season::Lent => String::from_str("Lent"),
            Season::Triduum => String::from_str("Sacred Triduum"),
            Season::Easter => String::from_str("Easter"),
        }
    }
}

/// One liturgical day: a date with its season, rank and description.
#[derive(Clone, Debug)]
pub struct ChurchDay {
    pub date: Date,
    pub class: DayClass,
    pub season: Season,
    pub description: String,
}

impl ChurchDay {
    /// Well-formed: the date denotes a real calendar day.
    pub open spec fn wf(self) -> bool {
        self.date.wf()
    }

    /// Constructs a day from its parts. The caller supplies a real
    /// calendar date.
    pub fn new(
        year: i32,
        month: u32,
        day: u32,
        class: DayClass,
        season: Season,
        description: &str,
    ) -> (r: ChurchDay)
        requires
            valid_ymd(year as int, month as int, day as int),
        ensures
            r.date == (Date { year, month, day }),
            r.class == class,
            r.season == season,
            r.description@ == description@,
    {
        ChurchDay {
            date: Date { year, month, day },
            class,
            season,
            description: String::from_str(description),
        }
    }

    /// Full English name of the day's month.
    pub fn month_name(&self) -> (s: String)
        requires
            self.wf(),
        ensures
            s@ == month_text(self.date.month as int),
    {
        month_string(self.date.month)
    }

    /// Full English name of the day's weekday.
    pub fn string_day_of_week(&self) -> (s: String)
        requires
            self.wf(),
        ensures
            s@ == weekday_text(self.date.dow()),
    {
        day_string(self.date.day_of_week())
    }
}

/// One liturgical year: its days in order, one entry per civil day,
/// from the First Sunday of Advent through the Saturday before the
/// next one.
pub struct ChurchYear {
    pub days: Vec<ChurchDay>,
}

} // verus!
