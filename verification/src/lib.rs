//! Proper of Seasons: the movable liturgical calendar.
//!
//! Starting from a handful of anchor days (Easter by the Gregorian
//! Computus, the First Sunday of Advent by weekday arithmetic, Epiphany
//! as the first Sunday in a fixed window), the library fills in every
//! day of one liturgical year with its season, rank and description.

pub mod anchors;
pub mod builder;
pub mod church_day;
pub mod dates;
pub mod laws;
pub mod text;
