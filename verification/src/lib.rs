//! Conversion between the civil (Julian/Gregorian) calendar and the
//! traditional Korean lunisolar calendar over the years 1391..=2050, with
//! sexagenary cycle names in hangul and hanzi, Julian Day Numbers, and the
//! day of the week. Every date function carries a contract that states its
//! value over the packed year table and a day axis shared by the two
//! calendars; the laws module proves the round-trip and consistency
//! properties of the conversion.

use vstd::prelude::*;

pub mod align;
pub mod convert;
pub mod converter;
pub mod jdn;
pub mod laws;
pub mod lunar;
pub mod solar;
pub mod table;
pub mod text;

pub use converter::LunarSolarConverter;
pub use jdn::DayOfWeek;
