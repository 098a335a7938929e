use vstd::prelude::*;
use crate::convert::{
    lemma_lunar_search_props, lemma_lunar_to_solar, lemma_solar_search_props, lemma_solar_to_lunar,
    lemma_valid_lunar_bounds, lemma_valid_solar_bounds, spec_check_valid, spec_conv_intercalation, spec_lunar_month_search, spec_lunar_year_of_abs,
    spec_solar_month_search, spec_solar_year_of_abs,
};
use crate::lunar::{lunar_abs, lunar_month_len, spec_lunar_abs};
use crate::solar::{solar_abs, solar_month_len, spec_solar_abs};
use crate::table::{leap_index, lunar_word, spec_leap_index, spec_lunar_word};

verus! {

/// Ghost image of a converter's date fields.
pub ghost struct ConverterView {
    pub lunar_year: int,
    pub lunar_month: int,
    pub lunar_day: int,
    pub is_intercalation: bool,
    pub solar_year: int,
    pub solar_month: int,
    pub solar_day: int,
}

/// Holds the most recent conversion: the lunar side, the civil side, and the
/// intercalary flag, together with the cached sexagenary index pairs. A fresh
/// converter is empty; the two setters are the only operations that change
/// the dates.
pub struct LunarSolarConverter {
    lunar_year: i32,
    lunar_month: u32,
    lunar_day: u32,
    is_intercalation: bool,
    solar_year: u32,
    solar_month: u32,
    solar_day: u32,
    gapja_year_inx: Option<(usize, usize)>,
    gapja_month_inx: Option<(usize, usize)>,
    gapja_day_inx: Option<(usize, usize)>,
}

impl View for LunarSolarConverter {
    type V = ConverterView;

    closed spec fn view(&self) -> ConverterView {
        ConverterView {
            lunar_year: self.lunar_year as int,
            lunar_month: self.lunar_month as int,
            lunar_day: self.lunar_day as int,
            is_intercalation: self.is_intercalation,
            solar_year: self.solar_year as int,
            solar_month: self.solar_month as int,
            solar_day: self.solar_day as int,
        }
    }
}

/// A converter view that holds no date yet.
pub open spec fn spec_empty_view(v: ConverterView) -> bool {
    v == (ConverterView {
        lunar_year: 0,
        lunar_month: 0,
        lunar_day: 0,
        is_intercalation: false,
        solar_year: 0,
        solar_month: 0,
        solar_day: 0,
    })
}

/// A converter view whose fields hold a converted pair of dates.
pub open spec fn spec_set_view(v: ConverterView) -> bool {
    &&& 1391 <= v.lunar_year <= 2050
    &&& 1 <= v.lunar_month <= 12
    &&& 1 <= v.lunar_day <= 30
    &&& 1391 <= v.solar_year <= 2050
    &&& 1 <= v.solar_month <= 12
    &&& 1 <= v.solar_day <= 31
}

/// The lunar date the reverse mapping recovers for day index `abs`, chosen
/// from civil year `solar_year`, as a view fragment.
pub open spec fn spec_lunar_side_of_abs(solar_year: int, abs: int) -> ConverterView {
    let ly = spec_lunar_year_of_abs(solar_year, abs);
    let lm = spec_lunar_month_search(ly, abs, 12);
    let ic = spec_conv_intercalation(ly, lm, abs);
    ConverterView {
        lunar_year: ly,
        lunar_month: lm,
        lunar_day: abs - spec_lunar_abs(ly, lm, 1, ic) + 1,
        is_intercalation: ic,
        solar_year: 0,
        solar_month: 0,
        solar_day: 0,
    }
}

/// The civil date the reverse mapping recovers for day index `abs`, chosen
/// from lunar year `lunar_year`, as a view fragment; the stored day skips the
/// ten days removed from October 1582.
pub open spec fn spec_solar_side_of_abs(lunar_year: int, abs: int) -> ConverterView {
    let sy = spec_solar_year_of_abs(lunar_year, abs);
    let sm = spec_solar_month_search(sy, abs, 12);
    let rd = abs - spec_solar_abs(sy, sm, 1) + 1;
    ConverterView {
        lunar_year: 0,
        lunar_month: 0,
        lunar_day: 0,
        is_intercalation: false,
        solar_year: sy,
        solar_month: sm,
        solar_day: rd + if sy == 1582 && sm == 10 && rd > 4 {
            10int
        } else {
            0int
        },
    }
}

/// Validator shared by both setters.
fn check_valid_date(
    is_lunar: bool,
    is_intercalation: bool,
    year: i64,
    month: u32,
    day: u32,
) -> (r: bool)
    requires
        -0x8000_0000 <= year <= 0x1_0000_0000,
    ensures
        r == spec_check_valid(is_lunar, is_intercalation, year as int, month as int, day as int),
{
    let date_value: i64 = year * 10000 + (month as i64) * 100 + day as i64;
    let min_value: i64 = if is_lunar {
        13910101
    } else {
        13910205
    };
    let max_value: i64 = if is_lunar {
        20501118
    } else {
        20501231
    };
    if !(min_value <= date_value && date_value <= max_value) {
        return false;
    }
    if !(1 <= month && month <= 12 && day > 0) {
        return false;
    }
    if is_lunar {
        if is_intercalation && leap_index(lunar_word(year as i32)) != month {
            return false;
        }
        let day_limit = lunar_month_len(year as i32, month, is_intercalation);
        day <= day_limit
    } else {
        let mut day_limit = solar_month_len(year as i32, month);
        if year == 1582 && month == 10 {
            if day > 4 && day < 15 {
                return false;
            }
            day_limit = day_limit + 10;
        }
        day <= day_limit
    }
}

/// Reverse mapping of a valid civil date to its lunar side.
#[verifier::loop_isolation(false)]
fn lunar_of_solar(solar_year: u32, solar_month: u32, solar_day: u32) -> (r: (i32, u32, u32, bool))
    requires
        spec_check_valid(false, false, solar_year as int, solar_month as int, solar_day as int),
    ensures
        ({
            let a = spec_solar_abs(solar_year as int, solar_month as int, solar_day as int);
            let side = spec_lunar_side_of_abs(solar_year as int, a);
            &&& r.0 as int == side.lunar_year
            &&& r.1 as int == side.lunar_month
            &&& r.2 as int == side.lunar_day
            &&& r.3 == side.is_intercalation
        }),
{
    proof {
        lemma_valid_solar_bounds(solar_year as int, solar_month as int, solar_day as int);
        lemma_solar_to_lunar(solar_year as int, solar_month as int, solar_day as int);
    }
    let a = solar_abs(solar_year as i32, solar_month, solar_day);
    let ghost ga = a as int;
    let lunar_year: i32 = if a >= lunar_abs(solar_year as i32, 1, 1, false) {
        solar_year as i32
    } else {
        solar_year as i32 - 1
    };
    let ghost found = spec_lunar_month_search(lunar_year as int, ga, 12);
    let mut month: u32 = 12;
    loop
        invariant
            1 <= month <= 12,
            found <= month,
            spec_lunar_month_search(lunar_year as int, ga, month as int) == found,
        decreases month,
    {
        let base = lunar_abs(lunar_year, month, 1, false);
        if a >= base {
            let is_intercalation = leap_index(lunar_word(lunar_year)) == month && a >= lunar_abs(
                lunar_year,
                month,
                1,
                true,
            );
            let base2 = lunar_abs(lunar_year, month, 1, is_intercalation);
            proof {
                assert(month as int == found);
            }
            let day = (a - base2 + 1) as u32;
            return (lunar_year, month, day, is_intercalation);
        }
        proof {
            lemma_lunar_search_props(lunar_year as int, ga, month as int - 1);
        }
        month = month - 1;
    }
}

/// Reverse mapping of a valid lunar date to its civil side.
#[verifier::loop_isolation(false)]
fn solar_of_lunar(
    lunar_year: i32,
    lunar_month: u32,
    lunar_day: u32,
    is_intercalation: bool,
) -> (r: (u32, u32, u32))
    requires
        spec_check_valid(
            true,
            is_intercalation,
            lunar_year as int,
            lunar_month as int,
            lunar_day as int,
        ),
    ensures
        ({
            let a = spec_lunar_abs(
                lunar_year as int,
                lunar_month as int,
                lunar_day as int,
                is_intercalation,
            );
            let side = spec_solar_side_of_abs(lunar_year as int, a);
            &&& r.0 as int == side.solar_year
            &&& r.1 as int == side.solar_month
            &&& r.2 as int == side.solar_day
        }),
{
    proof {
        lemma_valid_lunar_bounds(
            is_intercalation,
            lunar_year as int,
            lunar_month as int,
            lunar_day as int,
        );
        lemma_lunar_to_solar(
            lunar_year as int,
            lunar_month as int,
            lunar_day as int,
            is_intercalation,
        );
    }
    let a = lunar_abs(lunar_year, lunar_month, lunar_day, is_intercalation);
    let ghost ga = a as int;
    let solar_year: i32 = if a < solar_abs(lunar_year + 1, 1, 1) {
        lunar_year
    } else {
        lunar_year + 1
    };
    let ghost found = spec_solar_month_search(solar_year as int, ga, 12);
    let mut month: u32 = 12;
    loop
        invariant
            1 <= month <= 12,
            found <= month,
            spec_solar_month_search(solar_year as int, ga, month as int) == found,
        decreases month,
    {
        let base = solar_abs(solar_year, month, 1);
        if a >= base {
            proof {
                assert(month as int == found);
            }
            let mut day = (a - base + 1) as u32;
            if solar_year == 1582 && month == 10 && day > 4 {
                day = day + 10;
            }
            return (solar_year as u32, month, day);
        }
        proof {
            lemma_solar_search_props(solar_year as int, ga, month as int - 1);
        }
        month = month - 1;
    }
}

impl LunarSolarConverter {
    #[verifier::type_invariant]
    spec fn wf(self) -> bool {
        spec_empty_view(self@) || spec_set_view(self@)
    }

    /// A fresh converter with no date set.
    pub fn new() -> (r: Self)
        ensures
            spec_empty_view(r@),
    {
        LunarSolarConverter {
            lunar_year: 0,
            lunar_month: 0,
            lunar_day: 0,
            is_intercalation: false,
            solar_year: 0,
            solar_month: 0,
            solar_day: 0,
            gapja_year_inx: None,
            gapja_month_inx: None,
            gapja_day_inx: None,
        }
    }

    /// Sets a civil date. When it validates, both sides of the state take the
    /// converted pair and `true` comes back; otherwise the state is unchanged
    /// and `false` comes back.
    pub fn set_solar_date(&mut self, solar_year: u32, solar_month: u32, solar_day: u32) -> (r:
        bool)
        ensures
            r == spec_check_valid(
                false,
                false,
                solar_year as int,
                solar_month as int,
                solar_day as int,
            ),
            r ==> ({
                let a = spec_solar_abs(solar_year as int, solar_month as int, solar_day as int);
                let side = spec_lunar_side_of_abs(solar_year as int, a);
                &&& final(self)@.solar_year == solar_year as int
                &&& final(self)@.solar_month == solar_month as int
                &&& final(self)@.solar_day == solar_day as int
                &&& final(self)@.lunar_year == side.lunar_year
                &&& final(self)@.lunar_month == side.lunar_month
                &&& final(self)@.lunar_day == side.lunar_day
                &&& final(self)@.is_intercalation == side.is_intercalation
            }),
            !r ==> *final(self) == *old(self),
{
        let valid = check_valid_date(
            false,
            false,
            solar_year as i64,
            solar_month,
            solar_day,
        );
        if valid {
            proof {
                lemma_solar_to_lunar(solar_year as int, solar_month as int, solar_day as int);
            }
            let (ly, lm, ld, ic) = lunar_of_solar(solar_year, solar_month, solar_day);
            *self = LunarSolarConverter {
                lunar_year: ly,
                lunar_month: lm,
                lunar_day: ld,
                is_intercalation: ic,
                solar_year,
                solar_month,
                solar_day,
                gapja_year_inx: None,
                gapja_month_inx: None,
                gapja_day_inx: None,
            };
            true
        } else {
            false
        }
    }

    /// Sets a lunar date. When it validates, both sides of the state take the
    /// converted pair and `true` comes back; otherwise the state is unchanged
    /// and `false` comes back.
    pub fn set_lunar_date(
        &mut self,
        lunar_year: i32,
        lunar_month: u32,
        lunar_day: u32,
        is_intercalation: bool,
    ) -> (r: bool)
        ensures
            r == spec_check_valid(
                true,
                is_intercalation,
                lunar_year as int,
                lunar_month as int,
                lunar_day as int,
            ),
            r ==> ({
                let a = spec_lunar_abs(
                    lunar_year as int,
                    lunar_month as int,
                    lunar_day as int,
                    is_intercalation,
                );
                let side = spec_solar_side_of_abs(lunar_year as int, a);
                &&& final(self)@.lunar_year == lunar_year as int
                &&& final(self)@.lunar_month == lunar_month as int
                &&& final(self)@.lunar_day == lunar_day as int
                &&& final(self)@.is_intercalation == is_intercalation
                &&& final(self)@.solar_year == side.solar_year
                &&& final(self)@.solar_month == side.solar_month
                &&& final(self)@.solar_day == side.solar_day
            }),
            !r ==> *final(self) == *old(self),
    {
        let valid = check_valid_date(
            true,
            is_intercalation,
            lunar_year as i64,
            lunar_month,
            lunar_day,
        );
        if valid {
            proof {
                lemma_valid_lunar_bounds(
                    is_intercalation,
                    lunar_year as int,
                    lunar_month as int,
                    lunar_day as int,
                );
                lemma_lunar_to_solar(
                    lunar_year as int,
                    lunar_month as int,
                    lunar_day as int,
                    is_intercalation,
                );
            }
            // under a valid date the flag already names the year's
            // intercalary month, so reconciling it keeps its value
            let reconciled = is_intercalation && leap_index(lunar_word(lunar_year)) == lunar_month;
            let (sy, sm, sd) = solar_of_lunar(lunar_year, lunar_month, lunar_day, reconciled);
            *self = LunarSolarConverter {
                lunar_year,
                lunar_month,
                lunar_day,
                is_intercalation: reconciled,
                solar_year: sy,
                solar_month: sm,
                solar_day: sd,
                gapja_year_inx: None,
                gapja_month_inx: None,
                gapja_day_inx: None,
            };
            true
        } else {
            false
        }
    }

    /// Length in days of a lunar month; zero for a year without a table word
    /// and for month numbers outside 1..=12.
    pub fn get_lunar_days(year: i32, month: u32, is_intercalation: bool) -> (r: u32)
        ensures
            r as int == crate::lunar::spec_lunar_month_len(
                year as int,
                month as int,
                is_intercalation,
            ),
    {
        lunar_month_len(year, month, is_intercalation)
    }

    /// Length in days of a civil month; zero before the base year or outside
    /// the month range.
    pub fn get_solar_days(year: i32, month: u32) -> (r: u32)
        ensures
            r as int == crate::solar::spec_solar_month_len(year as int, month as int),
    {
        solar_month_len(year, month)
    }

    /// Day index of a lunar date on the shared axis; zero before the base
    /// year.
    pub fn get_lunar_abs_days(year: i32, month: u32, day: u32, is_intercalation: bool) -> (r: i64)
        ensures
            r == spec_lunar_abs(year as int, month as int, day as int, is_intercalation),
    {
        lunar_abs(year, month, day, is_intercalation)
    }

    /// Day index of a civil date on the shared axis; zero before the base
    /// year.
    pub fn get_solar_abs_days(year: i32, month: u32, day: u32) -> (r: i64)
        ensures
            r == spec_solar_abs(year as int, month as int, day as int),
    {
        solar_abs(year, month, day)
    }

    /// Intercalary month of a lunar year in the covered range, when it has
    /// one.
    pub fn get_lunar_intercalary_month(year: i32) -> (r: Option<u32>)
        ensures
            ({
                let li = spec_leap_index(spec_lunar_word(year as int));
                if 1391 <= year <= 2050 && li > 0 {
                    r == Some(li as u32)
                } else {
                    r == None::<u32>
                }
            }),
    {
        if year < 1391 || year > 2050 {
            return None;
        }
        let li = leap_index(lunar_word(year));
        if li > 0 {
            Some(li)
        } else {
            None
        }
    }


    /// ISO rendering of the stored lunar date, tagged when it is the
    /// intercalary month.
    pub fn get_lunar_iso_format(&self) -> (r: String)
        ensures
            r@ == crate::text::spec_iso_date(self@.lunar_year, self@.lunar_month, self@.lunar_day)
                + if self@.is_intercalation {
                crate::text::spec_intercalation_suffix()
            } else {
                Seq::<char>::empty()
            },
    {
        proof {
            use_type_invariant(&*self);
        }
        let mut s = crate::text::iso_date_chars(
            self.lunar_year as u32,
            self.lunar_month,
            self.lunar_day,
        );
        if self.is_intercalation {
            crate::text::push_intercalation_suffix(&mut s);
        }
        proof {
            assert(s@ =~= crate::text::spec_iso_date(
                self@.lunar_year,
                self@.lunar_month,
                self@.lunar_day,
            ) + if self@.is_intercalation {
                crate::text::spec_intercalation_suffix()
            } else {
                Seq::<char>::empty()
            });
        }
        s
    }

    /// ISO rendering of the stored civil date.
    pub fn get_solar_iso_format(&self) -> (r: String)
        ensures
            r@ == crate::text::spec_iso_date(self@.solar_year, self@.solar_month, self@.solar_day),
    {
        proof {
            use_type_invariant(&*self);
        }
        crate::text::iso_date_chars(self.solar_year, self.solar_month, self.solar_day)
    }

    /// Sexagenary string of the stored lunar date, hangul; empty when no
    /// date is set. Caches the computed index pairs.
    pub fn get_gapja_string(&mut self) -> (r: String)
        ensures
            r@ == crate::text::spec_gapja_chars(
                old(self)@.lunar_year,
                old(self)@.lunar_month,
                old(self)@.lunar_day,
                old(self)@.is_intercalation,
                false,
            ),
            final(self)@ == old(self)@,
    {
        proof {
            use_type_invariant(&*self);
        }
        let (s, year_inx, month_inx, day_inx) = crate::text::gapja_chars(
            self.lunar_year,
            self.lunar_month,
            self.lunar_day,
            self.is_intercalation,
            false,
        );
        self.gapja_year_inx = year_inx;
        self.gapja_month_inx = month_inx;
        self.gapja_day_inx = day_inx;
        s
    }

    /// Sexagenary string of the stored lunar date, hanzi; empty when no date
    /// is set. Caches the computed index pairs.
    pub fn get_chinese_gapja_string(&mut self) -> (r: String)
        ensures
            r@ == crate::text::spec_gapja_chars(
                old(self)@.lunar_year,
                old(self)@.lunar_month,
                old(self)@.lunar_day,
                old(self)@.is_intercalation,
                true,
            ),
            final(self)@ == old(self)@,
    {
        proof {
            use_type_invariant(&*self);
        }
        let (s, year_inx, month_inx, day_inx) = crate::text::gapja_chars(
            self.lunar_year,
            self.lunar_month,
            self.lunar_day,
            self.is_intercalation,
            true,
        );
        self.gapja_year_inx = year_inx;
        self.gapja_month_inx = month_inx;
        self.gapja_day_inx = day_inx;
        s
    }

    /// Julian Day Number of a civil date; absent on the removed reform days
    /// and on month or day numbers outside the calendar's shape.
    pub fn get_julian_day_number(year: u32, month: u32, day: u32) -> (r: Option<u32>)
        ensures
            r is Some <==> !crate::jdn::spec_jdn_rejected(year as int, month as int, day as int),
            r is Some ==> 0 <= crate::jdn::spec_jdn(year as int, month as int, day as int),
            r is Some ==> r.unwrap() == crate::jdn::spec_jdn(
                year as int,
                month as int,
                day as int,
            ) % 0x1_0000_0000,
            (r is Some && crate::jdn::spec_jdn(year as int, month as int, day as int) <= u32::MAX)
                ==> r.unwrap() == crate::jdn::spec_jdn(year as int, month as int, day as int),
    {
        crate::jdn::get_julian_day_number(year, month, day)
    }

    /// Day of the week of a civil date: the weekday of the JDN the sibling
    /// function returns. Absent exactly where the JDN is.
    pub fn get_day_of_week(year: u32, month: u32, day: u32) -> (r: Option<crate::jdn::DayOfWeek>)
        ensures
            r is Some <==> !crate::jdn::spec_jdn_rejected(year as int, month as int, day as int),
            r is Some ==> r.unwrap() == crate::jdn::spec_day_of_week(
                crate::jdn::spec_jdn(year as int, month as int, day as int) % 0x1_0000_0000,
            ),
            (r is Some && crate::jdn::spec_jdn(year as int, month as int, day as int) <= u32::MAX)
                ==> r.unwrap() == crate::jdn::spec_day_of_week(
                crate::jdn::spec_jdn(year as int, month as int, day as int),
            ),
    {
        crate::jdn::get_day_of_week(year, month, day)
    }

    /// Leap rule of the civil calendar: Julian up to and including 1582,
    /// Gregorian after.
    pub fn is_solar_leap_year(year: u32) -> (r: bool)
        ensures
            r == crate::solar::spec_is_gregorian_leap(year as int),
    {
        if year <= 1582 {
            year % 4 == 0
        } else {
            (year % 4 == 0 && year % 100 != 0) || year % 400 == 0
        }
    }

    pub fn solar_year(&self) -> (r: u32)
        ensures
            r as int == self@.solar_year,
    {
        self.solar_year
    }

    pub fn solar_month(&self) -> (r: u32)
        ensures
            r as int == self@.solar_month,
    {
        self.solar_month
    }

    pub fn solar_day(&self) -> (r: u32)
        ensures
            r as int == self@.solar_day,
    {
        self.solar_day
    }

    pub fn lunar_year(&self) -> (r: i32)
        ensures
            r as int == self@.lunar_year,
    {
        self.lunar_year
    }

    pub fn lunar_month(&self) -> (r: u32)
        ensures
            r as int == self@.lunar_month,
    {
        self.lunar_month
    }

    pub fn lunar_day(&self) -> (r: u32)
        ensures
            r as int == self@.lunar_day,
    {
        self.lunar_day
    }

    pub fn is_intercalation(&self) -> (r: bool)
        ensures
            r == self@.is_intercalation,
    {
        self.is_intercalation
    }
}

} // verus!
