use vstd::prelude::*;
use crate::lunar::spec_lunar_abs;

verus! {

/// Relies on String::push: appends the one character to the string.
pub assume_specification[ String::push ](s: &mut String, c: char)
    ensures
        final(s)@ == old(s)@.push(c),
;

pub open spec fn spec_digit(d: int) -> char {
    if d == 0 {
        '0'
    } else if d == 1 {
        '1'
    } else if d == 2 {
        '2'
    } else if d == 3 {
        '3'
    } else if d == 4 {
        '4'
    } else if d == 5 {
        '5'
    } else if d == 6 {
        '6'
    } else if d == 7 {
        '7'
    } else if d == 8 {
        '8'
    } else {
        '9'
    }
}

fn digit(d: u32) -> (r: char)
    requires
        d <= 9,
    ensures
        r == spec_digit(d as int),
{
    match d {
        0 => '0',
        1 => '1',
        2 => '2',
        3 => '3',
        4 => '4',
        5 => '5',
        6 => '6',
        7 => '7',
        8 => '8',
        _ => '9',
    }
}

/// A number of at most four digits, zero-padded to width four.
pub open spec fn spec_four_digits(n: int) -> Seq<char> {
    seq![
        spec_digit(n / 1000 % 10),
        spec_digit(n / 100 % 10),
        spec_digit(n / 10 % 10),
        spec_digit(n % 10),
    ]
}

/// A number of at most two digits, zero-padded to width two.
pub open spec fn spec_two_digits(n: int) -> Seq<char> {
    seq![spec_digit(n / 10 % 10), spec_digit(n % 10)]
}

/// A date as `YYYY-MM-DD`, zero-padded.
pub open spec fn spec_iso_date(year: int, month: int, day: int) -> Seq<char> {
    spec_four_digits(year) + seq!['-'] + spec_two_digits(month) + seq!['-'] + spec_two_digits(day)
}

/// The ISO-like rendering of a date, `YYYY-MM-DD`.
pub fn iso_date_chars(year: u32, month: u32, day: u32) -> (r: String)
    requires
        year <= 9999,
        month <= 99,
        day <= 99,
    ensures
        r@ == spec_iso_date(year as int, month as int, day as int),
{
    let mut s = String::new();
    s.push(digit(year / 1000 % 10));
    s.push(digit(year / 100 % 10));
    s.push(digit(year / 10 % 10));
    s.push(digit(year % 10));
    s.push('-');
    s.push(digit(month / 10 % 10));
    s.push(digit(month % 10));
    s.push('-');
    s.push(digit(day / 10 % 10));
    s.push(digit(day % 10));
    proof {
        assert(s@ =~= spec_iso_date(year as int, month as int, day as int));
    }
    s
}

/// The literal appended to a lunar ISO date that names an intercalary month.
pub open spec fn spec_intercalation_suffix() -> Seq<char> {
    seq![' ', 'I', 'n', 't', 'e', 'r', 'c', 'a', 'l', 'a', 't', 'i', 'o', 'n']
}

/// Appends the intercalation suffix.
pub fn push_intercalation_suffix(s: &mut String)
    ensures
        final(s)@ == old(s)@ + spec_intercalation_suffix(),
{
    s.push(' ');
    s.push('I');
    s.push('n');
    s.push('t');
    s.push('e');
    s.push('r');
    s.push('c');
    s.push('a');
    s.push('l');
    s.push('a');
    s.push('t');
    s.push('i');
    s.push('o');
    s.push('n');
    proof {
        assert(final(s)@ =~= old(s)@ + spec_intercalation_suffix());
    }
}

// ----- the sexagenary cycle -----

/// The ten heavenly stems, hangul.
pub open spec fn spec_korean_stem(i: int) -> char {
    if i == 0 {
        '\u{ac11}'
    } else if i == 1 {
        '\u{c744}'
    } else if i == 2 {
        '\u{bcd1}'
    } else if i == 3 {
        '\u{c815}'
    } else if i == 4 {
        '\u{bb34}'
    } else if i == 5 {
        '\u{ae30}'
    } else if i == 6 {
        '\u{acbd}'
    } else if i == 7 {
        '\u{c2e0}'
    } else if i == 8 {
        '\u{c784}'
    } else {
        '\u{acc4}'
    }
}

fn korean_stem(i: u32) -> (r: char)
    requires
        i <= 9,
    ensures
        r == spec_korean_stem(i as int),
{
    match i {
        0 => '\u{ac11}',
        1 => '\u{c744}',
        2 => '\u{bcd1}',
        3 => '\u{c815}',
        4 => '\u{bb34}',
        5 => '\u{ae30}',
        6 => '\u{acbd}',
        7 => '\u{c2e0}',
        8 => '\u{c784}',
        _ => '\u{acc4}',
    }
}

/// The twelve earthly branches, hangul.
pub open spec fn spec_korean_branch(i: int) -> char {
    if i == 0 {
        '\u{c790}'
    } else if i == 1 {
        '\u{cd95}'
    } else if i == 2 {
        '\u{c778}'
    } else if i == 3 {
        '\u{bb18}'
    } else if i == 4 {
        '\u{c9c4}'
    } else if i == 5 {
        '\u{c0ac}'
    } else if i == 6 {
        '\u{c624}'
    } else if i == 7 {
        '\u{bbf8}'
    } else if i == 8 {
        '\u{c2e0}'
    } else if i == 9 {
        '\u{c720}'
    } else if i == 10 {
        '\u{c220}'
    } else {
        '\u{d574}'
    }
}

fn korean_branch(i: u32) -> (r: char)
    requires
        i <= 11,
    ensures
        r == spec_korean_branch(i as int),
{
    match i {
        0 => '\u{c790}',
        1 => '\u{cd95}',
        2 => '\u{c778}',
        3 => '\u{bb18}',
        4 => '\u{c9c4}',
        5 => '\u{c0ac}',
        6 => '\u{c624}',
        7 => '\u{bbf8}',
        8 => '\u{c2e0}',
        9 => '\u{c720}',
        10 => '\u{c220}',
        _ => '\u{d574}',
    }
}

/// The ten heavenly stems, hanzi.
pub open spec fn spec_chinese_stem(i: int) -> char {
    if i == 0 {
        '\u{7532}'
    } else if i == 1 {
        '\u{4e59}'
    } else if i == 2 {
        '\u{4e19}'
    } else if i == 3 {
        '\u{4e01}'
    } else if i == 4 {
        '\u{620a}'
    } else if i == 5 {
        '\u{5df1}'
    } else if i == 6 {
        '\u{5e9a}'
    } else if i == 7 {
        '\u{8f9b}'
    } else if i == 8 {
        '\u{58ec}'
    } else {
        '\u{7678}'
    }
}

fn chinese_stem(i: u32) -> (r: char)
    requires
        i <= 9,
    ensures
        r == spec_chinese_stem(i as int),
{
    match i {
        0 => '\u{7532}',
        1 => '\u{4e59}',
        2 => '\u{4e19}',
        3 => '\u{4e01}',
        4 => '\u{620a}',
        5 => '\u{5df1}',
        6 => '\u{5e9a}',
        7 => '\u{8f9b}',
        8 => '\u{58ec}',
        _ => '\u{7678}',
    }
}

/// The twelve earthly branches, hanzi.
pub open spec fn spec_chinese_branch(i: int) -> char {
    if i == 0 {
        '\u{5b50}'
    } else if i == 1 {
        '\u{4e11}'
    } else if i == 2 {
        '\u{5bc5}'
    } else if i == 3 {
        '\u{536f}'
    } else if i == 4 {
        '\u{8fb0}'
    } else if i == 5 {
        '\u{5df3}'
    } else if i == 6 {
        '\u{5348}'
    } else if i == 7 {
        '\u{672a}'
    } else if i == 8 {
        '\u{7533}'
    } else if i == 9 {
        '\u{9149}'
    } else if i == 10 {
        '\u{620c}'
    } else {
        '\u{4ea5}'
    }
}

fn chinese_branch(i: u32) -> (r: char)
    requires
        i <= 11,
    ensures
        r == spec_chinese_branch(i as int),
{
    match i {
        0 => '\u{5b50}',
        1 => '\u{4e11}',
        2 => '\u{5bc5}',
        3 => '\u{536f}',
        4 => '\u{8fb0}',
        5 => '\u{5df3}',
        6 => '\u{5348}',
        7 => '\u{672a}',
        8 => '\u{7533}',
        9 => '\u{9149}',
        10 => '\u{620c}',
        _ => '\u{4ea5}',
    }
}

/// Sexagenary indices: stems cycle through ten slots, branches through
/// twelve. The year pair comes from the lunar year, the month pair from the
/// months elapsed since the base year, the day pair from the day index.
pub open spec fn spec_year_stem_index(lunar_year: int) -> int {
    (lunar_year + 7 - 1391) % 10
}

pub open spec fn spec_year_branch_index(lunar_year: int) -> int {
    (lunar_year + 7 - 1391) % 12
}

pub open spec fn spec_month_count(lunar_year: int, lunar_month: int) -> int {
    lunar_month + 12 * (lunar_year - 1391)
}

pub open spec fn spec_month_stem_index(lunar_year: int, lunar_month: int) -> int {
    (spec_month_count(lunar_year, lunar_month) + 5) % 10
}

pub open spec fn spec_month_branch_index(lunar_year: int, lunar_month: int) -> int {
    (spec_month_count(lunar_year, lunar_month) + 1) % 12
}

pub open spec fn spec_day_stem_index(abs: int) -> int {
    (abs + 4) % 10
}

pub open spec fn spec_day_branch_index(abs: int) -> int {
    abs % 12
}

/// The sexagenary string of a stored lunar date, in either alphabet: the
/// year, month and day pairs with their unit suffixes, and the intercalation
/// marker when the date is intercalary. A date off the axis renders as the
/// empty string.
pub open spec fn spec_gapja_chars(
    lunar_year: int,
    lunar_month: int,
    lunar_day: int,
    is_intercalation: bool,
    hanzi: bool,
) -> Seq<char> {
    let abs = spec_lunar_abs(lunar_year, lunar_month, lunar_day, is_intercalation);
    if abs > 0 {
        (if hanzi {
            seq![
                spec_chinese_stem(spec_year_stem_index(lunar_year)),
                spec_chinese_branch(spec_year_branch_index(lunar_year)),
                '\u{5e74}',
                ' ',
                spec_chinese_stem(spec_month_stem_index(lunar_year, lunar_month)),
                spec_chinese_branch(spec_month_branch_index(lunar_year, lunar_month)),
                '\u{6708}',
                ' ',
                spec_chinese_stem(spec_day_stem_index(abs)),
                spec_chinese_branch(spec_day_branch_index(abs)),
                '\u{65e5}',
            ]
        } else {
            seq![
                spec_korean_stem(spec_year_stem_index(lunar_year)),
                spec_korean_branch(spec_year_branch_index(lunar_year)),
                '\u{b144}',
                ' ',
                spec_korean_stem(spec_month_stem_index(lunar_year, lunar_month)),
                spec_korean_branch(spec_month_branch_index(lunar_year, lunar_month)),
                '\u{c6d4}',
                ' ',
                spec_korean_stem(spec_day_stem_index(abs)),
                spec_korean_branch(spec_day_branch_index(abs)),
                '\u{c77c}',
            ]
        }) + if is_intercalation {
            if hanzi {
                seq![' ', '(', '\u{958f}', '\u{6708}', ')']
            } else {
                seq![' ', '(', '\u{c724}', '\u{c6d4}', ')']
            }
        } else {
            Seq::empty()
        }
    } else {
        Seq::empty()
    }
}

/// Builds the sexagenary string of a stored lunar date. Returns the cached
/// (stem, branch) index pairs of the year, month and day as well, absent when
/// the date renders empty.
#[verifier::rlimit(50)]
pub fn gapja_chars(lunar_year: i32, lunar_month: u32, lunar_day: u32, is_intercalation: bool, hanzi: bool) -> (r: (
    String,
    Option<(usize, usize)>,
    Option<(usize, usize)>,
    Option<(usize, usize)>,
))
    requires
        lunar_year <= 2050,
        1 <= lunar_month <= 12 || (lunar_year as int) < 1391,
    ensures
        r.0@ == spec_gapja_chars(
            lunar_year as int,
            lunar_month as int,
            lunar_day as int,
            is_intercalation,
            hanzi,
        ),
        ({
            let abs = spec_lunar_abs(
                lunar_year as int,
                lunar_month as int,
                lunar_day as int,
                is_intercalation,
            );
            if abs > 0 {
                &&& r.1 == Some(
                    (
                        spec_year_stem_index(lunar_year as int) as usize,
                        spec_year_branch_index(lunar_year as int) as usize,
                    ),
                )
                &&& r.2 == Some(
                    (
                        spec_month_stem_index(lunar_year as int, lunar_month as int) as usize,
                        spec_month_branch_index(lunar_year as int, lunar_month as int) as usize,
                    ),
                )
                &&& r.3 == Some(
                    (spec_day_stem_index(abs) as usize, spec_day_branch_index(abs) as usize),
                )
            } else {
                &&& r.1 == None::<(usize, usize)>
                &&& r.2 == None::<(usize, usize)>
                &&& r.3 == None::<(usize, usize)>
            }
        }),
{
    let abs = crate::lunar::lunar_abs(lunar_year, lunar_month, lunar_day, is_intercalation);
    if abs <= 0 {
        return (String::new(), None, None, None);
    }
    let ghost gabs = abs as int;
    assert(lunar_year >= 1391);
    proof {
        crate::lunar::lemma_lunar_days_before_year_bounds(lunar_year as int);
        crate::lunar::lemma_lunar_months_walk_bounds(lunar_year as int, lunar_month as int);
    }
    let year_stem: u32 = ((lunar_year - 1391 + 7) % 10) as u32;
    let year_branch: u32 = ((lunar_year - 1391 + 7) % 12) as u32;
    let month_count: u32 = lunar_month + 12 * ((lunar_year - 1391) as u32);
    let month_stem: u32 = (month_count + 5) % 10;
    let month_branch: u32 = (month_count + 1) % 12;
    let day_stem: u32 = ((abs + 4) % 10) as u32;
    let day_branch: u32 = (abs % 12) as u32;
    let mut s = String::new();
    if hanzi {
        s.push(chinese_stem(year_stem));
        s.push(chinese_branch(year_branch));
        s.push('\u{5e74}');
        s.push(' ');
        s.push(chinese_stem(month_stem));
        s.push(chinese_branch(month_branch));
        s.push('\u{6708}');
        s.push(' ');
        s.push(chinese_stem(day_stem));
        s.push(chinese_branch(day_branch));
        s.push('\u{65e5}');
        if is_intercalation {
            s.push(' ');
            s.push('(');
            s.push('\u{958f}');
            s.push('\u{6708}');
            s.push(')');
        }
    } else {
        s.push(korean_stem(year_stem));
        s.push(korean_branch(year_branch));
        s.push('\u{b144}');
        s.push(' ');
        s.push(korean_stem(month_stem));
        s.push(korean_branch(month_branch));
        s.push('\u{c6d4}');
        s.push(' ');
        s.push(korean_stem(day_stem));
        s.push(korean_branch(day_branch));
        s.push('\u{c77c}');
        if is_intercalation {
            s.push(' ');
            s.push('(');
            s.push('\u{c724}');
            s.push('\u{c6d4}');
            s.push(')');
        }
    }
    proof {
        assert(s@ =~= spec_gapja_chars(
            lunar_year as int,
            lunar_month as int,
            lunar_day as int,
            is_intercalation,
            hanzi,
        ));
    }
    (
        s,
        Some((year_stem as usize, year_branch as usize)),
        Some((month_stem as usize, month_branch as usize)),
        Some((day_stem as usize, day_branch as usize)),
    )
}

} // verus!
