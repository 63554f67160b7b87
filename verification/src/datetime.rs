//! Parsing of the board's date text, `YYYY.MM.DD. HH:MM`, and its
//! conversion from the board's fixed UTC+9 local time to an absolute
//! instant, counted in seconds from the Unix epoch.

use vstd::prelude::*;
use vstd::string::*;
use crate::num::{all_digits, digits_val, parse_digits_range};

verus! {

/// Seconds by which the board's local time runs ahead of UTC.
pub const KST_OFFSET_SECONDS: i64 = 32400;

/// A leap year of the proleptic Gregorian calendar.
pub open spec fn is_leap_year(y: int) -> bool {
    (y % 4 == 0 && y % 100 != 0) || y % 400 == 0
}

/// The number of days in the given month of the given year.
pub open spec fn days_in_month(y: int, m: int) -> int
    recommends
        1 <= m <= 12,
{
    if m == 2 {
        if is_leap_year(y) {
            29
        } else {
            28
        }
    } else if m == 4 || m == 6 || m == 9 || m == 11 {
        30
    } else {
        31
    }
}

/// Days between the given civil date and 1970-01-01, negative for
/// earlier dates. Defined for years 0 through 9999 by the era-based
/// civil-calendar computation, with the year shifted one 400-year era
/// up so every intermediate value stays non-negative.
pub open spec fn days_from_epoch(y: int, m: int, d: int) -> int
    recommends
        0 <= y <= 9999,
        1 <= m <= 12,
        1 <= d <= days_in_month(y, m),
{
    let yy = if m <= 2 {
        y + 399
    } else {
        y + 400
    };
    let era = yy / 400;
    let yoe = yy % 400;
    let mp = if m > 2 {
        m - 3
    } else {
        m + 9
    };
    let doy = (153 * mp + 2) / 5 + d - 1;
    let doe = yoe * 365 + yoe / 4 - yoe / 100 + doy;
    era * 146097 + doe - 865565
}

/// The instant, in seconds from the Unix epoch, at which the given
/// civil date and time occur in the board's UTC+9 local clock.
pub open spec fn kst_instant(y: int, m: int, d: int, h: int, mi: int) -> int {
    days_from_epoch(y, m, d) * 86400 + h * 3600 + mi * 60 - KST_OFFSET_SECONDS
}

/// The field ranges a civil date and time must satisfy, day checked
/// against the month's true length.
pub open spec fn valid_civil(y: int, m: int, d: int, h: int, mi: int) -> bool {
    &&& 0 <= y <= 9999
    &&& 1 <= m <= 12
    &&& 1 <= d <= days_in_month(y, m)
    &&& 0 <= h <= 23
    &&& 0 <= mi <= 59
}

/// The fixed layout `YYYY.MM.DD. HH:MM`: seventeen characters, digit
/// runs of four and twos, separated by dots, a space and a colon.
pub open spec fn date_text_wellformed(s: Seq<char>) -> bool {
    &&& s.len() == 17
    &&& all_digits(s.subrange(0, 4))
    &&& s[4] == '.'
    &&& all_digits(s.subrange(5, 7))
    &&& s[7] == '.'
    &&& all_digits(s.subrange(8, 10))
    &&& s[10] == '.'
    &&& s[11] == ' '
    &&& all_digits(s.subrange(12, 14))
    &&& s[14] == ':'
    &&& all_digits(s.subrange(15, 17))
}

/// The instant a detail page's date text denotes: `Some` exactly when
/// the text has the fixed layout and its fields form a real calendar
/// date and time, read at UTC+9.
pub open spec fn board_instant_of(s: Seq<char>) -> Option<int> {
    if date_text_wellformed(s) {
        let y = digits_val(s.subrange(0, 4));
        let m = digits_val(s.subrange(5, 7));
        let d = digits_val(s.subrange(8, 10));
        let h = digits_val(s.subrange(12, 14));
        let mi = digits_val(s.subrange(15, 17));
        if valid_civil(y, m, d, h, mi) {
            Some(kst_instant(y, m, d, h, mi))
        } else {
            None
        }
    } else {
        None
    }
}

/// Decides the month length of the civil calendar.
pub fn days_in_month_exec(y: u32, m: u32) -> (r: u32)
    requires
        1 <= m <= 12,
    ensures
        r as int == days_in_month(y as int, m as int),
{
    if m == 2 {
        if (y % 4 == 0 && y % 100 != 0) || y % 400 == 0 {
            29
        } else {
            28
        }
    } else if m == 4 || m == 6 || m == 9 || m == 11 {
        30
    } else {
        31
    }
}

/// Computes the UTC instant of a valid civil date and time read at the
/// board's fixed UTC+9 offset.
pub fn kst_instant_exec(y: u32, m: u32, d: u32, h: u32, mi: u32) -> (r: i64)
    requires
        valid_civil(y as int, m as int, d as int, h as int, mi as int),
    ensures
        r as int == kst_instant(y as int, m as int, d as int, h as int, mi as int),
{
    let yy: u64 = (y as u64) + (if m <= 2 {
        399
    } else {
        400
    });
    let era: u64 = yy / 400;
    let yoe: u64 = yy % 400;
    proof {
        assert(era <= 25 && yoe < 400) by (nonlinear_arith)
            requires
                era == yy / 400,
                yoe == yy % 400,
                yy <= 10399,
        ;
    }
    let mp: u64 = if m > 2 {
        (m - 3) as u64
    } else {
        (m + 9) as u64
    };
    let doy: u64 = (153 * mp + 2) / 5 + (d as u64) - 1;
    let doe: u64 = yoe * 365 + yoe / 4 - yoe / 100 + doy;
    proof {
        assert(yoe / 100 <= yoe / 4 && yoe / 4 <= yoe && yoe * 365 <= 146000) by (nonlinear_arith)
            requires
                yoe < 400,
        ;
    }
    let days: i64 = (era * 146097 + doe) as i64 - 865565;
    days * 86400 + (h as i64) * 3600 + (mi as i64) * 60 - KST_OFFSET_SECONDS
}

/// Parses a detail page's date text against the fixed pattern
/// `YYYY.MM.DD. HH:MM` and returns the absolute instant it denotes,
/// the UTC+9 source offset already subtracted. `None` exactly when the
/// text does not match the pattern or names no real date or time.
pub fn parse_board_datetime(s: &str) -> (r: Option<i64>)
    ensures
        match board_instant_of(s@) {
            Some(t) => r matches Some(v) && v as int == t,
            None => r is None,
        },
{
    let n = s.unicode_len();
    if n != 17 {
        return None;
    }
    if s.get_char(4) != '.' || s.get_char(7) != '.' || s.get_char(10) != '.' || s.get_char(11)
        != ' ' || s.get_char(14) != ':' {
        return None;
    }
    let y = match parse_digits_range(s, 0, 4) {
        Some(v) => v,
        None => {
            return None;
        },
    };
    let m = match parse_digits_range(s, 5, 7) {
        Some(v) => v,
        None => {
            return None;
        },
    };
    let d = match parse_digits_range(s, 8, 10) {
        Some(v) => v,
        None => {
            return None;
        },
    };
    let h = match parse_digits_range(s, 12, 14) {
        Some(v) => v,
        None => {
            return None;
        },
    };
    let mi = match parse_digits_range(s, 15, 17) {
        Some(v) => v,
        None => {
            return None;
        },
    };
    proof {
        crate::num::lemma_digits_val_upper(s@.subrange(0, 4));
        assert(crate::num::pow10(0nat) == 1);
        assert(crate::num::pow10(1nat) == 10);
        assert(crate::num::pow10(2nat) == 100);
        assert(crate::num::pow10(3nat) == 1000);
        assert(crate::num::pow10(4nat) == 10000);
    }
    if !(1 <= m && m <= 12) {
        return None;
    }
    let dim = days_in_month_exec(y, m);
    if !(1 <= d && d <= dim) {
        return None;
    }
    if !(h <= 23 && mi <= 59) {
        return None;
    }
    Some(kst_instant_exec(y, m, d, h, mi))
}

} // verus!
