//! Calendar dates as plain values: parsing, formatting, weekday arithmetic
//! and business-day counting, over the proleptic Gregorian calendar.
//!
//! Functions that need to know what day it is take `today` as a parameter;
//! only the surrounding binary consults the clock.

use vstd::prelude::*;
use crate::text::{push_char, dec_digits, digit_char};

verus! {

broadcast use vstd::std_specs::vec::group_vec_axioms, vstd::seq::group_seq_axioms;

/// A calendar date.
#[derive(PartialEq, Eq, Structural, Clone, Copy, Debug)]
pub struct Date {
    pub year: i32,
    pub month: u8,
    pub day: u8,
}

/// A leap year: divisible by four, except centuries off the quadricentennial.
pub open spec fn is_leap(y: int) -> bool {
    y % 4 == 0 && (y % 100 != 0 || y % 400 == 0)
}

/// The length of a month.
pub open spec fn days_in_month(y: int, m: int) -> int {
    if m == 2 {
        if is_leap(y) {
            29
        } else {
            28
        }
    } else if m == 4 || m == 6 || m == 9 || m == 11 {
        30
    } else {
        31
    }
}

/// A representable date: years with four digits, real month and day.
pub open spec fn date_valid(d: Date) -> bool {
    &&& 1 <= d.year <= 9999
    &&& 1 <= d.month <= 12
    &&& 1 <= d.day <= days_in_month(d.year as int, d.month as int)
}

/// The days of the months before month `m` in a common year.
pub open spec fn days_before_month_common(m: int) -> int {
    if m <= 1 {
        0
    } else if m == 2 {
        31
    } else if m == 3 {
        59
    } else if m == 4 {
        90
    } else if m == 5 {
        120
    } else if m == 6 {
        151
    } else if m == 7 {
        181
    } else if m == 8 {
        212
    } else if m == 9 {
        243
    } else if m == 10 {
        273
    } else if m == 11 {
        304
    } else {
        334
    }
}

/// The days of the months before month `m` of year `y`.
pub open spec fn days_before_month(y: int, m: int) -> int {
    days_before_month_common(m) + (if m > 2 && is_leap(y) {
        1int
    } else {
        0int
    })
}

/// The days of all years before year `y`.
pub open spec fn days_before_year(y: int) -> int {
    365 * (y - 1) + (y - 1) / 4 - (y - 1) / 100 + (y - 1) / 400
}

/// The ordinal day number of a date; the first of January of year one is
/// day one, and day numbers advance one per calendar day.
pub open spec fn day_number(d: Date) -> int {
    days_before_year(d.year as int) + days_before_month(d.year as int, d.month as int)
        + d.day as int
}

/// The weekday as days from Monday (0 is Monday, 6 is Sunday); the first of
/// January of year one is a Monday.
pub open spec fn days_from_monday(d: Date) -> int {
    (day_number(d) - 1) % 7
}

/// A business day falls on Monday through Friday.
pub open spec fn spec_is_business_day(d: Date) -> bool {
    days_from_monday(d) < 5
}

impl Date {
    /// A date from its parts, when they name a real calendar day.
    pub fn new(year: i32, month: u32, day: u32) -> (r: Option<Date>)
        ensures
            match r {
                Some(d) => date_valid(d) && d.year == year && d.month == month && d.day == day,
                None => !(1 <= year <= 9999 && 1 <= month <= 12 && 1 <= day && day <= days_in_month(
                    year as int,
                    month as int,
                )),
            },
    {
        if !(1 <= year && year <= 9999) {
            return None;
        }
        if !(1 <= month && month <= 12) {
            return None;
        }
        let dim = days_in_month_exec(year, month as u8);
        if !(1 <= day && day <= dim as u32) {
            return None;
        }
        Some(Date { year, month: month as u8, day: day as u8 })
    }
}

/// The length of a month.
#[verifier::rlimit(100)]
pub fn days_in_month_exec(y: i32, m: u8) -> (r: u8)
    requires
        y >= 1,
    ensures
        r as int == days_in_month(y as int, m as int),
{
    if m == 2 {
        if (y % 4 == 0) && (y % 100 != 0 || y % 400 == 0) {
            29
        } else {
            28
        }
    } else if m == 4 || m == 6 || m == 9 || m == 11 {
        30
    } else {
        31
    }
}

/// The ordinal day number.
pub fn day_number_exec(d: Date) -> (r: i64)
    requires
        date_valid(d),
    ensures
        r as int == day_number(d),
{
    let y = (d.year - 1) as i64;
    let before_year = 365 * y + y / 4 - y / 100 + y / 400;
    let before_month: i64 = match d.month {
        1 => 0,
        2 => 31,
        3 => 59,
        4 => 90,
        5 => 120,
        6 => 151,
        7 => 181,
        8 => 212,
        9 => 243,
        10 => 273,
        11 => 304,
        _ => 334,
    };
    let leap_fix: i64 = if d.month > 2 && (d.year % 4 == 0) && (d.year % 100 != 0 || d.year % 400
        == 0) {
        1
    } else {
        0
    };
    before_year + before_month + leap_fix + d.day as i64
}

/// The weekday, as days from Monday.
pub fn days_from_monday_exec(d: Date) -> (r: u8)
    requires
        date_valid(d),
    ensures
        r as int == days_from_monday(d),
        r < 7,
{
    let dn = day_number_exec(d);
    ((dn - 1) % 7) as u8
}

/// A business day falls on Monday through Friday.
pub fn is_business_day(d: Date) -> (r: bool)
    requires
        date_valid(d),
    ensures
        r == spec_is_business_day(d),
{
    days_from_monday_exec(d) < 5
}

/// A weekend day is exactly a day that is no business day.
pub fn is_weekend(d: Date) -> (r: bool)
    requires
        date_valid(d),
    ensures
        r == !spec_is_business_day(d),
{
    !is_business_day(d)
}

/// The next calendar day.
pub open spec fn spec_succ(d: Date) -> Date {
    if (d.day as int) < days_in_month(d.year as int, d.month as int) {
        Date { day: (d.day + 1) as u8, ..d }
    } else if d.month < 12 {
        Date { month: (d.month + 1) as u8, day: 1, ..d }
    } else {
        Date { year: (d.year + 1) as i32, month: 1, day: 1 }
    }
}

/// Stepping to the next day advances the day number by exactly one.
#[verifier::rlimit(100)]
#[verifier::spinoff_prover]
pub proof fn lemma_succ_day_number(d: Date)
    requires
        date_valid(d),
        d.year < 9999 || !(d.month == 12 && d.day == 31),
    ensures
        date_valid(spec_succ(d)),
        day_number(spec_succ(d)) == day_number(d) + 1,
{
    let y = d.year as int;
    if (d.day as int) < days_in_month(y, d.month as int) {
    } else if d.month < 12 {
    } else {
        assert(days_before_year(y + 1) == days_before_year(y) + (if is_leap(y) {
            366int
        } else {
            365int
        })) by {
            assert(y / 4 - (y - 1) / 4 == (if y % 4 == 0 {
                1int
            } else {
                0int
            }));
            assert(y / 100 - (y - 1) / 100 == (if y % 100 == 0 {
                1int
            } else {
                0int
            }));
            assert(y / 400 - (y - 1) / 400 == (if y % 400 == 0 {
                1int
            } else {
                0int
            }));
        }
    }
}

/// The next calendar day.
#[verifier::rlimit(100)]
pub fn succ_date(d: Date) -> (r: Date)
    requires
        date_valid(d),
        d.year < 9999 || !(d.month == 12 && d.day == 31),
    ensures
        r == spec_succ(d),
        date_valid(r),
        day_number(r) == day_number(d) + 1,
{
    proof {
        lemma_succ_day_number(d);
    }
    let dim = days_in_month_exec(d.year, d.month);
    if d.day < dim {
        Date { day: d.day + 1, ..d }
    } else if d.month < 12 {
        Date { month: d.month + 1, day: 1, ..d }
    } else {
        Date { year: d.year + 1, month: 1, day: 1 }
    }
}

/// The previous calendar day.
pub open spec fn spec_pred(d: Date) -> Date {
    if d.day > 1 {
        Date { day: (d.day - 1) as u8, ..d }
    } else if d.month > 1 {
        Date {
            month: (d.month - 1) as u8,
            day: days_in_month(d.year as int, d.month as int - 1) as u8,
            ..d
        }
    } else {
        Date { year: (d.year - 1) as i32, month: 12, day: 31 }
    }
}

/// The previous calendar day.
#[verifier::rlimit(100)]
pub fn pred_date(d: Date) -> (r: Date)
    requires
        date_valid(d),
        d.year > 1 || !(d.month == 1 && d.day == 1),
    ensures
        r == spec_pred(d),
        date_valid(r),
        day_number(r) == day_number(d) - 1,
    decreases 0int,
{
    let r: Date = if d.day > 1 {
        Date { day: d.day - 1, ..d }
    } else if d.month > 1 {
        Date { month: d.month - 1, day: days_in_month_exec(d.year, d.month - 1), ..d }
    } else {
        Date { year: d.year - 1, month: 12, day: 31 }
    };
    proof {
        assert(date_valid(r) && spec_succ(r) == d) by {
            if d.day == 1 && d.month == 1 {
                assert(days_in_month(d.year as int - 1, 12) == 31);
            }
        }
        lemma_succ_day_number(r);
    }
    r
}

/// Whether the day with this day number is a business day.
pub open spec fn dn_is_business(dn: int) -> bool {
    (dn - 1) % 7 < 5
}

/// The business days among the day numbers `lo` through `hi`, inclusive.
pub open spec fn business_count(lo: int, hi: int) -> int
    decreases hi - lo,
{
    if lo > hi {
        0
    } else {
        (if dn_is_business(lo) {
            1int
        } else {
            0int
        }) + (if lo == hi {
            0int
        } else {
            business_count(lo + 1, hi)
        })
    }
}

/// The number of business days from `start` through `end`, inclusive; zero
/// when the range is empty.
pub open spec fn spec_business_days(start: Date, end: Date) -> int {
    business_count(day_number(start), day_number(end))
}

/// Every representable date's day number stays within the calendar's span.
#[verifier::rlimit(100)]
pub proof fn lemma_day_number_span(d: Date)
    requires
        date_valid(d),
    ensures
        1 <= day_number(d) < 0x400000,
        day_number(d) > 365 * (d.year as int - 1),
{
    let y = d.year as int;
    assert((y - 1) / 4 <= (y - 1)) by {
        assert((y - 1) / 4 * 4 + (y - 1) % 4 == y - 1);
    }
    assert((y - 1) / 4 >= 0 && (y - 1) / 100 >= 0 && (y - 1) / 400 >= 0);
    assert((y - 1) / 100 <= (y - 1) / 4) by {
        vstd::arithmetic::div_mod::lemma_div_is_ordered_by_denominator(y - 1, 4, 100);
    }
    assert(days_before_year(y) <= 366 * (y - 1));
}

/// Counts the business days (Monday through Friday) between two dates,
/// inclusive; an inverted range counts zero.
#[verifier::rlimit(100)]
pub fn business_days_between(start: Date, end: Date) -> (r: i64)
    requires
        date_valid(start),
        date_valid(end),
    ensures
        r as int == spec_business_days(start, end),
{
    let dn_start = day_number_exec(start);
    let dn_end = day_number_exec(end);
    if dn_start > dn_end {
        return 0;
    }
    proof {
        lemma_day_number_span(start);
        lemma_day_number_span(end);
    }
    let mut count: i64 = 0;
    let mut current = start;
    let mut dn = dn_start;
    loop
        invariant
            date_valid(current),
            date_valid(end),
            dn as int == day_number(current),
            dn_start <= dn <= dn_end,
            dn_start as int == day_number(start),
            dn_end as int == day_number(end),
            1 <= dn_start && dn_end < 0x400000,
            0 <= count <= dn - dn_start,
            count as int + business_count(dn as int, dn_end as int) == business_count(
                dn_start as int,
                dn_end as int,
            ),
        decreases dn_end - dn,
    {
        if is_business_day(current) {
            count = count + 1;
        }
        if dn == dn_end {
            proof {
                assert(business_count(dn as int, dn_end as int) == (if dn_is_business(dn as int) {
                    1int
                } else {
                    0int
                }));
            }
            return count;
        }
        proof {
            assert(current.year < 9999 || !(current.month == 12 && current.day == 31)) by {
                if current.year == 9999 && current.month == 12 && current.day == 31 {
                    lemma_max_day_number(end);
                    assert(day_number(current) == days_before_year(9999) + 334 + 31);
                }
            }
        }
        current = succ_date(current);
        dn = dn + 1;
    }
}

/// No representable date's day number passes the last representable day's.
#[verifier::rlimit(100)]
pub proof fn lemma_max_day_number(d: Date)
    requires
        date_valid(d),
    ensures
        day_number(d) <= days_before_year(9999) + 365,
{
    let y = d.year as int;
    assert(days_before_month(y, d.month as int) + d.day as int <= 366);
    if y < 9999 {
        lemma_dby_monotone(y + 1, 9999);
        lemma_dby_step(y);
        assert(day_number(d) <= days_before_year(y) + 366 <= days_before_year(y + 1) + 1);
    } else {
        assert(!is_leap(9999));
        assert(days_before_month(9999int, d.month as int) + d.day as int <= 365);
    }
}

/// One year adds its length to the days before it.
#[verifier::rlimit(100)]
#[verifier::rlimit(100)]
#[verifier::spinoff_prover]
proof fn lemma_dby_step(y: int)
    ensures
        days_before_year(y + 1) == days_before_year(y) + (if is_leap(y) {
            366int
        } else {
            365int
        }),
{
    assert(y / 4 - (y - 1) / 4 == (if y % 4 == 0 {
        1int
    } else {
        0int
    }));
    assert(y / 100 - (y - 1) / 100 == (if y % 100 == 0 {
        1int
    } else {
        0int
    }));
    assert(y / 400 - (y - 1) / 400 == (if y % 400 == 0 {
        1int
    } else {
        0int
    }));
}

/// More years mean at least as many days before them.
proof fn lemma_dby_monotone(y1: int, y2: int)
    requires
        y1 <= y2,
    ensures
        days_before_year(y1) <= days_before_year(y2),
    decreases y2 - y1,
{
    if y1 < y2 {
        lemma_dby_monotone(y1 + 1, y2);
        lemma_dby_step(y1);
    }
}

/// The following business day.
#[verifier::rlimit(100)]
pub fn next_business_day(d: Date) -> (r: Date)
    requires
        date_valid(d),
        d.year < 9998,
    ensures
        date_valid(r),
        spec_is_business_day(r),
        day_number(r) > day_number(d),
        day_number(r) <= day_number(d) + 3,
{
    let ghost dnd = day_number(d);
    let mut next = succ_date(d);
    let mut steps: u8 = 0;
    while !is_business_day(next)
        invariant
            date_valid(next),
            date_valid(d),
            d.year < 9998,
            dnd == day_number(d),
            next.year as int <= d.year as int + 1,
            day_number(next) == dnd + 1 + steps as int,
            steps <= 2,
            steps >= 1 ==> dnd % 7 >= 5,
            steps >= 2 ==> dnd % 7 == 5,
        decreases 2 - steps as int,
    {
        proof {
            assert(days_from_monday(next) >= 5);
            assert(days_from_monday(next) == (dnd + steps as int) % 7);
            if steps == 1 {
                assert((dnd + 1) % 7 >= 5);
                assert(dnd % 7 == 5) by {
                    if dnd % 7 == 6 {
                        assert((dnd + 1) % 7 == 0);
                    }
                }
            }
            if steps == 2 {
                assert((dnd + 2) % 7 >= 5);
                assert(dnd % 7 == 5);
                assert((dnd + 2) % 7 == 0);
                assert(false);
            }
            assert(next.year < 9999 || !(next.month == 12 && next.day == 31)) by {
                assert(next.year as int <= d.year as int + 1 < 9999);
            }
        }
        next = succ_date(next);
        steps = steps + 1;
    }
    next
}

/// The preceding business day.
#[verifier::rlimit(100)]
pub fn previous_business_day(d: Date) -> (r: Date)
    requires
        date_valid(d),
        d.year > 2,
    ensures
        date_valid(r),
        spec_is_business_day(r),
        day_number(r) < day_number(d),
        day_number(r) >= day_number(d) - 3,
{
    let ghost dnd = day_number(d);
    proof {
        lemma_day_number_span(d);
        assert(dnd > 365 * 2);
    }
    let mut prev = pred_date(d);
    let mut steps: u8 = 0;
    while !is_business_day(prev)
        invariant
            date_valid(prev),
            date_valid(d),
            d.year > 2,
            dnd == day_number(d),
            dnd > 730,
            prev.year as int >= d.year as int - 1,
            day_number(prev) == dnd - 1 - steps as int,
            steps <= 2,
            steps >= 1 ==> (dnd - 2) % 7 >= 5,
            steps >= 2 ==> (dnd - 2) % 7 == 6,
        decreases 2 - steps as int,
    {
        proof {
            assert(days_from_monday(prev) >= 5);
            assert(days_from_monday(prev) == (dnd - 2 - steps as int) % 7);
            if steps == 1 {
                assert((dnd - 3) % 7 >= 5);
                assert((dnd - 2) % 7 == 6) by {
                    if (dnd - 2) % 7 == 5 {
                        assert((dnd - 3) % 7 == 4);
                    }
                }
            }
            if steps == 2 {
                assert((dnd - 4) % 7 >= 5);
                assert((dnd - 2) % 7 == 6);
                assert((dnd - 4) % 7 == 4);
                assert(false);
            }
            assert(prev.year > 1 || !(prev.month == 1 && prev.day == 1)) by {
                assert(prev.year as int >= d.year as int - 1 > 1);
            }
        }
        prev = pred_date(prev);
        steps = steps + 1;
    }
    prev
}

} // verus!

// ===== parsing and formatting =====

verus! {

/// A digit's numeric value.
pub open spec fn digit_val(c: char) -> int {
    (c as int) - 48
}

/// The number named by a run of digits.
pub open spec fn digits_value(s: Seq<char>) -> int
    decreases s.len(),
{
    if s.len() == 0 {
        0
    } else {
        digits_value(s.drop_last()) * 10 + digit_val(s.last())
    }
}

/// Reads a calendar date out of ten characters shaped `YYYY-MM-DD` (with
/// the given separator); `None` when the shape or the calendar rejects it.
pub open spec fn spec_parse_ymd(s: Seq<char>, sep: char) -> Option<Date> {
    if s.len() == 10 && crate::json::is_digit(s[0]) && crate::json::is_digit(s[1])
        && crate::json::is_digit(s[2]) && crate::json::is_digit(s[3]) && s[4] == sep
        && crate::json::is_digit(s[5]) && crate::json::is_digit(s[6]) && s[7] == sep
        && crate::json::is_digit(s[8]) && crate::json::is_digit(s[9]) {
        let y = digits_value(s.subrange(0, 4));
        let m = digits_value(s.subrange(5, 7));
        let d = digits_value(s.subrange(8, 10));
        let date = Date { year: y as i32, month: m as u8, day: d as u8 };
        if date_valid(date) {
            Some(date)
        } else {
            None
        }
    } else {
        None
    }
}

/// Reads a calendar date out of ten characters shaped `DD.MM.YYYY` (with
/// the given separator).
pub open spec fn spec_parse_dmy(s: Seq<char>, sep: char) -> Option<Date> {
    if s.len() == 10 && crate::json::is_digit(s[0]) && crate::json::is_digit(s[1]) && s[2] == sep
        && crate::json::is_digit(s[3]) && crate::json::is_digit(s[4]) && s[5] == sep
        && crate::json::is_digit(s[6]) && crate::json::is_digit(s[7]) && crate::json::is_digit(
        s[8],
    ) && crate::json::is_digit(s[9]) {
        let d = digits_value(s.subrange(0, 2));
        let m = digits_value(s.subrange(3, 5));
        let y = digits_value(s.subrange(6, 10));
        let date = Date { year: y as i32, month: m as u8, day: d as u8 };
        if date_valid(date) {
            Some(date)
        } else {
            None
        }
    } else {
        None
    }
}

fn read_digits(chars: &Vec<char>, lo: usize, hi: usize) -> (r: Option<u32>)
    requires
        lo <= hi <= chars@.len(),
        hi - lo <= 4,
    ensures
        match r {
            Some(v) => (forall|j: int|
                lo <= j < hi ==> crate::json::is_digit(#[trigger] chars@[j])) && v as int
                == digits_value(chars@.subrange(lo as int, hi as int)),
            None => exists|j: int| lo <= j < hi && !crate::json::is_digit(#[trigger] chars@[j]),
        },
{
    let mut v: u32 = 0;
    let mut i: usize = lo;
    while i < hi
        invariant
            lo <= i <= hi <= chars@.len(),
            hi - lo <= 4,
            v as int == digits_value(chars@.subrange(lo as int, i as int)),
            v < 10000,
            forall|j: int| lo <= j < i ==> crate::json::is_digit(#[trigger] chars@[j]),
        decreases hi - i,
    {
        let c = chars[i];
        if !('0' <= c && c <= '9') {
            return None;
        }
        proof {
            assert(chars@.subrange(lo as int, i + 1 as int).drop_last() =~= chars@.subrange(
                lo as int,
                i as int,
            ));
            assert(chars@.subrange(lo as int, i + 1 as int).last() == chars@[i as int]);
            assert(digits_value(chars@.subrange(lo as int, i as int)) < 1000) by {
                lemma_digits_value_bound(chars@.subrange(lo as int, i as int));
            }
        }
        v = v * 10 + ((c as u32) - 48);
        i = i + 1;
    }
    Some(v)
}

/// A run of digits names a number below ten to its length.
proof fn lemma_digits_value_bound(s: Seq<char>)
    requires
        forall|j: int| 0 <= j < s.len() ==> crate::json::is_digit(#[trigger] s[j]),
    ensures
        0 <= digits_value(s),
        s.len() <= 1 ==> digits_value(s) < 10,
        s.len() <= 2 ==> digits_value(s) < 100,
        s.len() <= 3 ==> digits_value(s) < 1000,
        s.len() <= 4 ==> digits_value(s) < 10000,
    decreases s.len(),
{
    if s.len() > 0 {
        assert(forall|j: int|
            0 <= j < s.len() - 1 ==> crate::json::is_digit(#[trigger] s.drop_last()[j]));
        lemma_digits_value_bound(s.drop_last());
        assert(48 <= s.last() as int <= 57);
    }
}

/// Parses a date written `YYYY-MM-DD`.
pub fn parse_date(date_str: &str) -> (r: Result<Date, String>)
    ensures
        match r {
            Ok(d) => spec_parse_ymd(date_str@, '-') == Some(d) && date_valid(d),
            Err(_) => spec_parse_ymd(date_str@, '-') is None,
        },
{
    let chars = crate::text::str_to_chars(date_str);
    match parse_ymd_chars(&chars, '-') {
        Some(d) => Ok(d),
        None => {
            let mut msg = "Neplatný formát data: '".to_owned();
            msg.append(date_str);
            msg.append("'. Očekávaný formát: YYYY-MM-DD");
            Err(msg)
        },
    }
}

fn parse_ymd_chars(chars: &Vec<char>, sep: char) -> (r: Option<Date>)
    ensures
        r == spec_parse_ymd(chars@, sep),
{
    if chars.len() != 10 {
        return None;
    }
    if !(chars[4] == sep && chars[7] == sep) {
        return None;
    }
    let y = match read_digits(chars, 0, 4) {
        Some(v) => v,
        None => {
            return None;
        },
    };
    let m = match read_digits(chars, 5, 7) {
        Some(v) => v,
        None => {
            return None;
        },
    };
    let d = match read_digits(chars, 8, 10) {
        Some(v) => v,
        None => {
            return None;
        },
    };
    proof {
        lemma_digits_value_bound(chars@.subrange(0, 4));
        lemma_digits_value_small(chars@.subrange(5, 7));
        lemma_digits_value_small(chars@.subrange(8, 10));
    }
    let date = Date { year: y as i32, month: m as u8, day: d as u8 };
    if !(1 <= date.year && 1 <= date.month && date.month <= 12 && 1 <= date.day) {
        return None;
    }
    let dim = days_in_month_exec(date.year, date.month);
    if date.day <= dim {
        Some(date)
    } else {
        None
    }
}

/// A run of at most two digits names a number below a hundred.
proof fn lemma_digits_value_small(s: Seq<char>)
    requires
        forall|j: int| 0 <= j < s.len() ==> crate::json::is_digit(#[trigger] s[j]),
        s.len() <= 2,
    ensures
        0 <= digits_value(s) < 100,
{
    lemma_digits_value_bound(s);
}

fn parse_dmy_chars(chars: &Vec<char>, sep: char) -> (r: Option<Date>)
    ensures
        r == spec_parse_dmy(chars@, sep),
{
    if chars.len() != 10 {
        return None;
    }
    if !(chars[2] == sep && chars[5] == sep) {
        return None;
    }
    let d = match read_digits(chars, 0, 2) {
        Some(v) => v,
        None => {
            return None;
        },
    };
    let m = match read_digits(chars, 3, 5) {
        Some(v) => v,
        None => {
            return None;
        },
    };
    let y = match read_digits(chars, 6, 10) {
        Some(v) => v,
        None => {
            return None;
        },
    };
    proof {
        lemma_digits_value_small(chars@.subrange(0, 2));
        lemma_digits_value_small(chars@.subrange(3, 5));
        lemma_digits_value_bound(chars@.subrange(6, 10));
    }
    let date = Date { year: y as i32, month: m as u8, day: d as u8 };
    if !(1 <= date.year && 1 <= date.month && date.month <= 12 && 1 <= date.day) {
        return None;
    }
    let dim = days_in_month_exec(date.year, date.month);
    if date.day <= dim {
        Some(date)
    } else {
        None
    }
}

/// What the flexible parser accepts: `YYYY-MM-DD`, then `DD.MM.YYYY`, then
/// `DD/MM/YYYY`, then `YYYY/MM/DD`, the first that fits.
pub open spec fn spec_parse_flexible(s: Seq<char>) -> Option<Date> {
    if spec_parse_ymd(s, '-') is Some {
        spec_parse_ymd(s, '-')
    } else if spec_parse_dmy(s, '.') is Some {
        spec_parse_dmy(s, '.')
    } else if spec_parse_dmy(s, '/') is Some {
        spec_parse_dmy(s, '/')
    } else {
        spec_parse_ymd(s, '/')
    }
}

/// Parses a date written in any of the four accepted shapes.
pub fn parse_date_flexible(date_str: &str) -> (r: Result<Date, String>)
    ensures
        match r {
            Ok(d) => spec_parse_flexible(date_str@) == Some(d) && date_valid(d),
            Err(_) => spec_parse_flexible(date_str@) is None,
        },
{
    let chars = crate::text::str_to_chars(date_str);
    if let Some(d) = parse_ymd_chars(&chars, '-') {
        return Ok(d);
    }
    if let Some(d) = parse_dmy_chars(&chars, '.') {
        return Ok(d);
    }
    if let Some(d) = parse_dmy_chars(&chars, '/') {
        return Ok(d);
    }
    if let Some(d) = parse_ymd_chars(&chars, '/') {
        return Ok(d);
    }
    let mut msg = "Neplatný formát data: '".to_owned();
    msg.append(date_str);
    msg.append("'. Podporované formáty: YYYY-MM-DD, DD.MM.YYYY, DD/MM/YYYY, YYYY/MM/DD");
    Err(msg)
}

/// Parses a date written `YYYY-MM-DD` (the strict shape).
pub fn parse_date_string(date_str: &str) -> (r: Result<Date, String>)
    ensures
        match r {
            Ok(d) => spec_parse_ymd(date_str@, '-') == Some(d) && date_valid(d),
            Err(_) => spec_parse_ymd(date_str@, '-') is None,
        },
{
    parse_date(date_str)
}

/// Whether a text names a real day in the strict shape.
pub fn is_valid_date_string(date_str: &str) -> (r: bool)
    ensures
        r == (spec_parse_ymd(date_str@, '-') is Some),
{
    let chars = crate::text::str_to_chars(date_str);
    match parse_ymd_chars(&chars, '-') {
        Some(_) => true,
        None => false,
    }
}

/// Two zero-padded digits.
pub open spec fn two_digits(n: int) -> Seq<char> {
    seq![digit_char(n / 10), digit_char(n % 10)]
}

/// Four zero-padded digits.
pub open spec fn four_digits(n: int) -> Seq<char> {
    seq![
        digit_char(n / 1000),
        digit_char(n / 100 % 10),
        digit_char(n / 10 % 10),
        digit_char(n % 10),
    ]
}

fn push_two_digits(out: &mut String, n: u32)
    requires
        n < 100,
    ensures
        final(out)@ == old(out)@ + two_digits(n as int),
{
    let ds = crate::text::u32_string(n / 10);
    out.append(ds.as_str());
    let ds2 = crate::text::u32_string(n % 10);
    out.append(ds2.as_str());
    proof {
        assert(out@ =~= old(out)@ + two_digits(n as int));
    }
}

fn push_four_digits(out: &mut String, n: u32)
    requires
        n < 10000,
    ensures
        final(out)@ == old(out)@ + four_digits(n as int),
{
    let d1 = crate::text::u32_string(n / 1000);
    out.append(d1.as_str());
    let d2 = crate::text::u32_string(n / 100 % 10);
    out.append(d2.as_str());
    let d3 = crate::text::u32_string(n / 10 % 10);
    out.append(d3.as_str());
    let d4 = crate::text::u32_string(n % 10);
    out.append(d4.as_str());
    proof {
        assert(out@ =~= old(out)@ + four_digits(n as int));
    }
}

/// A date in the ISO shape, `YYYY-MM-DD`.
pub open spec fn spec_format_iso(d: Date) -> Seq<char> {
    four_digits(d.year as int) + seq!['-'] + two_digits(d.month as int) + seq!['-'] + two_digits(
        d.day as int,
    )
}

/// Writes a date in the ISO shape, `YYYY-MM-DD`.
pub fn format_date_iso(d: &Date) -> (r: String)
    requires
        date_valid(*d),
    ensures
        r@ == spec_format_iso(*d),
{
    let mut out = String::new();
    push_four_digits(&mut out, d.year as u32);
    push_char(&mut out, '-');
    push_two_digits(&mut out, d.month as u32);
    push_char(&mut out, '-');
    push_two_digits(&mut out, d.day as u32);
    proof {
        assert(out@ =~= spec_format_iso(*d));
    }
    out
}

/// A date in the day-first dotted shape, `DD.MM.YYYY`.
pub open spec fn spec_format_dotted(d: Date) -> Seq<char> {
    two_digits(d.day as int) + seq!['.'] + two_digits(d.month as int) + seq!['.'] + four_digits(
        d.year as int,
    )
}

/// Writes a date in the day-first dotted shape, `DD.MM.YYYY`.
pub fn format_date_czech(d: &Date) -> (r: String)
    requires
        date_valid(*d),
    ensures
        r@ == spec_format_dotted(*d),
{
    let mut out = String::new();
    push_two_digits(&mut out, d.day as u32);
    push_char(&mut out, '.');
    push_two_digits(&mut out, d.month as u32);
    push_char(&mut out, '.');
    push_four_digits(&mut out, d.year as u32);
    proof {
        assert(out@ =~= spec_format_dotted(*d));
    }
    out
}

/// Writes a date in the day-first dotted shape (the display shape).
pub fn format_date(d: &Date) -> (r: String)
    requires
        date_valid(*d),
    ensures
        r@ == spec_format_dotted(*d),
{
    format_date_czech(d)
}

} // verus!

// ===== datetimes, week and month bounds, ranges =====

verus! {

/// A timestamp: a date plus a time of day, in UTC.
#[derive(PartialEq, Eq, Structural, Clone, Copy, Debug)]
pub struct DateTimeUtc {
    pub date: Date,
    pub hour: u8,
    pub minute: u8,
    pub second: u8,
}

/// A representable timestamp.
pub open spec fn datetime_valid(t: DateTimeUtc) -> bool {
    date_valid(t.date) && t.hour < 24 && t.minute < 60 && t.second < 60
}

/// Reads a timestamp shaped `YYYY-MM-DDTHH:MM:SSZ`.
pub open spec fn spec_parse_datetime(s: Seq<char>) -> Option<DateTimeUtc> {
    if s.len() == 20 && s[10] == 'T' && s[13] == ':' && s[16] == ':' && s[19] == 'Z'
        && crate::json::is_digit(s[11]) && crate::json::is_digit(s[12]) && crate::json::is_digit(
        s[14],
    ) && crate::json::is_digit(s[15]) && crate::json::is_digit(s[17]) && crate::json::is_digit(
        s[18],
    ) {
        match spec_parse_ymd(s.subrange(0, 10), '-') {
            Some(d) => {
                let t = DateTimeUtc {
                    date: d,
                    hour: digits_value(s.subrange(11, 13)) as u8,
                    minute: digits_value(s.subrange(14, 16)) as u8,
                    second: digits_value(s.subrange(17, 19)) as u8,
                };
                if t.hour < 24 && t.minute < 60 && t.second < 60 {
                    Some(t)
                } else {
                    None
                }
            },
            None => None,
        }
    } else {
        None
    }
}

/// Parses a timestamp shaped `YYYY-MM-DDTHH:MM:SSZ`.
pub fn parse_datetime(s: &str) -> (r: Option<DateTimeUtc>)
    ensures
        r == spec_parse_datetime(s@),
        r matches Some(t) ==> datetime_valid(t),
{
    let chars = crate::text::str_to_chars(s);
    if chars.len() != 20 {
        return None;
    }
    if !(chars[10] == 'T' && chars[13] == ':' && chars[16] == ':' && chars[19] == 'Z') {
        return None;
    }
    let mut date_part: Vec<char> = Vec::new();
    let mut i: usize = 0;
    while i < 10
        invariant
            i <= 10,
            chars@.len() == 20,
            date_part@ == chars@.subrange(0, i as int),
        decreases 10 - i,
    {
        date_part.push(chars[i]);
        proof {
            assert(date_part@ =~= chars@.subrange(0, i + 1 as int));
        }
        i = i + 1;
    }
    let d = match parse_ymd_chars(&date_part, '-') {
        Some(d) => d,
        None => {
            return None;
        },
    };
    let hour = match read_digits(&chars, 11, 13) {
        Some(v) => v,
        None => {
            return None;
        },
    };
    let minute = match read_digits(&chars, 14, 16) {
        Some(v) => v,
        None => {
            return None;
        },
    };
    let second = match read_digits(&chars, 17, 19) {
        Some(v) => v,
        None => {
            return None;
        },
    };
    proof {
        lemma_digits_value_small(chars@.subrange(11, 13));
        lemma_digits_value_small(chars@.subrange(14, 16));
        lemma_digits_value_small(chars@.subrange(17, 19));
    }
    if hour < 24 && minute < 60 && second < 60 {
        Some(DateTimeUtc { date: d, hour: hour as u8, minute: minute as u8, second: second as u8 })
    } else {
        None
    }
}

/// A timestamp in the display shape, `DD.MM.YYYY HH:MM:SS UTC`.
pub open spec fn spec_format_datetime(t: DateTimeUtc) -> Seq<char> {
    spec_format_dotted(t.date) + seq![' '] + two_digits(t.hour as int) + seq![':'] + two_digits(
        t.minute as int,
    ) + seq![':'] + two_digits(t.second as int) + " UTC"@
}

/// Writes a timestamp in the display shape, `DD.MM.YYYY HH:MM:SS UTC`.
pub fn format_datetime(t: &DateTimeUtc) -> (r: String)
    requires
        datetime_valid(*t),
    ensures
        r@ == spec_format_datetime(*t),
{
    let mut out = format_date_czech(&t.date);
    push_char(&mut out, ' ');
    push_two_digits(&mut out, t.hour as u32);
    push_char(&mut out, ':');
    push_two_digits(&mut out, t.minute as u32);
    push_char(&mut out, ':');
    push_two_digits(&mut out, t.second as u32);
    out.append(" UTC");
    proof {
        assert(out@ =~= spec_format_datetime(*t));
    }
    out
}

/// A timestamp in the ISO shape, `YYYY-MM-DDTHH:MM:SSZ`.
pub open spec fn spec_format_datetime_iso(t: DateTimeUtc) -> Seq<char> {
    spec_format_iso(t.date) + seq!['T'] + two_digits(t.hour as int) + seq![':'] + two_digits(
        t.minute as int,
    ) + seq![':'] + two_digits(t.second as int) + seq!['Z']
}

/// Writes a timestamp in the ISO shape.
pub fn format_datetime_iso(t: &DateTimeUtc) -> (r: String)
    requires
        datetime_valid(*t),
    ensures
        r@ == spec_format_datetime_iso(*t),
{
    let mut out = format_date_iso(&t.date);
    push_char(&mut out, 'T');
    push_two_digits(&mut out, t.hour as u32);
    push_char(&mut out, ':');
    push_two_digits(&mut out, t.minute as u32);
    push_char(&mut out, ':');
    push_two_digits(&mut out, t.second as u32);
    push_char(&mut out, 'Z');
    proof {
        assert(out@ =~= spec_format_datetime_iso(*t));
    }
    out
}

/// Steps a date back a bounded number of days.
pub fn back_days(d: Date, n: u32) -> (r: Date)
    requires
        date_valid(d),
        n <= 400,
        d.year > 2,
    ensures
        date_valid(r),
        day_number(r) == day_number(d) - n,
{
    let mut current = d;
    let mut left = n;
    while left > 0
        invariant
            date_valid(current),
            day_number(current) == day_number(d) - (n - left),
            left <= n <= 400,
            d.year > 2,
            date_valid(d),
        decreases left,
    {
        proof {
            lemma_day_number_year_bounds(current);
            lemma_day_number_year_bounds(d);
            assert(current.year > 1 || !(current.month == 1 && current.day == 1)) by {
                if current.year == 1 && current.month == 1 && current.day == 1 {
                    assert(day_number(current) == 1);
                    assert(day_number(d) >= days_before_year(3) + 1 > 401);
                }
            }
        }
        current = pred_date(current);
        left = left - 1;
    }
    current
}

/// Steps a date forward a bounded number of days.
pub fn forward_days(d: Date, n: u32) -> (r: Date)
    requires
        date_valid(d),
        n <= 400,
        d.year < 9998,
    ensures
        date_valid(r),
        day_number(r) == day_number(d) + n,
{
    let mut current = d;
    let mut left = n;
    while left > 0
        invariant
            date_valid(current),
            day_number(current) == day_number(d) + (n - left),
            left <= n <= 400,
            d.year < 9998,
            date_valid(d),
        decreases left,
    {
        proof {
            lemma_day_number_year_bounds(current);
            lemma_day_number_year_bounds(d);
            assert(current.year < 9999 || !(current.month == 12 && current.day == 31)) by {
                if current.year == 9999 && current.month == 12 && current.day == 31 {
                    assert(day_number(current) == days_before_year(9999) + 334 + 31);
                    assert(day_number(d) <= days_before_year(9998) + 334 + 31 + 1);
                }
            }
        }
        current = succ_date(current);
        left = left - 1;
    }
    current
}

/// A date's day number sits within its year's days.
pub proof fn lemma_day_number_year_bounds(d: Date)
    requires
        date_valid(d),
    ensures
        days_before_year(d.year as int) < day_number(d) <= days_before_year(d.year as int) + 366,
        days_before_year(d.year as int) >= 365 * (d.year as int - 1),
        days_before_year(d.year as int) <= 366 * (d.year as int - 1),
        d.year < 9999 ==> day_number(d) <= days_before_year(d.year as int + 1),
{
    let y = d.year as int;
    assert((y - 1) / 4 <= (y - 1)) by {
        assert((y - 1) / 4 * 4 + (y - 1) % 4 == y - 1);
    }
    assert((y - 1) / 4 >= 0 && (y - 1) / 100 >= 0 && (y - 1) / 400 >= 0);
    assert((y - 1) / 100 <= (y - 1) / 4) by {
        vstd::arithmetic::div_mod::lemma_div_is_ordered_by_denominator(y - 1, 4, 100);
    }
    if d.year < 9999 {
        assert(days_before_year(y + 1) == days_before_year(y) + (if is_leap(y) {
            366int
        } else {
            365int
        })) by {
            assert(y / 4 - (y - 1) / 4 == (if y % 4 == 0 {
                1int
            } else {
                0int
            }));
            assert(y / 100 - (y - 1) / 100 == (if y % 100 == 0 {
                1int
            } else {
                0int
            }));
            assert(y / 400 - (y - 1) / 400 == (if y % 400 == 0 {
                1int
            } else {
                0int
            }));
        }
        assert(days_before_month(y, d.month as int) + d.day as int <= 366) by {
            if is_leap(y) {
            } else {
            }
        }
    } else {
        assert(days_before_month(y, d.month as int) + d.day as int <= 366);
    }
}

/// The Monday of a date's week.
pub fn start_of_week(d: Date) -> (r: Date)
    requires
        date_valid(d),
        d.year > 2,
    ensures
        date_valid(r),
        day_number(r) == day_number(d) - days_from_monday(d),
        days_from_monday(r) == 0,
{
    let dfm = days_from_monday_exec(d);
    let r = back_days(d, dfm as u32);
    proof {
        assert((day_number(d) - 1) % 7 == days_from_monday(d));
        assert((day_number(r) - 1) % 7 == 0) by {
            assert(day_number(r) - 1 == day_number(d) - 1 - days_from_monday(d));
        }
    }
    r
}

/// The Sunday of a date's week.
pub fn end_of_week(d: Date) -> (r: Date)
    requires
        date_valid(d),
        d.year < 9998,
    ensures
        date_valid(r),
        day_number(r) == day_number(d) + (6 - days_from_monday(d)),
        days_from_monday(r) == 6,
{
    let dfm = days_from_monday_exec(d);
    let r = forward_days(d, (6 - dfm) as u32);
    proof {
        assert((day_number(r) - 1) % 7 == 6) by {
            assert(day_number(r) - 1 == day_number(d) - 1 - days_from_monday(d) + 6);
        }
    }
    r
}

/// The first day of a date's month.
pub fn start_of_month(d: Date) -> (r: Date)
    requires
        date_valid(d),
    ensures
        date_valid(r),
        r.year == d.year && r.month == d.month && r.day == 1,
{
    Date { day: 1, ..d }
}

/// The last day of a date's month.
pub fn end_of_month(d: Date) -> (r: Date)
    requires
        date_valid(d),
    ensures
        date_valid(r),
        r.year == d.year && r.month == d.month,
        r.day as int == days_in_month(d.year as int, d.month as int),
{
    Date { day: days_in_month_exec(d.year, d.month), ..d }
}

/// The first of January of a date's year.
pub fn start_of_year(d: Date) -> (r: Date)
    requires
        date_valid(d),
    ensures
        date_valid(r),
        r.year == d.year && r.month == 1 && r.day == 1,
{
    Date { month: 1, day: 1, ..d }
}

/// The last of December of a date's year.
pub fn end_of_year(d: Date) -> (r: Date)
    requires
        date_valid(d),
    ensures
        date_valid(r),
        r.year == d.year && r.month == 12 && r.day == 31,
{
    Date { month: 12, day: 31, ..d }
}

/// An inclusive range of dates.
pub struct DateRange {
    pub start: Date,
    pub end: Date,
}

impl DateRange {
    /// A well-formed range: valid endpoints in order.
    pub open spec fn wf(self) -> bool {
        date_valid(self.start) && date_valid(self.end) && day_number(self.start) <= day_number(
            self.end,
        )
    }

    /// A range from its endpoints; a start after the end is rejected.
    pub fn new(start: Date, end: Date) -> (r: Result<DateRange, String>)
        requires
            date_valid(start),
            date_valid(end),
        ensures
            match r {
                Ok(range) => range.wf() && range.start == start && range.end == end,
                Err(_) => day_number(start) > day_number(end),
            },
    {
        let a = day_number_exec(start);
        let b = day_number_exec(end);
        if a > b {
            Err("Počáteční datum nemůže být později než koncové datum".to_owned())
        } else {
            Ok(DateRange { start, end })
        }
    }

    /// The week around `today`, Monday through Sunday.
    pub fn current_week(today: Date) -> (r: DateRange)
        requires
            date_valid(today),
            2 < today.year < 9998,
        ensures
            r.wf(),
            days_from_monday(r.start) == 0,
            days_from_monday(r.end) == 6,
            day_number(r.start) <= day_number(today) <= day_number(r.end),
    {
        DateRange { start: start_of_week(today), end: end_of_week(today) }
    }

    /// The month around `today`.
    pub fn current_month(today: Date) -> (r: DateRange)
        requires
            date_valid(today),
        ensures
            r.wf(),
            r.start.year == today.year && r.start.month == today.month && r.start.day == 1,
            r.end.year == today.year && r.end.month == today.month,
            r.end.day as int == days_in_month(today.year as int, today.month as int),
    {
        let r = DateRange { start: start_of_month(today), end: end_of_month(today) };
        proof {
            lemma_range_within_month(r.start, r.end);
        }
        r
    }

    /// The year around `today`.
    pub fn current_year(today: Date) -> (r: DateRange)
        requires
            date_valid(today),
        ensures
            r.wf(),
            r.start.year == today.year && r.start.month == 1 && r.start.day == 1,
            r.end.year == today.year && r.end.month == 12 && r.end.day == 31,
    {
        let r = DateRange { start: start_of_year(today), end: end_of_year(today) };
        proof {
            assert(days_before_month(today.year as int, 1) == 0);
            assert(days_before_month(today.year as int, 12) >= 334);
        }
        r
    }

    /// The `days` most recent days, ending today.
    pub fn last_days(today: Date, days: u32) -> (r: DateRange)
        requires
            date_valid(today),
            1 <= days <= 365,
            today.year > 2,
        ensures
            r.wf(),
            r.end == today,
            day_number(r.start) == day_number(today) - (days - 1),
    {
        DateRange { start: back_days(today, days - 1), end: today }
    }

    /// Whether a date falls inside the range.
    pub fn contains(&self, date: Date) -> (r: bool)
        requires
            self.wf(),
            date_valid(date),
        ensures
            r == (day_number(self.start) <= day_number(date) <= day_number(self.end)),
    {
        let dn = day_number_exec(date);
        let a = day_number_exec(self.start);
        let b = day_number_exec(self.end);
        a <= dn && dn <= b
    }

    /// How many days the range spans, both endpoints counted.
    pub fn days_count(&self) -> (r: i64)
        requires
            self.wf(),
        ensures
            r as int == day_number(self.end) - day_number(self.start) + 1,
    {
        day_number_exec(self.end) - day_number_exec(self.start) + 1
    }

    /// How many business days the range holds.
    pub fn business_days_count(&self) -> (r: i64)
        requires
            self.wf(),
        ensures
            r as int == spec_business_days(self.start, self.end),
    {
        business_days_between(self.start, self.end)
    }
}

/// Both endpoints of a month lie in order.
proof fn lemma_range_within_month(a: Date, b: Date)
    requires
        date_valid(a),
        date_valid(b),
        a.year == b.year && a.month == b.month,
        a.day <= b.day,
    ensures
        day_number(a) <= day_number(b),
{
}

/// A period named relative to today.
pub enum RelativePeriod {
    Today,
    Yesterday,
    ThisWeek,
    LastWeek,
    ThisMonth,
    LastMonth,
    ThisYear,
    LastYear,
}

impl RelativePeriod {
    /// The date range a relative period names, seen from `today`.
    pub fn to_date_range(&self, today: Date) -> (r: DateRange)
        requires
            date_valid(today),
            2 < today.year < 9998,
        ensures
            r.wf(),
    {
        match self {
            RelativePeriod::Today => DateRange { start: today, end: today },
            RelativePeriod::Yesterday => {
                let y = pred_date(today);
                DateRange { start: y, end: y }
            },
            RelativePeriod::ThisWeek => DateRange::current_week(today),
            RelativePeriod::LastWeek => {
                let dfm = days_from_monday_exec(today);
                let start = back_days(today, dfm as u32 + 7);
                let end = back_days(today, dfm as u32 + 1);
                DateRange { start, end }
            },
            RelativePeriod::ThisMonth => DateRange::current_month(today),
            RelativePeriod::LastMonth => {
                let anchor: Date = if today.month == 1 {
                    Date { year: today.year - 1, month: 12, day: 1 }
                } else {
                    Date { month: today.month - 1, day: 1, ..today }
                };
                let r = DateRange {
                    start: anchor,
                    end: Date {
                        day: days_in_month_exec(anchor.year, anchor.month),
                        ..anchor
                    },
                };
                proof {
                    lemma_range_within_month(r.start, r.end);
                }
                r
            },
            RelativePeriod::ThisYear => DateRange::current_year(today),
            RelativePeriod::LastYear => {
                let r = DateRange {
                    start: Date { year: today.year - 1, month: 1, day: 1 },
                    end: Date { year: today.year - 1, month: 12, day: 31 },
                };
                proof {
                    assert(days_before_month(r.start.year as int, 1) == 0);
                }
                r
            },
        }
    }
}

} // verus!
