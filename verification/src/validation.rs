//! Validation of tool parameters: identifiers, pagination bounds,
//! percentages, and free-text lengths.

use vstd::prelude::*;
use vstd::string::StringSliceAdditionalSpecFns;

verus! {

/// An id handed to the upstream API must be positive; the error message
/// names the field.
pub fn validate_positive_id(id: i32, field_name: &str) -> (r: Result<(), String>)
    ensures
        r is Ok <==> id > 0,
        id <= 0 ==> (match r {
            Err(m) => m@ == field_name@ + " musí být pozitivní číslo"@,
            Ok(_) => false,
        }),
{
    if id <= 0 {
        let mut msg = field_name.to_owned();
        msg.append(" musí být pozitivní číslo");
        Err(msg)
    } else {
        Ok(())
    }
}

/// Pagination limits are accepted between 1 and 100 inclusive.
pub fn validate_pagination_limit(limit: i32) -> (r: Result<(), String>)
    ensures
        r is Ok <==> 1 <= limit <= 100,
{
    if limit < 1 {
        Err("Limit musí být alespoň 1".to_owned())
    } else if limit > 100 {
        Err("Limit nemůže být větší než 100".to_owned())
    } else {
        Ok(())
    }
}

/// Pagination offsets must not be negative.
pub fn validate_pagination_offset(offset: i32) -> (r: Result<(), String>)
    ensures
        r is Ok <==> offset >= 0,
{
    if offset < 0 {
        Err("Offset nemůže být záporný".to_owned())
    } else {
        Ok(())
    }
}

} // verus!

// ===== identifiers, emails, urls, dates, amounts =====

verus! {

use crate::dates::{Date, date_valid, day_number, spec_parse_ymd, parse_date};

/// An ASCII letter.
pub open spec fn is_alpha(c: char) -> bool {
    ('a' <= c && c <= 'z') || ('A' <= c && c <= 'Z')
}

/// A character allowed in the local part of an address.
pub open spec fn is_local_char(c: char) -> bool {
    is_alpha(c) || crate::json::is_digit(c) || c == '.' || c == '_' || c == '%' || c == '+' || c
        == '-'
}

/// A character allowed in the domain part of an address.
pub open spec fn is_domain_char(c: char) -> bool {
    is_alpha(c) || crate::json::is_digit(c) || c == '.' || c == '-'
}

/// The position of the first `@` at or after `i`, or the length when none.
pub open spec fn sp_first_at(s: Seq<char>, i: int) -> int
    decreases s.len() - i,
{
    if 0 <= i && i < s.len() {
        if s[i] == '@' {
            i
        } else {
            sp_first_at(s, i + 1)
        }
    } else {
        s.len() as int
    }
}

/// The position of the last `.` strictly below `hi`, or `-1` when none.
pub open spec fn sp_last_dot_before(s: Seq<char>, hi: int) -> int
    decreases hi,
{
    if hi <= 0 {
        -1
    } else if 0 < hi <= s.len() && s[hi - 1] == '.' {
        hi - 1
    } else {
        sp_last_dot_before(s, hi - 1)
    }
}

/// The shape of an acceptable address: a nonempty local part of local
/// characters up to the first `@`, then a nonempty domain of domain
/// characters up to the last dot, then a top level of at least two letters.
/// The classes exclude the separators, so the two split positions are the
/// only candidates.
pub open spec fn spec_valid_email(s: Seq<char>) -> bool {
    let a = sp_first_at(s, 0);
    let dot = sp_last_dot_before(s, s.len() as int);
    &&& 1 <= a < s.len()
    &&& a + 1 < dot
    &&& dot + 3 <= s.len()
    &&& (forall|j: int| 0 <= j < a ==> is_local_char(#[trigger] s[j]))
    &&& (forall|j: int| a < j < dot ==> is_domain_char(#[trigger] s[j]))
    &&& (forall|j: int| dot < j < s.len() ==> is_alpha(#[trigger] s[j]))
}

fn exec_is_local_char(c: char) -> (r: bool)
    ensures
        r == is_local_char(c),
{
    ('a' <= c && c <= 'z') || ('A' <= c && c <= 'Z') || ('0' <= c && c <= '9') || c == '.' || c
        == '_' || c == '%' || c == '+' || c == '-'
}

fn exec_is_domain_char(c: char) -> (r: bool)
    ensures
        r == is_domain_char(c),
{
    ('a' <= c && c <= 'z') || ('A' <= c && c <= 'Z') || ('0' <= c && c <= '9') || c == '.' || c
        == '-'
}

fn exec_is_alpha(c: char) -> (r: bool)
    ensures
        r == is_alpha(c),
{
    ('a' <= c && c <= 'z') || ('A' <= c && c <= 'Z')
}

fn find_first_at(chars: &Vec<char>, i: usize) -> (r: usize)
    requires
        i <= chars@.len(),
    ensures
        r as int == sp_first_at(chars@, i as int),
        i <= r <= chars@.len(),
    decreases chars@.len() - i,
{
    if i < chars.len() {
        if chars[i] == '@' {
            i
        } else {
            find_first_at(chars, i + 1)
        }
    } else {
        chars.len()
    }
}

fn find_last_dot_before(chars: &Vec<char>, hi: usize) -> (r: Option<usize>)
    requires
        hi <= chars@.len(),
    ensures
        match r {
            Some(v) => v as int == sp_last_dot_before(chars@, hi as int) && v < hi,
            None => sp_last_dot_before(chars@, hi as int) == -1,
        },
    decreases hi,
{
    if hi == 0 {
        None
    } else if chars[hi - 1] == '.' {
        Some(hi - 1)
    } else {
        find_last_dot_before(chars, hi - 1)
    }
}

/// Whether a text is an acceptable address.
pub fn validate_email(email: &str) -> (r: bool)
    ensures
        r == spec_valid_email(email@),
{
    let chars = crate::text::str_to_chars(email);
    let n = chars.len();
    let a = find_first_at(&chars, 0);
    if a == 0 || a >= n {
        return false;
    }
    let mut j: usize = 0;
    while j < a
        invariant
            j <= a < n,
            n == chars@.len(),
            chars@ == email@,
            a as int == sp_first_at(email@, 0),
            forall|k: int| 0 <= k < j ==> is_local_char(#[trigger] email@[k]),
        decreases a - j,
    {
        if !exec_is_local_char(chars[j]) {
            return false;
        }
        j = j + 1;
    }
    let dot = match find_last_dot_before(&chars, n) {
        Some(v) => v,
        None => {
            return false;
        },
    };
    if !(a + 1 < dot) {
        return false;
    }
    if !(dot < n && n - dot >= 3) {
        return false;
    }
    let mut x: usize = a + 1;
    while x < dot
        invariant
            a + 1 <= x <= dot < n,
            n == chars@.len(),
            chars@ == email@,
            a as int == sp_first_at(email@, 0),
            dot as int == sp_last_dot_before(email@, n as int),
            forall|y: int| a < y < x ==> is_domain_char(#[trigger] email@[y]),
        decreases dot - x,
    {
        if !exec_is_domain_char(chars[x]) {
            return false;
        }
        x = x + 1;
    }
    let mut t: usize = dot + 1;
    while t < n
        invariant
            dot < t <= n,
            n == chars@.len(),
            chars@ == email@,
            a < n,
            a + 1 < dot,
            n - dot >= 3,
            a as int == sp_first_at(email@, 0),
            dot as int == sp_last_dot_before(email@, n as int),
            forall|k: int| 0 <= k < a ==> is_local_char(#[trigger] email@[k]),
            forall|y: int| a < y < dot ==> is_domain_char(#[trigger] email@[y]),
            forall|y: int| dot < y < t ==> is_alpha(#[trigger] email@[y]),
        decreases n - t,
    {
        if !exec_is_alpha(chars[t]) {
            return false;
        }
        t = t + 1;
    }
    true
}

/// Validates a date written `YYYY-MM-DD`.
pub fn validate_date_format(date_str: &str) -> (r: Result<Date, String>)
    ensures
        match r {
            Ok(d) => spec_parse_ymd(date_str@, '-') == Some(d) && date_valid(d),
            Err(_) => spec_parse_ymd(date_str@, '-') is None,
        },
{
    parse_date(date_str)
}

/// A date must not lie after today.
pub fn validate_date_not_future(date: Date, today: Date) -> (r: Result<(), String>)
    requires
        date_valid(date),
        date_valid(today),
    ensures
        r is Ok <==> day_number(date) <= day_number(today),
{
    let a = crate::dates::day_number_exec(date);
    let b = crate::dates::day_number_exec(today);
    if a > b {
        Err("Datum nemůže být v budoucnosti".to_owned())
    } else {
        Ok(())
    }
}

/// Hours are carried in thousandths; a day holds at most 24 hours.
pub const MILLI_HOURS_PER_DAY: i64 = 24000;

/// Validates an amount of hours, in thousandths of an hour: it must be
/// positive and fit within one day.
pub fn validate_hours(milli_hours: i64) -> (r: Result<(), String>)
    ensures
        r is Ok <==> 0 < milli_hours <= MILLI_HOURS_PER_DAY,
{
    if milli_hours <= 0 {
        Err("Počet hodin musí být větší než 0".to_owned())
    } else if milli_hours > MILLI_HOURS_PER_DAY {
        Err("Počet hodin nemůže být větší než 24 za den".to_owned())
    } else {
        Ok(())
    }
}

/// Whether an amount of hours, in thousandths, is acceptable.
pub fn is_valid_hours_milli(milli_hours: i64) -> (r: bool)
    ensures
        r == (0 < milli_hours <= MILLI_HOURS_PER_DAY),
{
    0 < milli_hours && milli_hours <= MILLI_HOURS_PER_DAY
}

/// Validates a text's length, measured in bytes of its encoding; the error
/// message names the field and the violated bound.
pub fn validate_text_length(text: &str, field_name: &str, min_len: usize, max_len: usize) -> (r:
    Result<(), String>)
    ensures
        r is Ok <==> min_len <= text.spec_bytes().len() <= max_len,
        text.spec_bytes().len() < min_len ==> (match r {
            Err(m) => m@ == field_name@ + " musí mít alespoň "@ + crate::text::dec_digits(
                min_len as nat,
            ) + " znaků"@,
            Ok(_) => false,
        }),
        min_len <= text.spec_bytes().len() && text.spec_bytes().len() > max_len ==> (match r {
            Err(m) => m@ == field_name@ + " může mít maximálně "@ + crate::text::dec_digits(
                max_len as nat,
            ) + " znaků"@,
            Ok(_) => false,
        }),
{
    let len = text.as_bytes().len();
    if len < min_len {
        let mut msg = field_name.to_owned();
        msg.append(" musí mít alespoň ");
        crate::text::append_u64(&mut msg, min_len as u64);
        msg.append(" znaků");
        Err(msg)
    } else if len > max_len {
        let mut msg = field_name.to_owned();
        msg.append(" může mít maximálně ");
        crate::text::append_u64(&mut msg, max_len as u64);
        msg.append(" znaků");
        Err(msg)
    } else {
        Ok(())
    }
}

/// A character allowed in a project identifier.
pub open spec fn is_identifier_char(c: char) -> bool {
    is_alpha(c) || crate::json::is_digit(c) || c == '-' || c == '_'
}

/// Validates a project identifier: nonempty, at most a hundred characters,
/// letters, digits, hyphens and underscores only.
pub fn validate_project_identifier(identifier: &str) -> (r: Result<(), String>)
    ensures
        r is Ok <==> (1 <= identifier@.len() <= 100 && (forall|j: int|
            0 <= j < identifier@.len() ==> is_identifier_char(#[trigger] identifier@[j]))),
{
    let chars = crate::text::str_to_chars(identifier);
    if chars.len() == 0 {
        return Err("Identifikátor projektu nemůže být prázdný".to_owned());
    }
    if chars.len() > 100 {
        return Err("Identifikátor projektu může mít maximálně 100 znaků".to_owned());
    }
    let mut j: usize = 0;
    while j < chars.len()
        invariant
            j <= chars@.len(),
            chars@ == identifier@,
            forall|k: int| 0 <= k < j ==> is_identifier_char(#[trigger] identifier@[k]),
        decreases chars@.len() - j,
    {
        let c = chars[j];
        if !(('a' <= c && c <= 'z') || ('A' <= c && c <= 'Z') || ('0' <= c && c <= '9') || c == '-'
            || c == '_') {
            return Err(
                "Identifikátor projektu může obsahovat pouze písmena, číslice, pomlčky a podtržítka".to_owned(),
            );
        }
        j = j + 1;
    }
    Ok(())
}

/// Validates a homepage: empty is fine; otherwise it must carry an HTTP
/// scheme and stay within two thousand bytes.
pub fn validate_url(url_text: &str) -> (r: Result<(), String>)
    ensures
        r is Ok <==> (url_text@.len() == 0 || (crate::config::spec_has_http_scheme(url_text@)
            && url_text.spec_bytes().len() <= 2000)),
{
    if url_text.is_empty() {
        return Ok(());
    }
    if !crate::config::has_http_scheme_check(url_text) {
        return Err("URL musí začínat http:// nebo https://".to_owned());
    }
    if url_text.as_bytes().len() > 2000 {
        return Err("URL je příliš dlouhá (max 2000 znaků)".to_owned());
    }
    Ok(())
}

/// Validates a completion percentage; the error message names the field.
pub fn validate_percentage(value: i32, field_name: &str) -> (r: Result<(), String>)
    ensures
        r is Ok <==> 0 <= value <= 100,
        !(0 <= value <= 100) ==> (match r {
            Err(m) => m@ == field_name@ + " musí být mezi 0 a 100"@,
            Ok(_) => false,
        }),
{
    if value < 0 || value > 100 {
        let mut msg = field_name.to_owned();
        msg.append(" musí být mezi 0 a 100");
        Err(msg)
    } else {
        Ok(())
    }
}

/// Validates a priority rank.
pub fn validate_priority(priority: i32) -> (r: Result<(), String>)
    ensures
        r is Ok <==> 1 <= priority <= 10,
{
    if priority < 1 || priority > 10 {
        Err("Priorita musí být mezi 1 a 10".to_owned())
    } else {
        Ok(())
    }
}

/// Validates an optional date range: when both ends are given, the start
/// must not come after the end.
pub fn validate_date_range(from_date: Option<Date>, to_date: Option<Date>) -> (r: Result<
    (),
    String,
>)
    requires
        from_date matches Some(d) ==> date_valid(d),
        to_date matches Some(d) ==> date_valid(d),
    ensures
        r is Ok <==> (match (from_date, to_date) {
            (Some(a), Some(b)) => day_number(a) <= day_number(b),
            _ => true,
        }),
{
    match (from_date, to_date) {
        (Some(a), Some(b)) => {
            let x = crate::dates::day_number_exec(a);
            let y = crate::dates::day_number_exec(b);
            if x > y {
                Err("Datum 'od' nemůže být později než datum 'do'".to_owned())
            } else {
                Ok(())
            }
        },
        _ => Ok(()),
    }
}

/// Whether an optional textual date range is acceptable: absent ends are
/// fine; a present end must be a real `YYYY-MM-DD` date, and two present
/// ends must be in order.
pub fn is_valid_date_range(from_date: Option<String>, to_date: Option<String>) -> (r: bool)
    ensures
        r == (match (crate::ops::ostr(from_date), crate::ops::ostr(to_date)) {
            (Some(f), Some(t)) => match (spec_parse_ymd(f, '-'), spec_parse_ymd(t, '-')) {
                (Some(a), Some(b)) => day_number(a) <= day_number(b),
                _ => false,
            },
            (Some(f), None) => spec_parse_ymd(f, '-') is Some,
            (None, Some(t)) => spec_parse_ymd(t, '-') is Some,
            (None, None) => true,
        }),
{
    match (from_date, to_date) {
        (Some(f), Some(t)) => {
            let a = match parse_date(f.as_str()) {
                Ok(d) => d,
                Err(_) => {
                    return false;
                },
            };
            let b = match parse_date(t.as_str()) {
                Ok(d) => d,
                Err(_) => {
                    return false;
                },
            };
            crate::dates::day_number_exec(a) <= crate::dates::day_number_exec(b)
        },
        (Some(f), None) => parse_date(f.as_str()).is_ok(),
        (None, Some(t)) => parse_date(t.as_str()).is_ok(),
        (None, None) => true,
    }
}

/// Whether a page size is acceptable.
pub fn is_valid_limit(limit: i32) -> (r: bool)
    ensures
        r == (1 <= limit <= 100),
{
    1 <= limit && limit <= 100
}

/// Whether a page offset is acceptable.
pub fn is_valid_offset(offset: i32) -> (r: bool)
    ensures
        r == (offset >= 0),
{
    offset >= 0
}

/// Whether a completion ratio is acceptable.
pub fn is_valid_done_ratio(ratio: i32) -> (r: bool)
    ensures
        r == (0 <= ratio <= 100),
{
    0 <= ratio && ratio <= 100
}

} // verus!

// ===== fractional hours =====

verus! {

/// The position of the first `.` at or after `i`, or the length when none.
pub open spec fn sp_first_dot(s: Seq<char>, i: int) -> int
    decreases s.len() - i,
{
    if 0 <= i && i < s.len() {
        if s[i] == '.' {
            i
        } else {
            sp_first_dot(s, i + 1)
        }
    } else {
        s.len() as int
    }
}

/// Every character in the range is a decimal digit.
pub open spec fn all_digits_range(s: Seq<char>, lo: int, hi: int) -> bool {
    forall|j: int| lo <= j < hi ==> crate::json::is_digit(#[trigger] s[j])
}

/// The thousandths of an hour a decimal lexeme names: an integer part of at
/// most five digits, optionally followed by a dot and one to three
/// fractional digits.
pub open spec fn spec_hours_milli(s: Seq<char>) -> Option<int> {
    let dot = sp_first_dot(s, 0);
    if dot == s.len() {
        if 1 <= s.len() <= 5 && all_digits_range(s, 0, s.len() as int) {
            Some(crate::dates::digits_value(s) * 1000)
        } else {
            None
        }
    } else {
        let frac_len = s.len() - dot - 1;
        if 1 <= dot <= 5 && 1 <= frac_len <= 3 && all_digits_range(s, 0, dot)
            && all_digits_range(s, dot + 1, s.len() as int) {
            Some(
                crate::dates::digits_value(s.subrange(0, dot)) * 1000 + crate::dates::digits_value(
                    s.subrange(dot + 1, s.len() as int),
                ) * (if frac_len == 1 {
                    100int
                } else if frac_len == 2 {
                    10int
                } else {
                    1int
                }),
            )
        } else {
            None
        }
    }
}

fn find_first_dot(chars: &Vec<char>, i: usize) -> (r: usize)
    requires
        i <= chars@.len(),
    ensures
        r as int == sp_first_dot(chars@, i as int),
        i <= r <= chars@.len(),
    decreases chars@.len() - i,
{
    if i < chars.len() {
        if chars[i] == '.' {
            i
        } else {
            find_first_dot(chars, i + 1)
        }
    } else {
        chars.len()
    }
}

fn read_digit_run(chars: &Vec<char>, lo: usize, hi: usize) -> (r: Option<u64>)
    requires
        lo <= hi <= chars@.len(),
        hi - lo <= 5,
    ensures
        match r {
            Some(v) => all_digits_range(chars@, lo as int, hi as int) && v as int
                == crate::dates::digits_value(chars@.subrange(lo as int, hi as int)) && v < 100000,
            None => !all_digits_range(chars@, lo as int, hi as int),
        },
{
    let mut v: u64 = 0;
    let mut i: usize = lo;
    while i < hi
        invariant
            lo <= i <= hi <= chars@.len(),
            hi - lo <= 5,
            v as int == crate::dates::digits_value(chars@.subrange(lo as int, i as int)),
            v < 100000,
            forall|j: int| lo <= j < i ==> crate::json::is_digit(#[trigger] chars@[j]),
        decreases hi - i,
    {
        let c = chars[i];
        if !('0' <= c && c <= '9') {
            proof {
                assert(!crate::json::is_digit(chars@[i as int]));
            }
            return None;
        }
        proof {
            assert(chars@.subrange(lo as int, i + 1 as int).drop_last() =~= chars@.subrange(
                lo as int,
                i as int,
            ));
            assert(chars@.subrange(lo as int, i + 1 as int).last() == chars@[i as int]);
            assert(v < 10000) by {
                lemma_digit_run_bound(chars@.subrange(lo as int, i as int));
            }
        }
        v = v * 10 + ((c as u32) as u64 - 48);
        i = i + 1;
    }
    Some(v)
}

/// A run of digits names a number below ten to its length.
proof fn lemma_digit_run_bound(s: Seq<char>)
    requires
        forall|j: int| 0 <= j < s.len() ==> crate::json::is_digit(#[trigger] s[j]),
    ensures
        0 <= crate::dates::digits_value(s),
        s.len() <= 1 ==> crate::dates::digits_value(s) < 10,
        s.len() <= 2 ==> crate::dates::digits_value(s) < 100,
        s.len() <= 3 ==> crate::dates::digits_value(s) < 1000,
        s.len() <= 4 ==> crate::dates::digits_value(s) < 10000,
    decreases s.len(),
{
    if s.len() > 0 {
        assert(forall|j: int|
            0 <= j < s.len() - 1 ==> crate::json::is_digit(#[trigger] s.drop_last()[j]));
        lemma_digit_run_bound(s.drop_last());
        assert(48 <= s.last() as int <= 57);
    }
}

/// Reads a decimal hours lexeme into thousandths of an hour.
pub fn hours_lexeme_milli(lexeme: &str) -> (r: Option<i64>)
    ensures
        match r {
            Some(v) => spec_hours_milli(lexeme@) == Some(v as int),
            None => spec_hours_milli(lexeme@) is None,
        },
{
    let chars = crate::text::str_to_chars(lexeme);
    let n = chars.len();
    let dot = find_first_dot(&chars, 0);
    if dot == n {
        if !(1 <= n && n <= 5) {
            return None;
        }
        match read_digit_run(&chars, 0, n) {
            Some(v) => {
                proof {
                    assert(chars@.subrange(0, n as int) =~= chars@);
                }
                Some((v * 1000) as i64)
            },
            None => None,
        }
    } else {
        if !(1 <= dot && dot <= 5) {
            return None;
        }
        let frac_len = n - dot - 1;
        if !(1 <= frac_len && frac_len <= 3) {
            return None;
        }
        let whole = match read_digit_run(&chars, 0, dot) {
            Some(v) => v,
            None => {
                return None;
            },
        };
        let frac = match read_digit_run(&chars, dot + 1, n) {
            Some(v) => v,
            None => {
                return None;
            },
        };
        let scale: u64 = if frac_len == 1 {
            100
        } else if frac_len == 2 {
            10
        } else {
            1
        };
        Some((whole * 1000 + frac * scale) as i64)
    }
}

} // verus!
