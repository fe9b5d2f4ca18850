//! Human-readable UTC timestamps (`YYYY-MM-DD HH:MM:SS`) computed from a
//! count of seconds since the Unix epoch, without any calendar library.
use vstd::prelude::*;

verus! {

pub const SECS_PER_DAY: u64 = 86400;

pub const EPOCH_YEAR: u64 = 1970;

/// Whether `year` is a leap year of the Gregorian calendar.
pub open spec fn is_leap_year(year: int) -> bool {
    year % 4 == 0 && (year % 100 != 0 || year % 400 == 0)
}

/// Number of days in `year`.
pub open spec fn days_in_year(year: int) -> int {
    if is_leap_year(year) {
        366
    } else {
        365
    }
}

/// Length of month `month` (1 = January).
pub open spec fn days_in_month(month: int, leap: bool) -> int {
    if month == 2 {
        if leap {
            29
        } else {
            28
        }
    } else if month == 4 || month == 6 || month == 9 || month == 11 {
        30
    } else {
        31
    }
}

/// Starting in `year`, skips whole years while `days` covers them: the
/// year that day number `days` falls in, and its offset within that year.
pub open spec fn year_and_offset(days: int, year: int) -> (int, int)
    decreases days,
{
    if days < days_in_year(year) || days < 0 {
        (year, days)
    } else {
        year_and_offset(days - days_in_year(year), year + 1)
    }
}

/// Starting in `month`, skips whole months while `offset` covers them
/// (never past December): the month and the offset within it.
pub open spec fn month_and_offset(offset: int, month: int, leap: bool) -> (int, int)
    decreases 12 - month,
{
    if month >= 12 || offset < days_in_month(month, leap) {
        (month, offset)
    } else {
        month_and_offset(offset - days_in_month(month, leap), month + 1, leap)
    }
}

/// The calendar date (year, month, day of month) of the day that lies
/// `days` days after 1970-01-01.
pub open spec fn civil_date(days: nat) -> (int, int, int) {
    let (year, offset) = year_and_offset(days as int, EPOCH_YEAR as int);
    let (month, rest) = month_and_offset(offset, 1, is_leap_year(year));
    (year, month, rest + 1)
}

/// The decimal digit character for `d` (0 to 9).
pub open spec fn digit_char(d: int) -> char {
    "0123456789"@[d]
}

/// Decimal digits of `n`, left-padded with zeros to at least `width` digits.
pub open spec fn padded_decimal(n: nat, width: nat) -> Seq<char>
    decreases n, width,
{
    if n < 10 && width <= 1 {
        seq![digit_char(n as int)]
    } else {
        padded_decimal(n / 10, if width > 0 { (width - 1) as nat } else { 0 }).push(
            digit_char((n % 10) as int),
        )
    }
}

/// The text `YYYY-MM-DD HH:MM:SS` (UTC) of the instant `secs` seconds after
/// the Unix epoch.
pub open spec fn timestamp_text(secs: nat) -> Seq<char> {
    let (year, month, day) = civil_date(secs / 86400);
    let rest = secs % 86400;
    padded_decimal(year as nat, 4) + "-"@ + padded_decimal(month as nat, 2) + "-"@
        + padded_decimal(day as nat, 2) + " "@ + padded_decimal(rest / 3600, 2) + ":"@
        + padded_decimal((rest % 3600) / 60, 2) + ":"@ + padded_decimal(rest % 60, 2)
}

/// Whether `year` is a leap year: divisible by 4, and either not by 100 or
/// by 400.
pub fn leap_year(year: u64) -> (r: bool)
    ensures
        r == is_leap_year(year as int),
{
    year % 4 == 0 && (year % 100 != 0 || year % 400 == 0)
}

/// Number of days in `year`.
pub fn year_length(year: u64) -> (r: u64)
    ensures
        r as int == days_in_year(year as int),
{
    if leap_year(year) {
        366
    } else {
        365
    }
}

/// Number of days of month `month` (1 = January) in a leap or common year.
pub fn month_length(month: u64, leap: bool) -> (r: u64)
    ensures
        r as int == days_in_month(month as int, leap),
{
    if month == 2 {
        if leap {
            29
        } else {
            28
        }
    } else if month == 4 || month == 6 || month == 9 || month == 11 {
        30
    } else {
        31
    }
}

/// Splits a day count since 1970-01-01 into (year, month, day of month).
pub fn civil_from_days(days: u64) -> (r: (u64, u64, u64))
    ensures
        (r.0 as int, r.1 as int, r.2 as int) == civil_date(days as nat),
{
    let mut year: u64 = EPOCH_YEAR;
    let mut rem: u64 = days;
    while rem >= year_length(year)
        invariant
            year_and_offset(days as int, EPOCH_YEAR as int) == year_and_offset(rem as int, year as int),
            EPOCH_YEAR <= year,
            (year - EPOCH_YEAR) * 365 <= days - rem,
            rem <= days,
        decreases rem,
    {
        rem = rem - year_length(year);
        year = year + 1;
    }
    let leap = leap_year(year);
    let mut month: u64 = 1;
    while month < 12 && rem >= month_length(month, leap)
        invariant
            1 <= month <= 12,
            month_and_offset(year_and_offset(days as int, EPOCH_YEAR as int).1, 1, leap)
                == month_and_offset(rem as int, month as int, leap),
            leap == is_leap_year(year as int),
            rem < 366,
            year_and_offset(days as int, EPOCH_YEAR as int).0 == year as int,
        decreases 12 - month,
    {
        rem = rem - month_length(month, leap);
        month = month + 1;
    }
    (year, month, rem + 1)
}

/// Appends the decimal digits of `n` to `out`, left-padded with zeros to at
/// least `width` digits.
pub fn push_padded_decimal(out: &mut String, n: u64, width: u64)
    ensures
        final(out)@ == old(out)@ + padded_decimal(n as nat, width as nat),
    decreases n, width,
{
    let digits = "0123456789";
    proof {
        reveal_strlit("0123456789");
    }
    if !(n < 10 && width <= 1) {
        let rest_width: u64 = if width > 0 {
            width - 1
        } else {
            0
        };
        push_padded_decimal(out, n / 10, rest_width);
    }
    let d = (n % 10) as usize;
    let digit = digits.substring_char(d, d + 1);
    assert(digit@ =~= seq![digit_char(d as int)]);
    out.append(digit);
    assert(final(out)@ =~= old(out)@ + padded_decimal(n as nat, width as nat));
}

/// Formats `secs` seconds after the Unix epoch as `YYYY-MM-DD HH:MM:SS` (UTC).
pub fn format_timestamp(secs: u64) -> (r: String)
    ensures
        r@ == timestamp_text(secs as nat),
{
    let (year, month, day) = civil_from_days(secs / SECS_PER_DAY);
    let rest = secs % SECS_PER_DAY;
    let mut out = String::new();
    push_padded_decimal(&mut out, year, 4);
    out.append("-");
    push_padded_decimal(&mut out, month, 2);
    out.append("-");
    push_padded_decimal(&mut out, day, 2);
    out.append(" ");
    push_padded_decimal(&mut out, rest / 3600, 2);
    out.append(":");
    push_padded_decimal(&mut out, (rest % 3600) / 60, 2);
    out.append(":");
    push_padded_decimal(&mut out, rest % 60, 2);
    assert(out@ =~= timestamp_text(secs as nat));
    out
}

/// Ten to the power `w`.
pub open spec fn pow10(w: nat) -> nat
    decreases w,
{
    if w == 0 {
        1
    } else {
        10 * pow10((w - 1) as nat)
    }
}

/// Days from the start of `month` to the end of the year.
pub open spec fn days_to_year_end(month: int, leap: bool) -> int
    decreases 12 - month,
{
    if month >= 12 {
        days_in_month(12, leap)
    } else {
        days_in_month(month, leap) + days_to_year_end(month + 1, leap)
    }
}

/// A number below `10^width` is written with exactly `width` digits.
proof fn lemma_padded_decimal_len(n: nat, width: nat)
    requires
        width >= 1,
        n < pow10(width),
    ensures
        padded_decimal(n, width).len() == width,
    decreases width,
{
    if !(n < 10 && width <= 1) {
        let p = pow10((width - 1) as nat);
        assert(width >= 2 || n < 10);
        assert(n / 10 < p) by (nonlinear_arith)
            requires
                n < 10 * p,
        ;
        lemma_padded_decimal_len(n / 10, (width - 1) as nat);
    }
}

proof fn lemma_year_and_offset_bounds(days: int, year: int)
    requires
        days >= 0,
    ensures
        year_and_offset(days, year).0 >= year,
        0 <= year_and_offset(days, year).1 < days_in_year(year_and_offset(days, year).0),
    decreases days,
{
    if days >= days_in_year(year) {
        lemma_year_and_offset_bounds(days - days_in_year(year), year + 1);
    }
}

proof fn lemma_month_and_offset_bounds(offset: int, month: int, leap: bool)
    requires
        1 <= month <= 12,
        0 <= offset < days_to_year_end(month, leap),
    ensures
        month <= month_and_offset(offset, month, leap).0 <= 12,
        0 <= month_and_offset(offset, month, leap).1 < days_in_month(
            month_and_offset(offset, month, leap).0,
            leap,
        ),
    decreases 12 - month,
{
    if month < 12 && offset >= days_in_month(month, leap) {
        lemma_month_and_offset_bounds(offset - days_in_month(month, leap), month + 1, leap);
    }
}

/// Up to the year 9999, a timestamp is 19 characters long, shaped
/// `YYYY-MM-DD HH:MM:SS`: digits, with `-` at 4 and 7, a space at 10 and `:`
/// at 13 and 16, and its month, day and time fields in their ranges.
pub proof fn lemma_timestamp_shape(secs: nat)
    requires
        civil_date(secs / 86400).0 <= 9999,
    ensures
        timestamp_text(secs).len() == 19,
        timestamp_text(secs)[4] == '-',
        timestamp_text(secs)[7] == '-',
        timestamp_text(secs)[10] == ' ',
        timestamp_text(secs)[13] == ':',
        timestamp_text(secs)[16] == ':',
        EPOCH_YEAR <= civil_date(secs / 86400).0,
        1 <= civil_date(secs / 86400).1 <= 12,
        1 <= civil_date(secs / 86400).2 <= 31,
{
    let days = secs / 86400;
    let (year, offset) = year_and_offset(days as int, EPOCH_YEAR as int);
    lemma_year_and_offset_bounds(days as int, EPOCH_YEAR as int);
    let leap = is_leap_year(year);
    reveal_with_fuel(days_to_year_end, 13);
    assert(days_to_year_end(1, leap) == days_in_year(year));
    lemma_month_and_offset_bounds(offset, 1, leap);
    let (month, rest) = month_and_offset(offset, 1, leap);
    let r = secs % 86400;
    reveal_with_fuel(pow10, 5);
    assert(pow10(2) == 100 && pow10(4) == 10000);
    lemma_padded_decimal_len(year as nat, 4);
    lemma_padded_decimal_len(month as nat, 2);
    lemma_padded_decimal_len((rest + 1) as nat, 2);
    lemma_padded_decimal_len(r / 3600, 2);
    lemma_padded_decimal_len((r % 3600) / 60, 2);
    lemma_padded_decimal_len(r % 60, 2);
    reveal_strlit("-");
    reveal_strlit(" ");
    reveal_strlit(":");
}

/// Relies on `std::time::SystemTime::now` and `duration_since(UNIX_EPOCH)`:
/// whole seconds since the Unix epoch, 0 for a clock set before it. The value
/// depends on the machine's clock, so nothing is promised of it.
#[verifier::external_body]
pub(crate) fn unix_time_secs() -> (r: u64) {
    std::time::SystemTime::now().duration_since(std::time::UNIX_EPOCH).unwrap_or_default().as_secs()
}

/// The current UTC time as `YYYY-MM-DD HH:MM:SS`.
pub fn chrono_lite_now() -> (r: String)
    ensures
        exists|secs: u64| r@ == timestamp_text(secs as nat),
{
    let secs = unix_time_secs();
    format_timestamp(secs)
}

} // verus!
