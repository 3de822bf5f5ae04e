//! Pairing dates: whole seconds in RFC 3339 text, and back.

use vstd::prelude::*;

verus! {

/// The last second that chrono's calendar holds: the end of the year 262142.
pub const LAST_SECOND: i64 = 8_210_266_876_799;

/// The first second that chrono's calendar holds: the beginning of the year -262143.
pub const FIRST_SECOND: i64 = -8_334_601_228_800;

/// The last second of the year 9999, the last one that RFC 3339 can write.
pub const LAST_RFC3339_SECOND: i64 = 253_402_300_799;

/// How dates are written: whole seconds, in UTC.
pub const RFC3339_PATTERN: &'static str = "%Y-%m-%dT%H:%M:%SZ";

/// The moment that an RFC 3339 text names: seconds since 1970 in UTC, and nanoseconds after that
/// second; `None` where the text is none.
pub uninterp spec fn rfc3339_moment(text: Seq<char>) -> Option<(int, int)>;

/// Two decimal digits.
pub open spec fn two_digits(n: int) -> Seq<char> {
    seq![crate::text::digit(n / 10), crate::text::digit(n % 10)]
}

/// The time of the day in the text of a moment, with the letters around it.
pub open spec fn clock_text(secs: int) -> Seq<char> {
    let s = secs % 86400;
    "T"@ + two_digits(s / 3600) + ":"@ + two_digits(s / 60 % 60) + ":"@ + two_digits(s % 60) + "Z"@
}

/// Whether a year of the Gregorian calendar has a 29th of February.
pub open spec fn is_leap(year: int) -> bool {
    year % 4 == 0 && (year % 100 != 0 || year % 400 == 0)
}

/// How many days a year has.
pub open spec fn days_in_year(year: int) -> int {
    if is_leap(year) {
        366
    } else {
        365
    }
}

/// How many days a month has, the first of which is January.
pub open spec fn days_in_month(year: int, month: int) -> int {
    if month == 2 {
        if is_leap(year) {
            29
        } else {
            28
        }
    } else if month == 4 || month == 6 || month == 9 || month == 11 {
        30
    } else {
        31
    }
}

/// The year, month and day so many days after the beginning of a month.
pub open spec fn date_from_month(days: int, year: int, month: int) -> (int, int, int)
    decreases 12 - month,
{
    if month >= 12 || days < days_in_month(year, month) {
        (year, month, days + 1)
    } else {
        date_from_month(days - days_in_month(year, month), year, month + 1)
    }
}

/// The year, month and day so many days after the beginning of a year.
pub open spec fn date_from_year(days: int, year: int) -> (int, int, int)
    decreases days,
{
    if days < days_in_year(year) {
        date_from_month(days, year, 1)
    } else {
        date_from_year(days - days_in_year(year), year + 1)
    }
}

/// A year of four digits as it is, and a later one with a plus sign before it.
pub open spec fn year_text(year: int) -> Seq<char> {
    if year <= 9999 {
        two_digits(year / 100) + two_digits(year % 100)
    } else {
        "+"@ + crate::text::decimal(year as nat)
    }
}

/// The date of a day, counted from the first of January 1970.
pub open spec fn date_text(days: int) -> Seq<char> {
    let (year, month, day) = date_from_year(days, 1970);
    year_text(year) + "-"@ + two_digits(month) + "-"@ + two_digits(day)
}

/// The text of a moment, in seconds since 1970 in UTC, as `RFC3339_PATTERN` has it.
pub open spec fn utc_text(secs: int) -> Seq<char> {
    date_text(secs / 86400) + clock_text(secs)
}

/// Whether chrono's calendar holds a moment: a second in its range and nanoseconds that stay below
/// one second, or below two where a leap second ends the minute.
pub open spec fn in_calendar(secs: int, nanos: int) -> bool {
    &&& FIRST_SECOND <= secs <= LAST_SECOND
    &&& 0 <= nanos
    &&& nanos < 1_000_000_000 || (nanos < 2_000_000_000 && secs % 60 == 59)
}

/// `DateTime::from_timestamp` and `DateTime::format` of chrono write the moment as the pattern
/// says: `%Y` is the year of the Gregorian calendar, in four digits or, past 9999, with a plus
/// sign; `%m` and `%d` are month and day, `%H`, `%M` and `%S` the time of the day. Through the year
/// 9999 `DateTime::parse_from_rfc3339` reads the text back as the same moment.
#[verifier::external_body]
fn format_utc(secs: i64, pattern: &str) -> (r: String)
    requires
        0 <= secs <= LAST_SECOND,
        pattern@ == RFC3339_PATTERN@,
    ensures
        r@ == utc_text(secs as int),
        secs <= LAST_RFC3339_SECOND ==> rfc3339_moment(r@) == Some((secs as int, 0int)),
{
    chrono::DateTime::from_timestamp(secs, 0).unwrap().format(pattern).to_string()
}

/// `DateTime::parse_from_rfc3339` of chrono reads an RFC 3339 text, or fails; what it reads is a
/// moment of chrono's calendar.
#[verifier::external_body]
pub(crate) fn parse_rfc3339(text: &str) -> (r: Option<(i64, u32)>)
    ensures
        match r {
            Some((secs, nanos)) => {
                &&& rfc3339_moment(text@) == Some((secs as int, nanos as int))
                &&& in_calendar(secs as int, nanos as int)
            },
            None => rfc3339_moment(text@) is None,
        },
{
    match chrono::DateTime::parse_from_rfc3339(text) {
        Ok(dt) => Some((dt.timestamp(), dt.timestamp_subsec_nanos())),
        Err(_) => None,
    }
}

/// The whole seconds of a moment given in nanoseconds since 1970; a moment before 1970 counts as
/// its beginning.
pub open spec fn whole_seconds(nanos: int) -> int {
    if nanos < 0 {
        0
    } else {
        nanos / 1_000_000_000
    }
}

/// The RFC 3339 text of a moment, given in nanoseconds since 1970, cut to whole seconds: Apple's
/// plist reader rejects fractions.
pub fn rfc3339_secs(nanos: i128) -> (r: String)
    requires
        whole_seconds(nanos as int) <= LAST_SECOND,
    ensures
        r@ == utc_text(whole_seconds(nanos as int)),
        whole_seconds(nanos as int) <= LAST_RFC3339_SECOND ==> rfc3339_moment(r@) == Some(
            (whole_seconds(nanos as int), 0int),
        ),
{
    let secs: i64 = if nanos < 0 {
        0
    } else {
        (nanos / 1_000_000_000) as i64
    };
    format_utc(secs, RFC3339_PATTERN)
}

/// How many years before `year` have a 29th of February.
spec fn leap_years_before(year: int) -> int {
    (year - 1) / 4 - (year - 1) / 100 + (year - 1) / 400
}

/// How many days lie between the beginning of 1970 and that of `year`.
pub closed spec fn year_start(year: int) -> int {
    365 * (year - 1970) + leap_years_before(year) - leap_years_before(1970)
}

proof fn lemma_next_year(year: int)
    requires
        year >= 1970,
    ensures
        year_start(year + 1) == year_start(year) + days_in_year(year),
{
}

/// How many days of `year` lie before the beginning of `month`.
pub open spec fn month_start(year: int, month: int) -> int
    decreases month,
{
    if month <= 1 {
        0
    } else {
        month_start(year, month - 1) + days_in_month(year, month - 1)
    }
}

proof fn lemma_year_has_its_months(year: int)
    ensures
        month_start(year, 12) + 31 == days_in_year(year),
{
    reveal_with_fuel(month_start, 12);
}

proof fn lemma_date_from_month(days: int, year: int, month: int)
    requires
        1 <= month <= 12,
        0 <= days,
        month_start(year, month) + days < days_in_year(year),
    ensures
        ({
            let (y, m, d) = date_from_month(days, year, month);
            &&& y == year
            &&& 1 <= m <= 12
            &&& 1 <= d <= days_in_month(year, m)
            &&& month_start(year, m) + d - 1 == month_start(year, month) + days
        }),
    decreases 12 - month,
{
    lemma_year_has_its_months(year);
    if month < 12 && days >= days_in_month(year, month) {
        lemma_date_from_month(days - days_in_month(year, month), year, month + 1);
    }
}

proof fn lemma_date_from_year(days: int, year: int)
    requires
        0 <= days,
        1970 <= year,
    ensures
        ({
            let (y, m, d) = date_from_year(days, year);
            &&& y >= year
            &&& year_start(y) <= year_start(year) + days < year_start(y + 1)
            &&& 1 <= m <= 12
            &&& 1 <= d <= days_in_month(y, m)
            &&& year_start(y) + month_start(y, m) + d - 1 == year_start(year) + days
        }),
    decreases days,
{
    lemma_next_year(year);
    if days < days_in_year(year) {
        lemma_date_from_month(days, year, 1);
    } else {
        lemma_date_from_year(days - days_in_year(year), year + 1);
    }
}

/// The date of a day is a date of the calendar, and it is the one that lies so many days after the
/// beginning of 1970.
pub proof fn law_dates_count_the_days(days: int)
    requires
        0 <= days,
    ensures
        ({
            let (y, m, d) = date_from_year(days, 1970);
            &&& y >= 1970
            &&& 1 <= m <= 12
            &&& 1 <= d <= days_in_month(y, m)
            &&& year_start(y) + month_start(y, m) + d - 1 == days
        }),
{
    lemma_date_from_year(days, 1970);
}

/// Whether a text holds no dot.
spec fn plain(s: Seq<char>) -> bool {
    forall|i: int| 0 <= i < s.len() ==> #[trigger] s[i] != '.'
}

proof fn lemma_decimal_is_plain(n: nat)
    ensures
        plain(crate::text::decimal(n)),
    decreases n,
{
    if n >= 10 {
        lemma_decimal_is_plain(n / 10);
    }
}

/// The text of a date holds no fraction and ends with the letter for UTC. Through the year 9999 it
/// has twenty characters, the last ten of which are the time of the day.
pub proof fn law_no_fractional_seconds(secs: int)
    requires
        0 <= secs,
    ensures
        utc_text(secs).last() == 'Z',
        !utc_text(secs).contains('.'),
        secs <= LAST_RFC3339_SECOND ==> utc_text(secs).len() == 20 && utc_text(secs).skip(10)
            == clock_text(secs),
{
    reveal_strlit("T");
    reveal_strlit(":");
    reveal_strlit("Z");
    reveal_strlit("-");
    reveal_strlit("+");
    let days = secs / 86400;
    let (y, m, d) = date_from_year(days, 1970);
    lemma_date_from_year(days, 1970);
    lemma_decimal_is_plain(y as nat);
    assert(plain(year_text(y)));
    assert(plain(date_text(days)));
    assert(plain(clock_text(secs)));
    if secs <= LAST_RFC3339_SECOND {
        assert(y <= 9999) by {
            if y > 9999 {
                lemma_year_starts_in_order(10000, y);
            }
        }
        assert(utc_text(secs).skip(10) =~= clock_text(secs));
    }
}

proof fn lemma_year_starts_in_order(a: int, b: int)
    requires
        1970 <= a <= b,
    ensures
        year_start(a) <= year_start(b),
    decreases b - a,
{
    if a < b {
        lemma_next_year(a);
        lemma_year_starts_in_order(a + 1, b);
    }
}

/// A moment is cut to the second in which it lies; one before 1970 counts as its beginning.
pub proof fn law_moments_are_cut_to_their_second(nanos: int)
    ensures
        nanos >= 0 ==> whole_seconds(nanos) * 1_000_000_000 <= nanos < (whole_seconds(nanos) + 1)
            * 1_000_000_000,
        nanos < 0 ==> whole_seconds(nanos) == 0,
{
}

/// The time of the day in the text of a moment is that of the seconds since midnight: its digits
/// stand for the hour, the minute and the second, in their places.
pub proof fn law_the_clock_counts_the_seconds(secs: int)
    requires
        0 <= secs,
    ensures
        ({
            let clock = utc_text(secs).skip(utc_text(secs).len() - 10);
            let two = |at: int|
                10 * (clock[at] as int - 0x30) + (clock[at + 1] as int - 0x30);
            &&& utc_text(secs).len() >= 20
            &&& clock[0] == 'T' && clock[3] == ':' && clock[6] == ':' && clock[9] == 'Z'
            &&& 3600 * two(1) + 60 * two(4) + two(7) == secs % 86400
            &&& 0 <= two(4) < 60 && 0 <= two(7) < 60
        }),
{
    reveal_strlit("T");
    reveal_strlit(":");
    reveal_strlit("Z");
    reveal_strlit("-");
    reveal_strlit("+");
    let days = secs / 86400;
    lemma_date_from_year(days, 1970);
    let (y, m, d) = date_from_year(days, 1970);
    if y > 9999 {
        reveal_with_fuel(vstd::arithmetic::power::pow, 5);
        lemma_long_decimal(y as nat, 10000, 5);
    }
    assert(date_text(days).len() >= 10);
    assert(utc_text(secs).skip(utc_text(secs).len() - 10) =~= clock_text(secs));
}

/// The date in the text of a moment is the day's: its digits stand for a year, a month and a day of
/// the calendar that lie so many days after the beginning of 1970.
pub proof fn law_the_date_counts_the_days(secs: int)
    requires
        0 <= secs <= LAST_RFC3339_SECOND,
    ensures
        ({
            let text = utc_text(secs);
            let two = |at: int| 10 * (text[at] as int - 0x30) + (text[at + 1] as int - 0x30);
            let (y, m, d) = (100 * two(0) + two(2), two(5), two(8));
            &&& text.len() == 20 && text[4] == '-' && text[7] == '-'
            &&& 1 <= m <= 12
            &&& 1 <= d <= days_in_month(y, m)
            &&& year_start(y) + month_start(y, m) + d - 1 == secs / 86400
        }),
{
    law_no_fractional_seconds(secs);
    reveal_strlit("-");
    let days = secs / 86400;
    lemma_date_from_year(days, 1970);
    let (y, m, d) = date_from_year(days, 1970);
    assert(y <= 9999) by {
        if y > 9999 {
            lemma_year_starts_in_order(10000, y);
        }
    }
    let text = utc_text(secs);
    assert(text[0] == two_digits(y / 100)[0] && text[1] == two_digits(y / 100)[1]);
    assert(text[2] == two_digits(y % 100)[0] && text[3] == two_digits(y % 100)[1]);
    assert(text[5] == two_digits(m)[0] && text[6] == two_digits(m)[1]);
    assert(text[8] == two_digits(d)[0] && text[9] == two_digits(d)[1]);
}

/// The calendar is the Gregorian one: a year has 365 days, and one more every fourth year, but for
/// the centuries that four hundred does not divide; the months have the days that they have.
pub proof fn law_the_calendar_is_gregorian(year: int, month: int)
    requires
        1970 <= year,
        1 <= month <= 12,
    ensures
        year_start(1970) == 0,
        year_start(year + 1) - year_start(year) == (if year % 400 == 0 || (year % 4 == 0 && year
            % 100 != 0) {
            366int
        } else {
            365
        }),
        month_start(year, 1) == 0,
        month_start(year, month + 1) - month_start(year, month) == days_in_month(year, month),
        days_in_month(year, month) == seq![
            31int,
            year_start(year + 1) - year_start(year) - 337,
            31,
            30,
            31,
            30,
            31,
            31,
            30,
            31,
            30,
            31,
        ][month - 1],
{
    lemma_next_year(year);
}

proof fn lemma_long_decimal(n: nat, least: nat, len: nat)
    requires
        n >= least,
        len > 0,
        least == vstd::arithmetic::power::pow(10, (len - 1) as nat),
    ensures
        crate::text::decimal(n).len() >= len,
    decreases len,
{
    if len > 1 {
        reveal(vstd::arithmetic::power::pow);
        let tenth = vstd::arithmetic::power::pow(10, (len - 2) as nat);
        assert(least == 10 * tenth);
        vstd::arithmetic::power::lemma_pow_positive(10, (len - 2) as nat);
        lemma_long_decimal(n / 10, tenth as nat, (len - 1) as nat);
    } else {
        crate::text::law_decimal_writes_the_number(n);
    }
}

/// A year after 9999 is written with all of its digits after a plus sign: these digits, and those
/// of the month and the day, still stand for the date that lies so many days after the beginning of
/// 1970.
pub proof fn law_later_dates_carry_a_plus_sign(secs: int)
    requires
        secs > LAST_RFC3339_SECOND,
    ensures
        ({
            let text = utc_text(secs);
            let n = text.len() as int;
            let two = |at: int| 10 * (text[at] as int - 0x30) + (text[at + 1] as int - 0x30);
            let digits = text.subrange(1, n - 16);
            let y = crate::text::digits_value(digits) as int;
            let (m, d) = (two(n - 15), two(n - 12));
            &&& n >= 22
            &&& text[0] == '+' && text[n - 16] == '-' && text[n - 13] == '-'
            &&& digits == crate::text::decimal(y as nat)
            &&& y > 9999
            &&& 1 <= m <= 12
            &&& 1 <= d <= days_in_month(y, m)
            &&& year_start(y) + month_start(y, m) + d - 1 == secs / 86400
        }),
{
    reveal_strlit("T");
    reveal_strlit(":");
    reveal_strlit("Z");
    reveal_strlit("-");
    reveal_strlit("+");
    let days = secs / 86400;
    lemma_date_from_year(days, 1970);
    let (y, m, d) = date_from_year(days, 1970);
    assert(y > 9999) by {
        if y <= 9999 {
            lemma_year_starts_in_order(y + 1, 10000);
        }
    }
    let year = crate::text::decimal(y as nat);
    crate::text::law_decimal_writes_the_number(y as nat);
    reveal_with_fuel(vstd::arithmetic::power::pow, 5);
    lemma_long_decimal(y as nat, 10000, 5);
    let text = utc_text(secs);
    let n = text.len() as int;
    assert(n == year.len() + 17);
    assert(text.subrange(1, n - 16) =~= year);
    assert(text[n - 15] == two_digits(m)[0] && text[n - 14] == two_digits(m)[1]);
    assert(text[n - 12] == two_digits(d)[0] && text[n - 11] == two_digits(d)[1]);
}

} // verus!
