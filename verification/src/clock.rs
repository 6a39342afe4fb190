//! Readings of the surroundings that a header refresh shows: the local time,
//! the local date and the working directory.
//!
//! The clock is read once, as numbers. Turning the numbers into the text of
//! the clock and date regions is a step of its own, with an exact contract.

use vstd::prelude::*;

verus! {

/// Pattern of the clock region: hours, minutes and seconds.
pub const CLOCK_PATTERN: &'static str = "%H:%M:%S";

/// Pattern of the date region: day, month and year.
pub const DATE_PATTERN: &'static str = "%d/%m/%Y";

/// A local date and time of day, as numbers.
#[derive(Clone, Copy, Debug, PartialEq, Eq, Structural)]
pub struct LocalMoment {
    /// Year of the calendar; 1 BCE is year 0.
    pub year: i32,
    /// Month of the year, 1 to 12.
    pub month: u32,
    /// Day of the month, starting at 1.
    pub day: u32,
    /// Hour of the day, 0 to 23.
    pub hour: u32,
    /// Minute of the hour, 0 to 59.
    pub minute: u32,
    /// Second of the minute, 0 to 59.
    pub second: u32,
}

/// Whether `year` is a leap year of the Gregorian calendar.
pub open spec fn leap_year(year: int) -> bool {
    year % 4 == 0 && (year % 100 != 0 || year % 400 == 0)
}

/// Number of days of `month` in `year`; 0 where there is no such month.
pub open spec fn days_in_month(year: int, month: int) -> int {
    if month == 4 || month == 6 || month == 9 || month == 11 {
        30
    } else if month == 2 {
        if leap_year(year) {
            29
        } else {
            28
        }
    } else if 1 <= month <= 12 {
        31
    } else {
        0
    }
}

/// Whether the hour, minute and second are those of a time of day.
pub open spec fn time_in_range(m: LocalMoment) -> bool {
    m.hour < 24 && m.minute < 60 && m.second < 60
}

/// Whether the month and day name a day that the calendar has in that year.
pub open spec fn date_exists(m: LocalMoment) -> bool {
    1 <= m.month <= 12 && 1 <= m.day <= days_in_month(m.year as int, m.month as int)
}

/// Whether the date can be shown: the day exists and the year has at most
/// four digits.
pub open spec fn date_in_range(m: LocalMoment) -> bool {
    date_exists(m) && 0 <= m.year <= 9999
}

/// The character of a decimal digit.
pub open spec fn digit_char(d: int) -> char {
    if d == 0 {
        '0'
    } else if d == 1 {
        '1'
    } else if d == 2 {
        '2'
    } else if d == 3 {
        '3'
    } else if d == 4 {
        '4'
    } else if d == 5 {
        '5'
    } else if d == 6 {
        '6'
    } else if d == 7 {
        '7'
    } else if d == 8 {
        '8'
    } else {
        '9'
    }
}

/// A number below 100 as two digits, with a leading zero where needed.
pub open spec fn two_digits(n: int) -> Seq<char> {
    seq![digit_char(n / 10), digit_char(n % 10)]
}

/// A number below 10000 as four digits, with leading zeros where needed.
pub open spec fn four_digits(n: int) -> Seq<char> {
    two_digits(n / 100) + two_digits(n % 100)
}

/// The clock as text: hour of 24, minute and second, two digits each, with
/// colons between them.
pub open spec fn clock_digits(hour: int, minute: int, second: int) -> Seq<char> {
    two_digits(hour) + seq![':'] + two_digits(minute) + seq![':'] + two_digits(second)
}

/// The date as text: day and month, two digits each, and the year in four,
/// with slashes between them.
pub open spec fn date_digits(year: int, month: int, day: int) -> Seq<char> {
    two_digits(day) + seq!['/'] + two_digits(month) + seq!['/'] + four_digits(year)
}

/// The text of the clock region for a moment; none where the moment holds no
/// time of day.
pub open spec fn clock_text_spec(m: LocalMoment) -> Option<Seq<char>> {
    if time_in_range(m) {
        Some(clock_digits(m.hour as int, m.minute as int, m.second as int))
    } else {
        None
    }
}

/// The text of the date region for a moment; none where the day does not
/// exist or the year does not fit in four digits.
pub open spec fn date_text_spec(m: LocalMoment) -> Option<Seq<char>> {
    if date_in_range(m) {
        Some(date_digits(m.year as int, m.month as int, m.day as int))
    } else {
        None
    }
}

/// Trusted: the current local time, `chrono::Local::now()`, read field by
/// field through chrono's `Datelike` and `Timelike`.
///
/// The contract claims what holds of every reading: the day exists in the
/// calendar, and hour, minute and second are those of a time of day. Nothing
/// is claimed of the year. chrono itself panics if the system clock stands
/// before 1970, or if it cannot find the offset of the local time zone.
#[verifier::external_body]
fn local_now() -> (m: LocalMoment)
    ensures
        date_exists(m),
        time_in_range(m),
{
    let now = chrono::Local::now();
    LocalMoment {
        year: chrono::Datelike::year(&now),
        month: chrono::Datelike::month(&now),
        day: chrono::Datelike::day(&now),
        hour: chrono::Timelike::hour(&now),
        minute: chrono::Timelike::minute(&now),
        second: chrono::Timelike::second(&now),
    }
}

/// Trusted: a time of day built by `chrono::NaiveTime::from_hms_opt` and
/// rendered by `NaiveTime::format` with the clock pattern.
///
/// chrono accepts every hour below 24 with minute and second below 60, and
/// writes each of the three as two digits padded with a zero.
#[verifier::external_body]
fn render_time(m: &LocalMoment, pattern: &str) -> (text: Option<String>)
    requires
        time_in_range(*m),
        pattern@ == CLOCK_PATTERN@,
    ensures
        text is Some,
        text matches Some(t) ==> Some(t@) == clock_text_spec(*m),
{
    match chrono::NaiveTime::from_hms_opt(m.hour, m.minute, m.second) {
        Some(time) => Some(time.format(pattern).to_string()),
        None => None,
    }
}

/// Trusted: a date built by `chrono::NaiveDate::from_ymd_opt` and rendered by
/// `NaiveDate::format` with the date pattern.
///
/// chrono accepts every day that exists in the Gregorian calendar in the
/// years 0 to 9999, writes day and month as two digits padded with a zero,
/// and writes such a year as four.
#[verifier::external_body]
fn render_date(m: &LocalMoment, pattern: &str) -> (text: Option<String>)
    requires
        date_in_range(*m),
        pattern@ == DATE_PATTERN@,
    ensures
        text is Some,
        text matches Some(t) ==> Some(t@) == date_text_spec(*m),
{
    match chrono::NaiveDate::from_ymd_opt(m.year, m.month, m.day) {
        Some(date) => Some(date.format(pattern).to_string()),
        None => None,
    }
}

/// Whether `year`, not negative, is a leap year.
fn is_leap_year(year: i32) -> (b: bool)
    requires
        0 <= year,
    ensures
        b == leap_year(year as int),
{
    year % 4 == 0 && (year % 100 != 0 || year % 400 == 0)
}

/// Number of days of `month` in `year`.
fn month_length(year: i32, month: u32) -> (n: u32)
    requires
        0 <= year,
    ensures
        n == days_in_month(year as int, month as int),
{
    if month == 4 || month == 6 || month == 9 || month == 11 {
        30
    } else if month == 2 {
        if is_leap_year(year) {
            29
        } else {
            28
        }
    } else if 1 <= month && month <= 12 {
        31
    } else {
        0
    }
}

/// The text of the clock region for `m`: see [`clock_text_spec`].
pub fn clock_text(m: &LocalMoment) -> (text: Option<String>)
    ensures
        text is Some <==> time_in_range(*m),
        text matches Some(t) ==> Some(t@) == clock_text_spec(*m),
{
    if m.hour < 24 && m.minute < 60 && m.second < 60 {
        render_time(m, CLOCK_PATTERN)
    } else {
        None
    }
}

/// The text of the date region for `m`: see [`date_text_spec`].
pub fn date_text(m: &LocalMoment) -> (text: Option<String>)
    ensures
        text is Some <==> date_in_range(*m),
        text matches Some(t) ==> Some(t@) == date_text_spec(*m),
{
    if 0 <= m.year && m.year <= 9999 && 1 <= m.month && m.month <= 12 && 1 <= m.day && m.day
        <= month_length(m.year, m.month) {
        render_date(m, DATE_PATTERN)
    } else {
        None
    }
}

/// What a header refresh puts on the display.
#[derive(Debug, PartialEq, Eq)]
pub struct Readings {
    /// Local date and time of day.
    pub moment: LocalMoment,
    /// Working directory of the process.
    pub path: String,
}

/// Mathematical model of [`Readings`].
pub struct ReadingsView {
    /// Local date and time of day.
    pub moment: LocalMoment,
    /// Working directory of the process.
    pub path: Seq<char>,
}

impl View for Readings {
    type V = ReadingsView;

    open spec fn view(&self) -> ReadingsView {
        ReadingsView { moment: self.moment, path: self.path@ }
    }
}

/// Reads the clock, and joins the reading with the working directory that
/// the caller found. Of the moment read, the day exists and the time is a
/// time of day, so that the clock can always be shown, and the date in every
/// year of at most four digits.
pub fn take_readings(path: String) -> (r: Readings)
    ensures
        r@.path == path@,
        date_exists(r@.moment),
        time_in_range(r@.moment),
        clock_text_spec(r@.moment) is Some,
        0 <= r@.moment.year <= 9999 ==> date_text_spec(r@.moment) is Some,
{
    let moment = local_now();
    Readings { moment, path }
}

/// The text of a clock has eight characters: digits, with a colon in the
/// third and in the sixth place.
pub proof fn law_clock_text_shape(m: LocalMoment)
    requires
        time_in_range(m),
    ensures
        clock_text_spec(m) matches Some(t) && {
            &&& t.len() == 8
            &&& t[2] == ':'
            &&& t[5] == ':'
            &&& forall|i: int| 0 <= i < 8 && i != 2 && i != 5 ==> is_digit(#[trigger] t[i])
        },
{
    let t = clock_digits(m.hour as int, m.minute as int, m.second as int);
    assert(t =~= seq![
        digit_char(m.hour as int / 10),
        digit_char(m.hour as int % 10),
        ':',
        digit_char(m.minute as int / 10),
        digit_char(m.minute as int % 10),
        ':',
        digit_char(m.second as int / 10),
        digit_char(m.second as int % 10),
    ]);
}

/// The text of a date has ten characters: digits, with a slash in the third
/// and in the sixth place.
pub proof fn law_date_text_shape(m: LocalMoment)
    requires
        date_in_range(m),
    ensures
        date_text_spec(m) matches Some(t) && {
            &&& t.len() == 10
            &&& t[2] == '/'
            &&& t[5] == '/'
            &&& forall|i: int| 0 <= i < 10 && i != 2 && i != 5 ==> is_digit(#[trigger] t[i])
        },
{
    let y = m.year as int;
    let t = date_digits(y, m.month as int, m.day as int);
    assert(t =~= seq![
        digit_char(m.day as int / 10),
        digit_char(m.day as int % 10),
        '/',
        digit_char(m.month as int / 10),
        digit_char(m.month as int % 10),
        '/',
        digit_char(y / 100 / 10),
        digit_char(y / 100 % 10),
        digit_char(y % 100 / 10),
        digit_char(y % 100 % 10),
    ]);
}

/// Whether `c` is a decimal digit.
pub open spec fn is_digit(c: char) -> bool {
    '0' <= c <= '9'
}

} // verus!
