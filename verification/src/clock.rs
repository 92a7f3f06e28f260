//! Time of day, calendar dates and instants in the company's time zone.
//!
//! A `CompanyTime` holds, as plain values, what the rules read from a zoned
//! timestamp: the instant, and the wall-clock reading in the zone. The calendar
//! and the zone database are chrono's and chrono-tz's; they are reached through
//! the private functions at the end of this file, whose contracts are not proved.

use chrono::{Datelike, TimeZone, Timelike};
use vstd::prelude::*;

verus! {

/// A wall-clock reading without a zone: a calendar date and a time of day.
#[derive(Clone, Copy, Debug, PartialEq, Eq, Structural)]
pub struct CivilTime {
    pub year: i32,
    pub month: u32,
    pub day: u32,
    /// Seconds since local midnight, leap seconds not counted.
    pub second_of_day: u32,
    /// Nanoseconds since the last whole second; 1_000_000_000 and above
    /// within a leap second.
    pub nanos: u32,
}

/// An instant together with its wall-clock reading in the company's zone.
#[derive(Clone, Copy, Debug, PartialEq, Eq, Structural)]
pub struct CompanyTime {
    /// Whole seconds since 1970-01-01T00:00:00Z, leap seconds not counted.
    pub epoch_seconds: i64,
    pub local: CivilTime,
}

pub open spec fn is_leap_year(year: int) -> bool {
    year % 4 == 0 && (year % 100 != 0 || year % 400 == 0)
}

pub open spec fn days_in_month(year: int, month: int) -> int {
    if month == 2 {
        if is_leap_year(year) { 29 } else { 28 }
    } else if month == 4 || month == 6 || month == 9 || month == 11 {
        30
    } else {
        31
    }
}

/// The proleptic Gregorian dates that chrono's `NaiveDate` can hold.
pub open spec fn valid_civil_date(year: int, month: int, day: int) -> bool {
    &&& -262143 <= year <= 262142
    &&& 1 <= month <= 12
    &&& 1 <= day <= days_in_month(year, month)
}

/// The times of day that chrono's `NaiveTime` can hold.
pub open spec fn valid_time_of_day(second_of_day: int, nanos: int) -> bool {
    &&& 0 <= second_of_day < 86_400
    &&& 0 <= nanos < 2_000_000_000
    &&& nanos >= 1_000_000_000 ==> second_of_day % 60 == 59
}

/// Whether a year has a 29th of February.
pub fn leap_year(year: i32) -> (leap: bool)
    ensures
        leap == is_leap_year(year as int),
{
    year % 4 == 0 && (year % 100 != 0 || year % 400 == 0)
}

impl CompanyTime {
    /// The wall-clock reading is one that the calendar knows. Nothing ties
    /// the instant to the reading: that is the zone database's to say.
    pub open spec fn wf(&self) -> bool {
        self.local.wf()
    }
}

impl CivilTime {
    /// The reading names a date and a time that the calendar knows.
    pub open spec fn wf(&self) -> bool {
        &&& valid_civil_date(self.year as int, self.month as int, self.day as int)
        &&& valid_time_of_day(self.second_of_day as int, self.nanos as int)
    }

    /// Whether the reading names a date and a time that the calendar knows.
    pub fn is_valid(&self) -> (valid: bool)
        ensures
            valid == self.wf(),
    {
        if self.year < -262143 || self.year > 262142 || self.month < 1 || self.month > 12 || self.day < 1 {
            return false;
        }
        let days: u32 = if self.month == 2 {
            if leap_year(self.year) {
                29
            } else {
                28
            }
        } else if self.month == 4 || self.month == 6 || self.month == 9 || self.month == 11 {
            30
        } else {
            31
        };
        self.day <= days && self.second_of_day < 86_400 && self.nanos < 2_000_000_000 && (self.nanos
            < 1_000_000_000 || self.second_of_day % 60 == 59)
    }
}

/// The zone that stands in where a zone name is not in the database.
pub open spec fn fallback_zone() -> Seq<char> {
    "Asia/Shanghai"@
}

/// The pattern of stored timestamps: date, a space, time to the second.
pub open spec fn storage_pattern() -> Seq<char> {
    "%Y-%m-%d %H:%M:%S"@
}

/// The pattern of query bounds: date, the letter T, time to the second.
pub open spec fn bound_pattern() -> Seq<char> {
    "%Y-%m-%dT%H:%M:%S"@
}

/// The time of day that a rule's text names, in seconds since midnight:
/// hours, minutes and seconds, or hours and minutes alone.
pub open spec fn time_of_day(text: Seq<char>) -> Option<u32> {
    match naive_time_parse(text, "%H:%M:%S"@) {
        Some(second) => Some(second),
        None => naive_time_parse(text, "%H:%M"@),
    }
}

/// The patterns that `parse_time` tries, in this order.
pub open spec fn datetime_pattern(index: int) -> Seq<char> {
    if index == 0 {
        "%Y-%m-%d %H:%M:%S"@
    } else if index == 1 {
        "%Y-%m-%dT%H:%M:%S"@
    } else if index == 2 {
        "%Y-%m-%d %H:%M:%S%.f"@
    } else {
        "%Y-%m-%dT%H:%M:%S%.f"@
    }
}

/// The patterns in which times are written.
pub open spec fn render_pattern(pattern: Seq<char>) -> bool {
    pattern == storage_pattern() || pattern == bound_pattern()
}

/// The zone whose clocks a rule is read by: the one named where the database
/// has it, the fallback zone otherwise.
pub open spec fn effective_zone(zone: Seq<char>) -> Seq<char> {
    if zone_is_known(zone) {
        zone
    } else {
        fallback_zone()
    }
}

/// The quotient rounded toward zero, for a positive divisor.
pub open spec fn toward_zero(n: int, d: int) -> int {
    if n >= 0 {
        n / d
    } else {
        -((-n) / d)
    }
}

/// The leap second that chrono counts when one of the two readings lies
/// inside one: a leap second at `start` that `end` has passed within the UTC
/// day adds a second, one at `end` that `start` has passed takes one away.
pub open spec fn leap_adjustment(start: CompanyTime, end: CompanyTime) -> int {
    let s = start.epoch_seconds as int % 86_400;
    let e = end.epoch_seconds as int % 86_400;
    if e > s && start.local.nanos >= 1_000_000_000 {
        1
    } else if e < s && end.local.nanos >= 1_000_000_000 {
        -1
    } else {
        0
    }
}

/// Nanoseconds from `start` to `end`; negative where `end` is the earlier.
pub open spec fn elapsed_nanos(start: CompanyTime, end: CompanyTime) -> int {
    (end.epoch_seconds - start.epoch_seconds + leap_adjustment(start, end)) * 1_000_000_000 + (
    end.local.nanos - start.local.nanos)
}

/// Whole minutes from `start` to `end`, rounded toward zero.
pub open spec fn elapsed_minutes(start: CompanyTime, end: CompanyTime) -> int {
    toward_zero(elapsed_nanos(start, end), 60_000_000_000)
}

/// Late means strictly after the expected time of day; with no expected time
/// nobody is late.
pub open spec fn late_after(second_of_day: u32, expected: Option<u32>) -> bool {
    match expected {
        Some(limit) => second_of_day > limit,
        None => false,
    }
}

/// The instant of the expected end: the expected time of day on the calendar
/// date of `end`, in the effective zone.
pub open spec fn expected_end_epoch(end: CompanyTime, expected: u32, zone: Seq<char>) -> Option<i64> {
    zone_local_epoch(effective_zone(zone), end.local.year, end.local.month, end.local.day, expected)
}

/// Whether `end` lies strictly before the expected end. `None` where the
/// expected time of day names no single instant on that date.
pub open spec fn early_leave_verdict(end: CompanyTime, expected: Option<u32>, zone: Seq<char>) -> Option<bool> {
    match expected {
        None => Some(false),
        Some(second) => match expected_end_epoch(end, second, zone) {
            Some(epoch) => Some(end.epoch_seconds < epoch),
            None => None,
        },
    }
}

/// What one pattern of `parse_time` yields for a trimmed text.
pub open spec fn parse_candidate(text: Seq<char>, zone: Seq<char>, index: int) -> Option<CompanyTime> {
    match naive_datetime_parse(text, datetime_pattern(index)) {
        Some(local) => match zone_local_epoch(zone, local.year, local.month, local.day, local.second_of_day) {
            Some(epoch) => Some(CompanyTime { epoch_seconds: epoch, local }),
            None => None,
        },
        None => None,
    }
}

/// The first candidate from `index` on that yields a time.
pub open spec fn parse_from(text: Seq<char>, zone: Seq<char>, index: int) -> Option<CompanyTime>
    decreases 4 - index,
{
    if index < 0 || index >= 4 {
        None
    } else {
        match parse_candidate(text, zone, index) {
            Some(time) => Some(time),
            None => parse_from(text, zone, index + 1),
        }
    }
}

/// The time that a text names in a zone.
pub open spec fn parsed_time(text: Seq<char>, zone: Seq<char>) -> Option<CompanyTime> {
    parse_from(trimmed_text(text), zone, 0)
}

impl CompanyTime {
    /// Midnight at the start of this reading's calendar date.
    pub open spec fn spec_day_start(&self) -> CivilTime {
        CivilTime { second_of_day: 0, nanos: 0, ..self.local }
    }

    /// The last whole second of this reading's calendar date.
    pub open spec fn spec_day_end(&self) -> CivilTime {
        CivilTime { second_of_day: 86_399, nanos: 0, ..self.local }
    }

    #[verifier::when_used_as_spec(spec_day_start)]
    pub fn day_start(&self) -> (start: CivilTime)
        ensures
            start == self.spec_day_start(),
            self.wf() ==> start.wf(),
    {
        CivilTime { year: self.local.year, month: self.local.month, day: self.local.day, second_of_day: 0, nanos: 0 }
    }

    #[verifier::when_used_as_spec(spec_day_end)]
    pub fn day_end(&self) -> (end: CivilTime)
        ensures
            end == self.spec_day_end(),
            self.wf() ==> end.wf(),
    {
        CivilTime { year: self.local.year, month: self.local.month, day: self.local.day, second_of_day: 86_399, nanos: 0 }
    }
}

fn fallback_zone_name() -> (zone: &'static str)
    ensures
        zone@ == fallback_zone(),
{
    "Asia/Shanghai"
}

fn datetime_pattern_at(index: usize) -> (pattern: &'static str)
    requires
        index < 4,
    ensures
        pattern@ == datetime_pattern(index as int),
{
    if index == 0 {
        "%Y-%m-%d %H:%M:%S"
    } else if index == 1 {
        "%Y-%m-%dT%H:%M:%S"
    } else if index == 2 {
        "%Y-%m-%d %H:%M:%S%.f"
    } else {
        "%Y-%m-%dT%H:%M:%S%.f"
    }
}

/// The zone name to read the clocks by: `timezone` where the database has
/// it, the fallback zone otherwise.
pub fn resolve_zone<'a>(timezone: &'a str) -> (zone: &'a str)
    ensures
        zone@ == effective_zone(timezone@),
{
    if zone_known(timezone) {
        timezone
    } else {
        fallback_zone_name()
    }
}

/// The clock's reading in a zone; in the fallback zone where the name is not
/// in the database. The reading depends on the moment of the call, so only
/// its well-formedness is stated.
pub fn get_company_time(timezone: &str) -> (now: CompanyTime)
    ensures
        now.wf(),
{
    clock_reading(resolve_zone(timezone))
}

/// The stored form of a wall-clock reading: `YYYY-MM-DD HH:MM:SS`, as chrono
/// writes it.
pub fn format_stored(local: &CivilTime) -> (text: String)
    requires
        local.wf(),
    ensures
        text@ == civil_text(*local, storage_pattern()),
{
    render_civil(local, "%Y-%m-%d %H:%M:%S")
}

/// The stored form of a time: its wall-clock reading in the company's zone.
pub fn format_time(dt: &CompanyTime) -> (text: String)
    requires
        dt.wf(),
    ensures
        text@ == civil_text(dt.local, storage_pattern()),
{
    format_stored(&dt.local)
}

/// The form of a time in a query bound: `YYYY-MM-DDTHH:MM:SS`.
pub fn format_bound(local: &CivilTime) -> (text: String)
    requires
        local.wf(),
    ensures
        text@ == civil_text(*local, bound_pattern()),
{
    render_civil(local, "%Y-%m-%dT%H:%M:%S")
}

/// Reads a timestamp in a zone. The text is trimmed, then the four patterns
/// are tried in order; the first that chrono accepts and that names exactly
/// one instant in the zone gives the result. `None` where no pattern does,
/// and where the zone is unknown.
pub fn parse_time(time_str: &str, timezone: &str) -> (parsed: Option<CompanyTime>)
    ensures
        parsed == parsed_time(time_str@, timezone@),
        parsed matches Some(time) ==> time.wf(),
        !zone_is_known(timezone@) ==> parsed is None,
{
    let trimmed = trim_text(time_str);
    let mut index: usize = 0;
    while index < 4
        invariant
            index <= 4,
            trimmed@ == trimmed_text(time_str@),
            parsed_time(time_str@, timezone@) == parse_from(trimmed@, timezone@, index as int),
        decreases 4 - index,
    {
        match parse_naive_datetime(trimmed, datetime_pattern_at(index)) {
            Some(local) => {
                match local_epoch(timezone, local.year, local.month, local.day, local.second_of_day) {
                    Some(epoch) => {
                        return Some(CompanyTime { epoch_seconds: epoch, local });
                    },
                    None => {},
                }
            },
            None => {},
        }
        index = index + 1;
    }
    None
}

/// Whether a time of day lies strictly after an expected one.
pub fn exceeds_time_of_day(check_time: &CompanyTime, expected: Option<u32>) -> (late: bool)
    ensures
        late == late_after(check_time.local.second_of_day, expected),
{
    match expected {
        Some(limit) => check_time.local.second_of_day > limit,
        None => false,
    }
}

/// Reads a rule's time of day, `HH:MM:SS` or `HH:MM`, as seconds since
/// midnight.
pub fn parse_time_of_day(text: &str) -> (second: Option<u32>)
    ensures
        second == time_of_day(text@),
        second matches Some(s) ==> s < 86_400,
{
    match parse_naive_time(text, "%H:%M:%S") {
        Some(second) => Some(second),
        None => parse_naive_time(text, "%H:%M"),
    }
}

/// Late, with no grace period: the time of day of `check_time` is strictly
/// after the expected start. An expected start that chrono cannot read makes
/// nobody late. The zone plays no part: the reading is already local.
pub fn is_late_strict(check_time: &CompanyTime, expected_start_time: &str, timezone: &str) -> (late: bool)
    ensures
        late == late_after(
            check_time.local.second_of_day,
            time_of_day(expected_start_time@),
        ),
{
    exceeds_time_of_day(check_time, parse_time_of_day(expected_start_time))
}

/// The second of the UTC day at which an instant lies.
fn utc_second_of_day(epoch_seconds: i64) -> (second: i64)
    ensures
        second == epoch_seconds as int % 86_400,
        0 <= second < 86_400,
{
    let r: i64 = epoch_seconds % 86_400;
    if r < 0 {
        r + 86_400
    } else {
        r
    }
}

/// Whole minutes from `start` to `end`, rounded toward zero, as chrono counts
/// them; negative where `end` is the earlier. The count is cut to 32 bits.
pub fn calculate_duration(start: &CompanyTime, end: &CompanyTime) -> (minutes: i32)
    ensures
        minutes == elapsed_minutes(*start, *end) as i32,
        i32::MIN <= elapsed_minutes(*start, *end) <= i32::MAX ==> minutes == elapsed_minutes(*start, *end),
{
    let s: i64 = utc_second_of_day(start.epoch_seconds);
    let e: i64 = utc_second_of_day(end.epoch_seconds);
    let adjust: i128 = if e > s && start.local.nanos >= 1_000_000_000 {
        1
    } else if e < s && end.local.nanos >= 1_000_000_000 {
        -1
    } else {
        0
    };
    let seconds: i128 = end.epoch_seconds as i128 - start.epoch_seconds as i128 + adjust;
    let nanos: i128 = seconds * 1_000_000_000 + (end.local.nanos as i128 - start.local.nanos as i128);
    let whole: i128 = if nanos >= 0 {
        nanos / 60_000_000_000
    } else {
        -((-nanos) / 60_000_000_000)
    };
    #[verifier::truncate]
    (whole as i32)
}

/// Whether an instant lies strictly before the instant of the expected end.
pub fn left_before(end_time: &CompanyTime, expected_end_epoch: i64) -> (early: bool)
    ensures
        early == (end_time.epoch_seconds < expected_end_epoch),
{
    end_time.epoch_seconds < expected_end_epoch
}

/// Early leave: `end_time` lies strictly before the expected time of day on
/// the calendar date of `end_time`, so a shift that crosses midnight is judged
/// on the day it ends. An expected end that chrono cannot read makes nobody
/// early. The expected time of day must name exactly one instant on that date.
pub fn is_early_leave(
    start_time: &CompanyTime,
    end_time: &CompanyTime,
    expected_end_time: &str,
    timezone: &str,
) -> (early: bool)
    requires
        early_leave_verdict(
            *end_time,
            time_of_day(expected_end_time@),
            timezone@,
        ) is Some,
    ensures
        Some(early) == early_leave_verdict(
            *end_time,
            time_of_day(expected_end_time@),
            timezone@,
        ),
{
    match parse_time_of_day(expected_end_time) {
        Some(second) => {
            let zone = resolve_zone(timezone);
            match local_epoch(zone, end_time.local.year, end_time.local.month, end_time.local.day, second) {
                Some(epoch) => left_before(end_time, epoch),
                None => false,
            }
        },
        None => false,
    }
}

/// `is_early_leave` for every input: `None` where the expected time of day
/// names no single instant on the calendar date of `end_time`.
pub fn checked_is_early_leave(
    start_time: &CompanyTime,
    end_time: &CompanyTime,
    expected_end_time: &str,
    timezone: &str,
) -> (early: Option<bool>)
    ensures
        early == early_leave_verdict(
            *end_time,
            time_of_day(expected_end_time@),
            timezone@,
        ),
{
    let resolvable = match parse_time_of_day(expected_end_time) {
        Some(second) => {
            let zone = resolve_zone(timezone);
            local_epoch(zone, end_time.local.year, end_time.local.month, end_time.local.day, second).is_some()
        },
        None => true,
    };
    if resolvable {
        Some(is_early_leave(start_time, end_time, expected_end_time, timezone))
    } else {
        None
    }
}

/// Whether chrono-tz's database holds a zone of this name.
pub uninterp spec fn zone_is_known(zone: Seq<char>) -> bool;

/// The instant at which the clocks of a zone show a wall-clock reading, where
/// exactly one instant does.
pub uninterp spec fn zone_local_epoch(
    zone: Seq<char>,
    year: i32,
    month: u32,
    day: u32,
    second_of_day: u32,
) -> Option<i64>;

/// What chrono reads from a text as a date and time, by a strftime pattern.
pub uninterp spec fn naive_datetime_parse(text: Seq<char>, pattern: Seq<char>) -> Option<CivilTime>;

/// What chrono reads from a text as a time of day, by a strftime pattern, in
/// seconds since midnight.
pub uninterp spec fn naive_time_parse(text: Seq<char>, pattern: Seq<char>) -> Option<u32>;

/// What chrono writes for a wall-clock reading, by a strftime pattern.
pub uninterp spec fn civil_text(local: CivilTime, pattern: Seq<char>) -> Seq<char>;

/// A text without its leading and trailing white space.
pub uninterp spec fn trimmed_text(text: Seq<char>) -> Seq<char>;

/// `str::parse::<chrono_tz::Tz>`: whether the zone database has the name.
#[verifier::external_body]
fn zone_known(zone: &str) -> (known: bool)
    ensures
        known == zone_is_known(zone@),
{
    zone.parse::<chrono_tz::Tz>().is_ok()
}

/// `TimeZone::from_local_datetime` of chrono-tz's `Tz`, then `single` and
/// `timestamp`: the one instant at which the zone shows the reading. `None`
/// where the zone is unknown, the date or time does not exist, or the reading
/// falls in a gap or a fold of the zone's clocks.
#[verifier::external_body]
fn local_epoch(zone: &str, year: i32, month: u32, day: u32, second_of_day: u32) -> (epoch: Option<i64>)
    ensures
        epoch == zone_local_epoch(zone@, year, month, day, second_of_day),
        !zone_is_known(zone@) ==> epoch is None,
{
    let tz = zone.parse::<chrono_tz::Tz>().ok()?;
    let date = chrono::NaiveDate::from_ymd_opt(year, month, day)?;
    let time = chrono::NaiveTime::from_num_seconds_from_midnight_opt(second_of_day, 0)?;
    let zoned = tz.from_local_datetime(&date.and_time(time)).single()?;
    Some(zoned.timestamp())
}

/// `NaiveDateTime::parse_from_str`: the date and time that chrono reads, which
/// is always one that `NaiveDate` and `NaiveTime` can hold.
#[verifier::external_body]
fn parse_naive_datetime(text: &str, pattern: &str) -> (parsed: Option<CivilTime>)
    ensures
        parsed == naive_datetime_parse(text@, pattern@),
        parsed matches Some(local) ==> local.wf(),
{
    let naive = chrono::NaiveDateTime::parse_from_str(text, pattern).ok()?;
    let (year, month, day) = (naive.year(), naive.month(), naive.day());
    let (second_of_day, nanos) = (naive.num_seconds_from_midnight(), naive.nanosecond());
    Some(CivilTime { year, month, day, second_of_day, nanos })
}

/// `NaiveTime::parse_from_str`, then `num_seconds_from_midnight`: the time of
/// day that chrono reads, which is below 86400 seconds.
#[verifier::external_body]
fn parse_naive_time(text: &str, pattern: &str) -> (parsed: Option<u32>)
    ensures
        parsed == naive_time_parse(text@, pattern@),
        parsed matches Some(second) ==> second < 86_400,
{
    let time = chrono::NaiveTime::parse_from_str(text, pattern).ok()?;
    Some(time.num_seconds_from_midnight())
}

/// `NaiveDateTime::format`, written out: chrono's text for the reading. The
/// date and the time exist by `wf`, and the two patterns admitted hold only
/// specifiers that chrono knows, so neither step fails.
#[verifier::external_body]
fn render_civil(local: &CivilTime, pattern: &str) -> (text: String)
    requires
        local.wf(),
        render_pattern(pattern@),
    ensures
        text@ == civil_text(*local, pattern@),
{
    let date = chrono::NaiveDate::from_ymd_opt(local.year, local.month, local.day).unwrap();
    let time = chrono::NaiveTime::from_num_seconds_from_midnight_opt(local.second_of_day, local.nanos).unwrap();
    date.and_time(time).format(pattern).to_string()
}

/// `str::trim`: the text without leading and trailing white space.
#[verifier::external_body]
fn trim_text(text: &str) -> (trimmed: &str)
    ensures
        trimmed@ == trimmed_text(text@),
{
    text.trim()
}

/// `Utc::now`, shown in the zone by `with_timezone` (in UTC where the zone
/// is unknown): the clock's reading. It differs from call to call, so all that
/// is claimed is that chrono hands out a date and a time that it can hold.
/// chrono gives up on a system clock set before 1970 or beyond its calendar.
#[verifier::external_body]
fn clock_reading(zone: &str) -> (now: CompanyTime)
    ensures
        now.wf(),
{
    let utc = chrono::Utc::now();
    let local = match zone.parse::<chrono_tz::Tz>() {
        Ok(tz) => utc.with_timezone(&tz).naive_local(),
        Err(_) => utc.naive_utc(),
    };
    let (year, month, day) = (local.year(), local.month(), local.day());
    let (second_of_day, nanos) = (local.num_seconds_from_midnight(), local.nanosecond());
    CompanyTime { epoch_seconds: utc.timestamp(), local: CivilTime { year, month, day, second_of_day, nanos } }
}

} // verus!
