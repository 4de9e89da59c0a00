use vstd::prelude::*;

use chrono::{DateTime, Datelike, Local, NaiveDate, NaiveDateTime, NaiveTime, TimeZone, Timelike};

use crate::text::{
    chars_of, digit, digit_char, string_from_chars, trim_chars, trimmed, two_digits,
};

verus! {

#[verifier::external_type_specification]
#[verifier::external_body]
pub struct ExTz(chrono_tz::Tz);

/// An instant, in milliseconds since the Unix epoch (1970-01-01 00:00:00 UTC).
#[derive(Clone, Copy, Debug, PartialEq, Eq, Structural)]
pub struct Timestamp {
    pub millis: i64,
}

/// A day of the proleptic Gregorian calendar.
#[derive(Clone, Copy, Debug, PartialEq, Eq, Structural)]
pub struct CalendarDate {
    pub year: i32,
    pub month: u32,
    pub day: u32,
}

/// A time of day. A nanosecond count from one to two billion marks a leap
/// second, which only the 59th second of a minute can hold.
#[derive(Clone, Copy, Debug, PartialEq, Eq, Structural)]
pub struct TimeOfDay {
    pub hour: u32,
    pub minute: u32,
    pub second: u32,
    pub nanosecond: u32,
}

/// A wall-clock date and time, in no particular zone.
#[derive(Clone, Copy, Debug, PartialEq, Eq, Structural)]
pub struct LocalDateTime {
    pub date: CalendarDate,
    pub time: TimeOfDay,
}

/// Whether a year of the Gregorian calendar has a 29th of February.
pub open spec fn is_leap_year(year: int) -> bool {
    year % 4 == 0 && (year % 100 != 0 || year % 400 == 0)
}

/// The number of days in a month of a year.
pub open spec fn days_in_month(year: int, month: int) -> int {
    if month == 2 {
        if is_leap_year(year) {
            29
        } else {
            28
        }
    } else if month == 4 || month == 6 || month == 9 || month == 11 {
        30
    } else {
        31
    }
}

/// Whether a date is one that `chrono::NaiveDate` can hold: a real day of a
/// year from -262143 to 262142.
pub open spec fn valid_date(d: CalendarDate) -> bool {
    &&& -262143 <= d.year <= 262142
    &&& 1 <= d.month <= 12
    &&& 1 <= d.day <= days_in_month(d.year as int, d.month as int)
}

/// Whether a time of day is one that `chrono::NaiveTime` can hold.
pub open spec fn valid_time(t: TimeOfDay) -> bool {
    &&& t.hour < 24
    &&& t.minute < 60
    &&& t.second < 60
    &&& t.nanosecond < 2_000_000_000
    &&& t.nanosecond >= 1_000_000_000 ==> t.second == 59
}

/// Whether a date and time is one that `chrono::NaiveDateTime` can hold.
pub open spec fn valid_date_time(t: LocalDateTime) -> bool {
    valid_date(t.date) && valid_time(t.time)
}

/// Whether a date and time is one `chrono::NaiveDateTime` can hold.
pub fn date_time_is_valid(t: &LocalDateTime) -> (r: bool)
    ensures
        r == valid_date_time(*t),
{
    let year = t.date.year;
    let month = t.date.month;
    let leap = year % 4 == 0 && (year % 100 != 0 || year % 400 == 0);
    let days: u32 = if month == 2 {
        if leap {
            29
        } else {
            28
        }
    } else if month == 4 || month == 6 || month == 9 || month == 11 {
        30
    } else {
        31
    };
    let date_ok = -262143 <= year && year <= 262142 && 1 <= month && month <= 12 && 1 <= t.date.day
        && t.date.day <= days;
    let time = t.time;
    let time_ok = time.hour < 24 && time.minute < 60 && time.second < 60 && time.nanosecond
        < 2_000_000_000 && (time.nanosecond < 1_000_000_000 || time.second == 59);
    date_ok && time_ok
}

/// Midnight, the start of a day.
pub open spec fn midnight() -> TimeOfDay {
    TimeOfDay { hour: 0, minute: 0, second: 0, nanosecond: 0 }
}

/// Whether a text names a zone of the IANA time zone database that
/// `chrono_tz` knows (compared exactly, case included).
pub uninterp spec fn is_timezone_name(s: Seq<char>) -> bool;

/// Whether `chrono::NaiveTime::parse_from_str` accepts a text in a format.
pub uninterp spec fn naive_time_parses(s: Seq<char>, format: Seq<char>) -> bool;

/// The time of day `chrono::NaiveTime::parse_from_str` reads from a text in
/// a format, where it accepts it.
pub uninterp spec fn naive_time_value(s: Seq<char>, format: Seq<char>) -> TimeOfDay;

/// Whether `chrono::NaiveDate::parse_from_str` accepts a text in a format.
pub uninterp spec fn naive_date_parses(s: Seq<char>, format: Seq<char>) -> bool;

/// The date `chrono::NaiveDate::parse_from_str` reads from a text in a
/// format, where it accepts it.
pub uninterp spec fn naive_date_value(s: Seq<char>, format: Seq<char>) -> CalendarDate;

/// Whether `chrono::NaiveDateTime::parse_from_str` accepts a text in a format.
pub uninterp spec fn naive_datetime_parses(s: Seq<char>, format: Seq<char>) -> bool;

/// The date and time `chrono::NaiveDateTime::parse_from_str` reads from a
/// text in a format, where it accepts it.
pub uninterp spec fn naive_datetime_value(s: Seq<char>, format: Seq<char>) -> LocalDateTime;

/// Whether `chrono::DateTime::parse_from_rfc3339` accepts a text.
pub uninterp spec fn rfc3339_parses(s: Seq<char>) -> bool;

/// The instant `chrono::DateTime::parse_from_rfc3339` reads from a text, in
/// milliseconds since the epoch, where it accepts it.
pub uninterp spec fn rfc3339_instant(s: Seq<char>) -> Timestamp;

/// How `chrono::NaiveDateTime` shows a date and time through `Display`.
pub uninterp spec fn naive_datetime_display(t: LocalDateTime) -> Seq<char>;

/// The text `chrono::NaiveDateTime::format` renders for a date and time in
/// a format.
pub uninterp spec fn naive_format_text(t: LocalDateTime, format: Seq<char>) -> Seq<char>;

/// The `strftime` formats the clock renders with.
pub open spec fn clock_format(format: Seq<char>) -> bool {
    ||| format == "%A, %B %-d %Y"@
    ||| format == "%H:%M"@
    ||| format == "%H:%M:%S"@
}

/// A time zone of the IANA database, with the name it goes by.
#[derive(Clone, Copy, Debug, PartialEq, Eq)]
pub struct Zone {
    tz: chrono_tz::Tz,
    name: &'static str,
}

impl Zone {
    /// The zone's name in the database, such as `America/New_York`.
    pub closed spec fn zone_name(&self) -> Seq<char> {
        self.name@
    }

    /// The zone, for the clock to read the time in.
    pub fn tz(&self) -> chrono_tz::Tz {
        self.tz
    }

    /// The zone's name in the database.
    pub fn name(&self) -> (r: &'static str)
        ensures
            r@ == self.zone_name(),
    {
        self.name
    }
}

/// `str::parse::<chrono_tz::Tz>` with `chrono_tz::Tz::name`: a zone for
/// each name of the database, looked up exactly, whose name is the text it
/// was looked up by (chrono_tz's lookup table and `name` hold the same
/// string for each zone); any other text is refused with chrono_tz's
/// `ParseError`, whose text is "failed to parse timezone".
#[verifier::external_body]
fn tz_from_str(s: &str) -> (r: Result<Zone, String>)
    ensures
        r is Ok <==> is_timezone_name(s@),
        r matches Ok(z) ==> z.zone_name() == s@,
        r matches Err(e) ==> e@ == "failed to parse timezone"@,
{
    match s.parse::<chrono_tz::Tz>() {
        Ok(tz) => Ok(Zone { tz, name: tz.name() }),
        Err(error) => Err(error.to_string()),
    }
}

/// `chrono::NaiveTime::parse_from_str`, the time it reads taken field by
/// field; `None` where it returns an error. A `NaiveTime` always holds a
/// valid time of day.
#[verifier::external_body]
fn naive_time_from_str(s: &str, format: &str) -> (r: Option<TimeOfDay>)
    ensures
        r is Some <==> naive_time_parses(s@, format@),
        r matches Some(t) ==> t == naive_time_value(s@, format@) && valid_time(t),
{
    match NaiveTime::parse_from_str(s, format) {
        Ok(t) => Some(
            TimeOfDay { hour: t.hour(), minute: t.minute(), second: t.second(), nanosecond: t.nanosecond() },
        ),
        Err(_) => None,
    }
}

/// `chrono::NaiveDate::parse_from_str`, the date it reads taken field by
/// field; `None` where it returns an error. A `NaiveDate` always holds a
/// valid date.
#[verifier::external_body]
fn naive_date_from_str(s: &str, format: &str) -> (r: Option<CalendarDate>)
    ensures
        r is Some <==> naive_date_parses(s@, format@),
        r matches Some(d) ==> d == naive_date_value(s@, format@) && valid_date(d),
{
    match NaiveDate::parse_from_str(s, format) {
        Ok(d) => Some(CalendarDate { year: d.year(), month: d.month(), day: d.day() }),
        Err(_) => None,
    }
}

/// `chrono::NaiveDateTime::parse_from_str`, the date and time it reads
/// taken field by field; `None` where it returns an error.
#[verifier::external_body]
fn naive_datetime_from_str(s: &str, format: &str) -> (r: Option<LocalDateTime>)
    ensures
        r is Some <==> naive_datetime_parses(s@, format@),
        r matches Some(t) ==> t == naive_datetime_value(s@, format@) && valid_date_time(t),
{
    match NaiveDateTime::parse_from_str(s, format) {
        Ok(t) => Some(LocalDateTime {
            date: CalendarDate { year: t.year(), month: t.month(), day: t.day() },
            time: TimeOfDay { hour: t.hour(), minute: t.minute(), second: t.second(), nanosecond: t.nanosecond() },
        }),
        Err(_) => None,
    }
}

/// `chrono::DateTime::parse_from_rfc3339`, the instant it reads taken in
/// milliseconds since the epoch; `None` where it returns an error.
#[verifier::external_body]
fn rfc3339_from_str(s: &str) -> (r: Option<Timestamp>)
    ensures
        r is Some <==> rfc3339_parses(s@),
        r matches Some(t) ==> t == rfc3339_instant(s@),
{
    DateTime::parse_from_rfc3339(s).ok().map(|time| Timestamp { millis: time.timestamp_millis() })
}

/// `chrono::Local::now`, in milliseconds since the epoch. It depends on the
/// clock of the machine and is not stated.
#[verifier::external_body]
pub(crate) fn now_local() -> Timestamp {
    Timestamp { millis: Local::now().timestamp_millis() }
}

/// `chrono::Local::now`, taken as a calendar date in the machine's zone.
/// Which day it is depends on the clock of the machine and is not stated.
#[verifier::external_body]
fn today_local() -> (r: CalendarDate)
    ensures
        valid_date(r),
{
    let d = Local::now().date_naive();
    CalendarDate { year: d.year(), month: d.month(), day: d.day() }
}

/// How a wall-clock time maps onto the machine's zone.
pub enum LocalMatch {
    /// Exactly one instant shows this wall-clock time.
    Single(Timestamp),
    /// The time occurs twice, at a fold of the zone.
    Ambiguous,
    /// The time does not occur, at a gap of the zone.
    Missing,
}

/// `chrono::TimeZone::from_local_datetime` on `Local` for a valid date and
/// time, its result taken variant for variant, the instant in milliseconds
/// since the epoch. Which variant comes back depends on the machine's zone
/// and is not stated.
#[verifier::external_body]
fn local_from_naive(t: &LocalDateTime) -> LocalMatch
    requires
        valid_date_time(*t),
{
    let time = NaiveDate::from_ymd_opt(t.date.year, t.date.month, t.date.day)
        .and_then(|d| d.and_hms_nano_opt(t.time.hour, t.time.minute, t.time.second, t.time.nanosecond))
        .expect("a valid date and time");
    match Local.from_local_datetime(&time) {
        chrono::LocalResult::Single(found) => LocalMatch::Single(Timestamp { millis: found.timestamp_millis() }),
        chrono::LocalResult::Ambiguous(_, _) => LocalMatch::Ambiguous,
        chrono::LocalResult::None => LocalMatch::Missing,
    }
}

/// `NaiveDateTime` shown through `Display`, for a valid date and time.
#[verifier::external_body]
fn naive_datetime_text(t: &LocalDateTime) -> (r: String)
    requires
        valid_date_time(*t),
    ensures
        r@ == naive_datetime_display(*t),
{
    NaiveDate::from_ymd_opt(t.date.year, t.date.month, t.date.day)
        .and_then(|d| d.and_hms_nano_opt(t.time.hour, t.time.minute, t.time.second, t.time.nanosecond))
        .expect("a valid date and time")
        .to_string()
}

/// The hour and minute of a time of day as `%H:%M` shows them: two digits
/// each, with a colon between.
pub open spec fn hour_minute_text(t: TimeOfDay) -> Seq<char> {
    two_digits(t.hour as nat) + seq![':'] + two_digits(t.minute as nat)
}

/// A time of day as `%H:%M:%S` shows it: `%S` counts a leap second as
/// second 60.
pub open spec fn hour_minute_second_text(t: TimeOfDay) -> Seq<char> {
    hour_minute_text(t) + seq![':'] + two_digits((t.second + t.nanosecond / 1_000_000_000) as nat)
}

/// `chrono::NaiveDateTime::format` rendered to a string, for a valid date
/// and time and one of the clock's formats (a format that chrono cannot
/// read would make the rendering panic). `%H`, `%M` and `%S` write two
/// digits each, zero first; `%S` adds the leap second's extra second.
#[verifier::external_body]
fn format_naive(t: &LocalDateTime, format: &str) -> (r: String)
    requires
        valid_date_time(*t),
        clock_format(format@),
    ensures
        r@ == naive_format_text(*t, format@),
        format@ == "%H:%M"@ ==> r@ == hour_minute_text(t.time),
        format@ == "%H:%M:%S"@ ==> r@ == hour_minute_second_text(t.time),
{
    NaiveDate::from_ymd_opt(t.date.year, t.date.month, t.date.day)
        .and_then(|d| d.and_hms_nano_opt(t.time.hour, t.time.minute, t.time.second, t.time.nanosecond))
        .expect("a valid date and time")
        .format(format)
        .to_string()
}

/// Parse a time zone name such as `America/New_York`.
pub fn parse_timezone(s: &str) -> (r: Result<Zone, String>)
    ensures
        r is Ok <==> is_timezone_name(s@),
        r matches Ok(z) ==> z.zone_name() == s@,
        r matches Err(e) ==> e@ == "failed to parse timezone"@,
{
    tz_from_str(s)
}

/// The error text for a wall-clock time that the local zone does not map to
/// one instant.
pub open spec fn local_time_error(found: LocalMatch, shown: Seq<char>) -> Seq<char> {
    match found {
        LocalMatch::Ambiguous => "Ambiguous local time: "@ + shown,
        _ => "Invalid local time: "@ + shown,
    }
}

/// Whether a text is one of the errors that `local_time_error` gives.
pub open spec fn is_local_time_error(e: Seq<char>) -> bool {
    exists|shown: Seq<char>|
        e == "Ambiguous local time: "@ + shown || e == "Invalid local time: "@ + shown
}

/// The local time for a wall-clock time, given how the local zone maps it
/// and how the time is shown: the instant when there is exactly one, an
/// error naming the time otherwise.
pub fn resolve_local(found: LocalMatch, shown: String) -> (r: Result<Timestamp, String>)
    ensures
        found matches LocalMatch::Single(t) ==> r == Ok::<Timestamp, String>(t),
        !(found is Single) ==> (r matches Err(e) && e@ == local_time_error(found, shown@)),
{
    match found {
        LocalMatch::Single(time) => Ok(time),
        LocalMatch::Ambiguous => {
            let mut e = String::from_str("Ambiguous local time: ");
            e.append(shown.as_str());
            Err(e)
        },
        LocalMatch::Missing => {
            let mut e = String::from_str("Invalid local time: ");
            e.append(shown.as_str());
            Err(e)
        },
    }
}

/// What a wall-clock time comes to in the local zone, given how the zone
/// maps it: the instant when there is exactly one, the error naming the time
/// (as `NaiveDateTime` shows it) otherwise.
pub open spec fn local_outcome(found: LocalMatch, t: LocalDateTime, r: Result<Timestamp, String>) -> bool {
    match found {
        LocalMatch::Single(i) => r == Ok::<Timestamp, String>(i),
        _ => r matches Err(e) && e@ == local_time_error(found, naive_datetime_display(t)),
    }
}

/// The instant in the local zone that a wall-clock time names, or an error
/// when the zone has none or two. Which of these comes, and which instant,
/// depends on the machine's zone and is not stated; `resolve_local` states
/// what follows from each.
pub fn local_datetime(date_time: LocalDateTime) -> (r: Result<Timestamp, String>)
    requires
        valid_date_time(date_time),
    ensures
        placed_locally(date_time, r),
        r matches Err(e) ==> is_local_time_error(e@),
{
    let found = local_from_naive(&date_time);
    let ghost found_here = found;
    let shown = naive_datetime_text(&date_time);
    let r = resolve_local(found, shown);
    proof {
        assert(local_outcome(found_here, date_time, r));
        assert(placed_locally(date_time, r));
        if r is Err {
            let w = shown@;
            assert(r->Err_0@ == "Ambiguous local time: "@ + w || r->Err_0@ == "Invalid local time: "@
                + w);
        }
    }
    r
}

/// Whether one of the accepted forms of a countdown target reads a
/// (trimmed) text: `%H:%M`, `%H:%M:%S`, `%Y-%m-%d`, `%Y-%m-%d %H:%M:%S`, or
/// RFC 3339.
pub open spec fn datetime_text_accepted(t: Seq<char>) -> bool {
    ||| naive_time_parses(t, "%H:%M"@)
    ||| naive_time_parses(t, "%H:%M:%S"@)
    ||| naive_date_parses(t, "%Y-%m-%d"@)
    ||| naive_datetime_parses(t, "%Y-%m-%d %H:%M:%S"@)
    ||| rfc3339_parses(t)
}

/// Whether RFC 3339 is the only accepted form that reads a (trimmed) text,
/// so that the text names an instant without the local zone.
pub open spec fn instant_only(t: Seq<char>) -> bool {
    &&& !naive_time_parses(t, "%H:%M"@)
    &&& !naive_time_parses(t, "%H:%M:%S"@)
    &&& !naive_date_parses(t, "%Y-%m-%d"@)
    &&& !naive_datetime_parses(t, "%Y-%m-%d %H:%M:%S"@)
    &&& rfc3339_parses(t)
}

/// What a countdown target text reads as.
pub enum DateTimeReading {
    /// A wall-clock time, still to be placed in the local zone.
    Wall(LocalDateTime),
    /// An instant.
    Instant(Timestamp),
}

/// What a (trimmed) countdown target text reads as on a given day: the
/// first of the forms, in order, that reads it. A bare time of day falls
/// on that day, a bare date at midnight.
pub open spec fn read_datetime(t: Seq<char>, today: CalendarDate) -> Option<DateTimeReading> {
    if naive_time_parses(t, "%H:%M"@) {
        Some(DateTimeReading::Wall(LocalDateTime { date: today, time: naive_time_value(t, "%H:%M"@) }))
    } else if naive_time_parses(t, "%H:%M:%S"@) {
        Some(
            DateTimeReading::Wall(
                LocalDateTime { date: today, time: naive_time_value(t, "%H:%M:%S"@) },
            ),
        )
    } else if naive_date_parses(t, "%Y-%m-%d"@) {
        Some(
            DateTimeReading::Wall(
                LocalDateTime { date: naive_date_value(t, "%Y-%m-%d"@), time: midnight() },
            ),
        )
    } else if naive_datetime_parses(t, "%Y-%m-%d %H:%M:%S"@) {
        Some(DateTimeReading::Wall(naive_datetime_value(t, "%Y-%m-%d %H:%M:%S"@)))
    } else if rfc3339_parses(t) {
        Some(DateTimeReading::Instant(rfc3339_instant(t)))
    } else {
        None
    }
}

/// Whether a result is what a reading comes to: "Invalid time format" for
/// no reading, the instant for an instant, and the local zone's outcome for
/// a wall-clock time.
pub open spec fn parse_outcome(reading: Option<DateTimeReading>, r: Result<Timestamp, String>) -> bool {
    match reading {
        None => r matches Err(e) && e@ == "Invalid time format"@,
        Some(DateTimeReading::Instant(i)) => r == Ok::<Timestamp, String>(i),
        Some(DateTimeReading::Wall(w)) => placed_locally(w, r),
    }
}

/// Whether a result is what the local zone makes of a wall-clock time, in
/// one of the ways it can place it.
pub open spec fn placed_locally(w: LocalDateTime, r: Result<Timestamp, String>) -> bool {
    exists|found: LocalMatch| #[trigger] local_outcome(found, w, r)
}

/// Parse a countdown target such as `2026-01-01`, `20:00`,
/// `2026-12-25 20:00:00` or `2026-12-25T20:00:00-04:00`, after trimming
/// white space. A bare time of day means today. The forms are tried in that
/// order: time, time with seconds, date, date and time, RFC 3339. Which day
/// today is, and how the local zone places a wall-clock time, depend on the
/// machine and are not stated.
pub fn parse_datetime(s: &str) -> (r: Result<Timestamp, String>)
    ensures
        exists|today: CalendarDate|
            valid_date(today) && #[trigger] parse_outcome(read_datetime(trimmed(s@), today), r),
        !datetime_text_accepted(trimmed(s@)) ==> (r matches Err(e) && e@
            == "Invalid time format"@),
        datetime_text_accepted(trimmed(s@)) ==> (r is Ok || is_local_time_error(r->Err_0@)),
        instant_only(trimmed(s@)) ==> r == Ok::<Timestamp, String>(rfc3339_instant(trimmed(s@))),
{
    let chars = chars_of(s);
    let trimmed_chars = trim_chars(&chars);
    let owned = string_from_chars(&trimmed_chars);
    let s = owned.as_str();
    let today = today_local();
    let ghost t = s@;
    let ghost reading = read_datetime(t, today);
    if let Some(time) = naive_time_from_str(s, "%H:%M") {
        let wall = LocalDateTime { date: today, time };
        let r = local_datetime(wall);
        assert(reading == Some(DateTimeReading::Wall(wall)));
        assert(parse_outcome(reading, r));
        return r;
    }
    if let Some(time) = naive_time_from_str(s, "%H:%M:%S") {
        let wall = LocalDateTime { date: today, time };
        let r = local_datetime(wall);
        assert(reading == Some(DateTimeReading::Wall(wall)));
        assert(parse_outcome(reading, r));
        return r;
    }
    if let Some(date) = naive_date_from_str(s, "%Y-%m-%d") {
        let wall = LocalDateTime { date, time: TimeOfDay { hour: 0, minute: 0, second: 0, nanosecond: 0 } };
        let r = local_datetime(wall);
        assert(reading == Some(DateTimeReading::Wall(wall)));
        assert(parse_outcome(reading, r));
        return r;
    }
    if let Some(date_time) = naive_datetime_from_str(s, "%Y-%m-%d %H:%M:%S") {
        let r = local_datetime(date_time);
        assert(reading == Some(DateTimeReading::Wall(date_time)));
        assert(parse_outcome(reading, r));
        return r;
    }
    if let Some(rfc_time) = rfc3339_from_str(s) {
        let r = Ok(rfc_time);
        assert(parse_outcome(reading, r));
        return r;
    }
    let r = Err(String::from_str("Invalid time format"));
    assert(parse_outcome(reading, r));
    r
}

/// The date line of the clock: the formatted date, followed by the zone's
/// name when a zone was chosen.
pub open spec fn date_line(date: Seq<char>, zone: Seq<char>, with_zone: bool) -> Seq<char> {
    if with_zone {
        date.push(' ') + zone
    } else {
        date
    }
}

/// Join a formatted date and an optional zone name into the clock's date line.
pub fn join_date_line(date: String, zone: Option<&str>) -> (r: String)
    ensures
        zone matches Some(z) ==> r@ == date_line(date@, z@, true),
        zone is None ==> r@ == date@,
{
    let mut title = date;
    if let Some(name) = zone {
        title.append(" ");
        title.append(name);
        proof {
            reveal_strlit(" ");
            assert(title@ =~= date_line(date@, name@, true));
        }
    }
    title
}

/// The clock's date line for a moment, such as `Sunday, June 7 2026`,
/// followed by the zone's name when a zone was chosen.
pub fn format_clock_header(now: LocalDateTime, timezone: Option<Zone>) -> (r: String)
    requires
        valid_date_time(now),
    ensures
        timezone is None ==> r@ == naive_format_text(now, "%A, %B %-d %Y"@),
        timezone matches Some(z) ==> r@ == date_line(
            naive_format_text(now, "%A, %B %-d %Y"@),
            z.zone_name(),
            true,
        ),
{
    let date = format_naive(&now, "%A, %B %-d %Y");
    match timezone {
        Some(zone) => join_date_line(date, Some(zone.name())),
        None => join_date_line(date, None),
    }
}

/// The tenth of a second a time of day is in (within a leap second too).
pub open spec fn tenths(t: TimeOfDay) -> int {
    (t.nanosecond % 1_000_000_000) as int / 100_000_000
}

/// The clock's digits for a moment: hours and minutes when seconds are
/// hidden; with seconds; and with a tenth of a second after a dot when
/// fractional seconds are shown.
pub open spec fn clock_digits(now: LocalDateTime, show_seconds: bool, show_millis: bool) -> Seq<char> {
    if !show_seconds {
        hour_minute_text(now.time)
    } else if show_millis {
        hour_minute_second_text(now.time).push('.').push(digit(tenths(now.time)))
    } else {
        hour_minute_second_text(now.time)
    }
}

/// The clock's digits for a moment, as the display asks.
pub fn clock_time_text(now: &LocalDateTime, show_seconds: bool, show_millis: bool) -> (r: String)
    requires
        valid_date_time(*now),
    ensures
        r@ == clock_digits(*now, show_seconds, show_millis),
{
    if !show_seconds {
        return format_naive(now, "%H:%M");
    }
    let whole = format_naive(now, "%H:%M:%S");
    if !show_millis {
        return whole;
    }
    let mut v = chars_of(whole.as_str());
    v.push('.');
    v.push(digit_char(((now.time.nanosecond % 1_000_000_000) / 100_000_000) as u8));
    string_from_chars(&v)
}

} // verus!
