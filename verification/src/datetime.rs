//! Timezone-aware datetime display/edit helpers. Stored values are UTC instants.
//!
//! On-screen dates and text inputs use day-first `DD/MM/YYYY`. Native HTML
//! `type="date"` / `datetime-local` pickers are overlaid and need ISO values,
//! so display strings are re-read and written back in ISO form.
//!
//! Parsing and formatting against a pattern, time zones and instants are
//! chrono's and chrono-tz's; which patterns are tried, in which order, and what
//! happens when none fits is this module's.

use chrono::{Datelike, TimeZone, Timelike};
use vstd::prelude::*;

use crate::text::{string_of, to_owned, trim, trim_str};

verus! {

pub const DEFAULT_TIMEZONE: &'static str = "Asia/Kolkata";

/// On-screen calendar date (`DD/MM/YYYY`).
pub const DATE_FMT: &'static str = "%d/%m/%Y";
/// On-screen datetime with seconds (`DD/MM/YYYY HH:MM:SS`).
pub const DATETIME_SECONDS_FMT: &'static str = "%d/%m/%Y %H:%M:%S";
/// On-screen datetime without seconds (`DD/MM/YYYY HH:MM`).
pub const DATETIME_SHORT_FMT: &'static str = "%d/%m/%Y %H:%M";
/// ISO calendar date, the value of a native date picker.
pub const ISO_DATE_FMT: &'static str = "%Y-%m-%d";
/// ISO datetime, the value of a native `datetime-local` picker.
pub const ISO_DATETIME_FMT: &'static str = "%Y-%m-%dT%H:%M:%S";

/// A calendar date (proleptic Gregorian).
#[derive(Debug, Clone, Copy, PartialEq, Eq, Structural)]
pub struct CalendarDate {
    pub year: i32,
    pub month: u32,
    pub day: u32,
}

/// A wall-clock date and time, without a zone. `nano` may reach past one
/// second only on a leap second (`second == 59`).
#[derive(Debug, Clone, Copy, PartialEq, Eq, Structural)]
pub struct WallTime {
    pub date: CalendarDate,
    pub hour: u32,
    pub minute: u32,
    pub second: u32,
    pub nano: u32,
}

/// Gregorian leap year.
pub open spec fn is_leap(y: int) -> bool {
    (y % 4 == 0 && y % 100 != 0) || y % 400 == 0
}

/// Days in month `m` of year `y`.
pub open spec fn days_in_month(y: int, m: int) -> int {
    if m == 2 {
        if is_leap(y) { 29 } else { 28 }
    } else if m == 4 || m == 6 || m == 9 || m == 11 {
        30
    } else {
        31
    }
}

/// A date chrono can represent: a real calendar day in years −262143 … 262142.
pub open spec fn valid_date(d: CalendarDate) -> bool {
    &&& -262143 <= d.year <= 262142
    &&& 1 <= d.month <= 12
    &&& 1 <= d.day <= days_in_month(d.year as int, d.month as int)
}

/// A wall time chrono can represent.
pub open spec fn valid_wall_time(t: WallTime) -> bool {
    &&& valid_date(t.date)
    &&& t.hour < 24
    &&& t.minute < 60
    &&& t.second < 60
    &&& t.nano < 2_000_000_000
    &&& (t.nano >= 1_000_000_000 ==> t.second == 59)
}

/// Midnight at the start of `d`.
pub open spec fn midnight(d: CalendarDate) -> WallTime {
    WallTime { date: d, hour: 0, minute: 0, second: 0, nano: 0 }
}

/// The patterns this module hands to chrono's formatter.
pub open spec fn known_format(fmt: Seq<char>) -> bool {
    fmt == DATE_FMT@ || fmt == DATETIME_SECONDS_FMT@ || fmt == DATETIME_SHORT_FMT@ || fmt == ISO_DATE_FMT@
        || fmt == ISO_DATETIME_FMT@
}

// ---------------------------------------------------------------------------
// chrono and chrono-tz
// ---------------------------------------------------------------------------

/// What `NaiveDate::parse_from_str(s, fmt)` yields.
pub uninterp spec fn chrono_date_parse(s: Seq<char>, fmt: Seq<char>) -> Option<CalendarDate>;

/// What `NaiveDateTime::parse_from_str(s, fmt)` yields.
pub uninterp spec fn chrono_wall_parse(s: Seq<char>, fmt: Seq<char>) -> Option<WallTime>;

/// What chrono writes for the date `d` under `fmt`.
pub uninterp spec fn chrono_date_text(d: CalendarDate, fmt: Seq<char>) -> Seq<char>;

/// What chrono writes for the wall time `t` under `fmt`.
pub uninterp spec fn chrono_wall_text(t: WallTime, fmt: Seq<char>) -> Seq<char>;

/// Whether chrono-tz knows the IANA zone `name`.
pub uninterp spec fn tz_known(name: Seq<char>) -> bool;

/// Whether `(secs, nanos)` is a UTC instant chrono can represent.
pub uninterp spec fn timestamp_valid(secs: i64, nanos: u32) -> bool;

/// What chrono writes for the instant `(secs, nanos)` seen in zone `tz` under `fmt`.
pub uninterp spec fn instant_text(secs: i64, nanos: u32, tz: Seq<char>, fmt: Seq<char>) -> Seq<char>;

/// The UTC instant of wall time `t` in zone `tz`, when that wall time occurs
/// exactly once there (not skipped, not repeated).
pub uninterp spec fn local_instant(t: WallTime, tz: Seq<char>) -> Option<(i64, u32)>;

/// Whether `c` is an ASCII digit.
pub open spec fn is_digit(c: char) -> bool {
    '0' <= c && c <= '9'
}

/// The value of an ASCII digit.
pub open spec fn digit_value(c: char) -> int {
    c as int - '0' as int
}

/// The date written as `DD-MM-YYYY` in `t` (two-digit day first, then a
/// two-digit month, then a four-digit year, all separated by `-`), when `t`
/// is exactly that and names a real calendar day.
pub open spec fn day_first_dash_date(t: Seq<char>) -> Option<CalendarDate> {
    if t.len() == 10 && t[2] == '-' && t[5] == '-' && is_digit(t[0]) && is_digit(t[1]) && is_digit(t[3])
        && is_digit(t[4]) && is_digit(t[6]) && is_digit(t[7]) && is_digit(t[8]) && is_digit(t[9]) {
        let d = CalendarDate {
            year: (1000 * digit_value(t[6]) + 100 * digit_value(t[7]) + 10 * digit_value(t[8]) + digit_value(
                t[9],
            )) as i32,
            month: (10 * digit_value(t[3]) + digit_value(t[4])) as u32,
            day: (10 * digit_value(t[0]) + digit_value(t[1])) as u32,
        };
        if valid_date(d) {
            Some(d)
        } else {
            None
        }
    } else {
        None
    }
}

/// `NaiveDate::parse_from_str`, the date taken apart. chrono's dates are
/// always real calendar days in its year range. Under `%d-%m-%Y` chrono reads
/// up to two digits of day, `-`, up to two digits of month, `-`, up to four
/// digits of year and requires the whole text to be used, so a text that is
/// exactly `DD-MM-YYYY` of a real day reads as that day.
#[verifier::external_body]
fn chrono_parse_date(s: &str, fmt: &str) -> (r: Option<CalendarDate>)
    ensures
        r == chrono_date_parse(s@, fmt@),
        r matches Some(d) ==> valid_date(d),
        fmt@ == "%d-%m-%Y"@ && day_first_dash_date(s@) is Some ==> r == day_first_dash_date(s@),
{
    match chrono::NaiveDate::parse_from_str(s, fmt) {
        Ok(d) => Some(CalendarDate { year: d.year(), month: d.month(), day: d.day() }),
        Err(_) => None,
    }
}

/// `NaiveDateTime::parse_from_str`, the wall time taken apart.
#[verifier::external_body]
fn chrono_parse_wall(s: &str, fmt: &str) -> (r: Option<WallTime>)
    ensures
        r == chrono_wall_parse(s@, fmt@),
        r matches Some(t) ==> valid_wall_time(t),
{
    match chrono::NaiveDateTime::parse_from_str(s, fmt) {
        Ok(t) => Some(WallTime {
            date: CalendarDate { year: t.year(), month: t.month(), day: t.day() },
            hour: t.hour(), minute: t.minute(), second: t.second(), nano: t.nanosecond(),
        }),
        Err(_) => None,
    }
}

/// `NaiveDate::from_ymd_opt` then `format(fmt)`: for a valid date the first
/// gives `Some`, and a date-only pattern formats without error (a pattern
/// with hours, minutes or seconds would make chrono's formatting fail).
#[verifier::external_body]
fn chrono_format_date(d: CalendarDate, fmt: &str) -> (r: String)
    requires
        valid_date(d),
        fmt@ == DATE_FMT@ || fmt@ == ISO_DATE_FMT@,
    ensures
        r@ == chrono_date_text(d, fmt@),
{
    match chrono::NaiveDate::from_ymd_opt(d.year, d.month, d.day) {
        Some(nd) => nd.format(fmt).to_string(),
        None => String::new(),
    }
}

/// `NaiveDate::from_ymd_opt(..).and_hms_nano_opt(..)` then `format(fmt)`.
#[verifier::external_body]
fn chrono_format_wall(t: WallTime, fmt: &str) -> (r: String)
    requires
        valid_wall_time(t),
        known_format(fmt@),
    ensures
        r@ == chrono_wall_text(t, fmt@),
{
    let d = t.date;
    match chrono::NaiveDate::from_ymd_opt(d.year, d.month, d.day) {
        Some(nd) => match nd.and_hms_nano_opt(t.hour, t.minute, t.second, t.nano) {
            Some(ndt) => ndt.format(fmt).to_string(),
            None => String::new(),
        },
        None => String::new(),
    }
}

/// `str::parse::<chrono_tz::Tz>` succeeds.
#[verifier::external_body]
fn chrono_tz_parses(name: &str) -> (r: bool)
    ensures
        r == tz_known(name@),
{
    name.parse::<chrono_tz::Tz>().is_ok()
}

/// The name of chrono-tz's `Tz::Asia__Kolkata`, the default zone; chrono-tz
/// parses that name back to the same zone.
#[verifier::external_body]
fn default_zone_name() -> (r: String)
    ensures
        r@ == DEFAULT_TIMEZONE@,
        tz_known(r@),
{
    chrono_tz::Tz::Asia__Kolkata.name().to_string()
}

/// `DateTime::from_timestamp(secs, nanos)` is `Some`.
#[verifier::external_body]
fn chrono_timestamp_ok(secs: i64, nanos: u32) -> (r: bool)
    ensures
        r == timestamp_valid(secs, nanos),
{
    chrono::DateTime::from_timestamp(secs, nanos).is_some()
}

/// `DateTime::from_timestamp`, `with_timezone` into the parsed zone, `format(fmt)`.
#[verifier::external_body]
fn chrono_format_instant(secs: i64, nanos: u32, tz: &str, fmt: &str) -> (r: String)
    requires
        timestamp_valid(secs, nanos),
        tz_known(tz@),
        known_format(fmt@),
    ensures
        r@ == instant_text(secs, nanos, tz@, fmt@),
{
    match (chrono::DateTime::from_timestamp(secs, nanos), tz.parse::<chrono_tz::Tz>()) {
        (Some(dt), Ok(zone)) => dt.with_timezone(&zone).format(fmt).to_string(),
        _ => String::new(),
    }
}

/// The wall time `t` read in zone `tz` (`from_local_datetime(..).single()`),
/// as a UTC timestamp. Outside a leap second what comes back is a
/// representable instant; of a leap second (nanoseconds from one second on)
/// nothing more is said, since a zone offset with a seconds part moves it off
/// the 59th second, where chrono no longer accepts the pair as a timestamp.
#[verifier::external_body]
fn chrono_local_to_utc(t: WallTime, tz: &str) -> (r: Option<(i64, u32)>)
    requires
        valid_wall_time(t),
        tz_known(tz@),
    ensures
        r == local_instant(t, tz@),
        t.nano < 1_000_000_000 ==> (r matches Some(p) ==> timestamp_valid(p.0, p.1)),
{
    let (d, zone) = (t.date, tz.parse::<chrono_tz::Tz>().ok());
    let ndt = match chrono::NaiveDate::from_ymd_opt(d.year, d.month, d.day) {
        Some(nd) => nd.and_hms_nano_opt(t.hour, t.minute, t.second, t.nano),
        None => None,
    };
    match (ndt, zone) {
        (Some(n), Some(z)) => match z.from_local_datetime(&n).single() {
            Some(dt) => Some((dt.timestamp(), dt.timestamp_subsec_nanos())),
            None => None,
        },
        _ => None,
    }
}

/// The number of zones chrono-tz lists (`TZ_VARIANTS` has this many entries).
pub const TZ_ZONE_COUNT: usize = 597;

/// The IANA names of every zone chrono-tz knows (`TZ_VARIANTS`, each by
/// `name()`), in its own order. Claimed: chrono-tz parses each name (its name
/// table holds every variant under its name); there are `TZ_ZONE_COUNT` of
/// them (the length of `TZ_VARIANTS`), no name occurs twice (each variant has
/// its own name), and `Asia/Kolkata` is among them. Which other names they are
/// is left unsaid.
#[verifier::external_body]
fn chrono_tz_names() -> (r: Vec<String>)
    ensures
        forall|i: int| 0 <= i < r@.len() ==> tz_known(#[trigger] r@[i]@),
        r@.len() == TZ_ZONE_COUNT,
        strings_view(r@).no_duplicates(),
        exists|i: int| 0 <= i < r@.len() && #[trigger] r@[i]@ == DEFAULT_TIMEZONE@,
{
    let mut names = Vec::new();
    for tz in chrono_tz::TZ_VARIANTS.iter() {
        names.push(tz.name().to_string());
    }
    names
}

// ---------------------------------------------------------------------------
// Instants
// ---------------------------------------------------------------------------

/// A stored UTC instant: seconds and nanoseconds since the Unix epoch.
#[derive(Debug, Clone, Copy, PartialEq, Eq)]
pub struct Instant {
    secs: i64,
    nanos: u32,
}

impl Instant {
    #[verifier::type_invariant]
    spec fn representable(self) -> bool {
        timestamp_valid(self.secs, self.nanos)
    }

    /// The seconds since the epoch.
    pub closed spec fn secs_spec(self) -> i64 {
        self.secs
    }

    /// The nanoseconds past the second.
    pub closed spec fn nanos_spec(self) -> u32 {
        self.nanos
    }

    /// The instant `secs` seconds and `nanos` nanoseconds after the epoch, when chrono can represent it.
    pub fn from_timestamp(secs: i64, nanos: u32) -> (r: Option<Instant>)
        ensures
            match r {
                Some(i) => timestamp_valid(secs, nanos) && i.secs_spec() == secs && i.nanos_spec() == nanos,
                None => !timestamp_valid(secs, nanos),
            },
    {
        if chrono_timestamp_ok(secs, nanos) {
            Some(Instant { secs, nanos })
        } else {
            None
        }
    }

    /// Seconds since the epoch.
    pub fn timestamp(&self) -> (r: i64)
        ensures
            r == self.secs_spec(),
    {
        self.secs
    }

    /// Nanoseconds past the second.
    pub fn subsec_nanos(&self) -> (r: u32)
        ensures
            r == self.nanos_spec(),
    {
        self.nanos
    }
}

// ---------------------------------------------------------------------------
// Zones
// ---------------------------------------------------------------------------

/// The zone used for `tz`: its trimmed name when chrono-tz knows it, else the default.
pub open spec fn zone_for(tz: Seq<char>) -> Seq<char> {
    if tz_known(trim(tz)) { trim(tz) } else { DEFAULT_TIMEZONE@ }
}

/// Resolve a zone name: trimmed, falling back to `Asia/Kolkata` when unknown.
pub fn parse_timezone(tz: &str) -> (r: String)
    ensures
        r@ == zone_for(tz@),
        tz_known(r@),
{
    let t = string_of(&trim_str(tz));
    if chrono_tz_parses(t.as_str()) {
        t
    } else {
        default_zone_name()
    }
}

/// Format an instant in the zone `tz` resolves to.
fn format_in_tz(dt: Instant, tz: &str, fmt: &str) -> (r: String)
    requires
        known_format(fmt@),
    ensures
        r@ == instant_text(dt.secs_spec(), dt.nanos_spec(), zone_for(tz@), fmt@),
{
    proof {
        use_type_invariant(&dt);
    }
    let zone = parse_timezone(tz);
    chrono_format_instant(dt.secs, dt.nanos, zone.as_str(), fmt)
}

// ---------------------------------------------------------------------------
// Dates
// ---------------------------------------------------------------------------

/// Format a calendar date for labels and text inputs (`DD/MM/YYYY`).
pub fn format_date(d: CalendarDate) -> (r: String)
    requires
        valid_date(d),
    ensures
        r@ == chrono_date_text(d, DATE_FMT@),
{
    chrono_format_date(d, DATE_FMT)
}

/// The first of the three date patterns that reads `t`.
pub open spec fn date_of_trimmed(t: Seq<char>) -> Option<CalendarDate> {
    if t.len() == 0 {
        None
    } else if chrono_date_parse(t, DATE_FMT@) is Some {
        chrono_date_parse(t, DATE_FMT@)
    } else if chrono_date_parse(t, "%Y-%m-%d"@) is Some {
        chrono_date_parse(t, "%Y-%m-%d"@)
    } else {
        chrono_date_parse(t, "%d-%m-%Y"@)
    }
}

/// Parse a calendar date from a text input (trimmed; blank is `None`).
/// Prefers `DD/MM/YYYY`; also accepts ISO `YYYY-MM-DD` and `DD-MM-YYYY`.
pub fn parse_date(s: &str) -> (r: Option<CalendarDate>)
    ensures
        r == date_of_trimmed(trim(s@)),
        r matches Some(d) ==> valid_date(d),
        day_first_dash_date(trim(s@)) is Some && chrono_date_parse(trim(s@), DATE_FMT@) is None && chrono_date_parse(
            trim(s@),
            ISO_DATE_FMT@,
        ) is None ==> r == day_first_dash_date(trim(s@)),
{
    let t = string_of(&trim_str(s));
    if t.as_str().is_empty() {
        return None;
    }
    match chrono_parse_date(t.as_str(), DATE_FMT) {
        Some(d) => Some(d),
        None => match chrono_parse_date(t.as_str(), "%Y-%m-%d") {
            Some(d) => Some(d),
            None => chrono_parse_date(t.as_str(), "%d-%m-%Y"),
        },
    }
}

/// Format the calendar date of `dt` in `tz` as `DD/MM/YYYY`.
pub fn format_date_in_tz(dt: Instant, tz: &str) -> (r: String)
    ensures
        r@ == instant_text(dt.secs_spec(), dt.nanos_spec(), zone_for(tz@), DATE_FMT@),
{
    format_in_tz(dt, tz, DATE_FMT)
}

/// The patterns a wall-clock datetime is read with, in order of preference.
pub open spec fn wall_formats() -> Seq<Seq<char>> {
    seq![
        DATETIME_SECONDS_FMT@,
        DATETIME_SHORT_FMT@,
        "%Y-%m-%dT%H:%M:%S"@,
        "%Y-%m-%dT%H:%M"@,
        "%Y-%m-%d %H:%M:%S"@,
        "%Y-%m-%d %H:%M"@,
    ]
}

/// The first of `fmts` that reads `t`.
pub open spec fn first_wall_parse(t: Seq<char>, fmts: Seq<Seq<char>>) -> Option<WallTime>
    decreases fmts.len(),
{
    if fmts.len() == 0 {
        None
    } else if chrono_wall_parse(t, fmts[0]) is Some {
        chrono_wall_parse(t, fmts[0])
    } else {
        first_wall_parse(t, fmts.drop_first())
    }
}

/// The wall time that `parse_naive_datetime` reads from the trimmed `t`.
pub open spec fn wall_of_trimmed(t: Seq<char>) -> Option<WallTime> {
    if t.len() == 0 { None } else { first_wall_parse(t, wall_formats()) }
}

/// Parse a wall-clock datetime from a text input or a legacy ISO value
/// (trimmed; blank is `None`); the first of `wall_formats` that fits wins.
pub fn parse_naive_datetime(s: &str) -> (r: Option<WallTime>)
    ensures
        r == wall_of_trimmed(trim(s@)),
        r matches Some(t) ==> valid_wall_time(t),
{
    let t = string_of(&trim_str(s));
    if t.as_str().is_empty() {
        return None;
    }
    let fmts: Vec<&str> = vec![
        DATETIME_SECONDS_FMT,
        DATETIME_SHORT_FMT,
        "%Y-%m-%dT%H:%M:%S",
        "%Y-%m-%dT%H:%M",
        "%Y-%m-%d %H:%M:%S",
        "%Y-%m-%d %H:%M",
    ];
    let ghost fs = fmts@.map_values(|f: &str| f@);
    assert(fs == wall_formats());
    let mut i: usize = 0;
    assert(fs.skip(0) == fs);
    while i < fmts.len()
        invariant
            i <= fmts.len(),
            fs == fmts@.map_values(|f: &str| f@),
            fs == wall_formats(),
            t@.len() > 0,
            t@ == trim(s@),
            first_wall_parse(t@, fs) == first_wall_parse(t@, fs.skip(i as int)),
        decreases fmts.len() - i,
    {
        assert(fs.skip(i as int)[0] == fs[i as int]);
        assert(fs.skip(i as int).drop_first() == fs.skip(i + 1));
        match chrono_parse_wall(t.as_str(), fmts[i]) {
            Some(w) => {
                return Some(w);
            },
            None => {},
        }
        i = i + 1;
    }
    None
}

/// Interpret a date-only string as start-of-day in `tz` and convert to UTC.
pub fn parse_date_start_in_tz(s: &str, tz: &str) -> (r: Option<Instant>)
    ensures
        match date_of_trimmed(trim(s@)) {
            None => r is None,
            Some(d) => match local_instant(midnight(d), zone_for(tz@)) {
                None => r is None,
                Some(p) => r matches Some(i) && i.secs_spec() == p.0 && i.nanos_spec() == p.1,
            },
        },
{
    let d = parse_date(s)?;
    let zone = parse_timezone(tz);
    let w = WallTime { date: d, hour: 0, minute: 0, second: 0, nano: 0 };
    match chrono_local_to_utc(w, zone.as_str()) {
        Some((secs, nanos)) => Some(Instant { secs, nanos }),
        None => None,
    }
}

/// ISO `YYYY-MM-DD` for a native date picker, from a display string ("" when unreadable).
pub fn date_iso_for_picker(s: &str) -> (r: String)
    ensures
        r@ == match date_of_trimmed(trim(s@)) {
            Some(d) => chrono_date_text(d, ISO_DATE_FMT@),
            None => Seq::empty(),
        },
        day_first_dash_date(trim(s@)) is Some && chrono_date_parse(trim(s@), DATE_FMT@) is None
            && chrono_date_parse(trim(s@), ISO_DATE_FMT@) is None ==> r@ == chrono_date_text(
            day_first_dash_date(trim(s@))->Some_0,
            ISO_DATE_FMT@,
        ),
{
    match parse_date(s) {
        Some(d) => chrono_format_date(d, ISO_DATE_FMT),
        None => String::new(),
    }
}

/// The ISO value of a `datetime-local` picker for a display string.
pub open spec fn datetime_iso_spec(s: Seq<char>) -> Seq<char> {
    match wall_of_trimmed(trim(s)) {
        Some(t) => chrono_wall_text(t, ISO_DATETIME_FMT@),
        None => match date_of_trimmed(trim(s)) {
            Some(d) => chrono_wall_text(midnight(d), ISO_DATETIME_FMT@),
            None => Seq::empty(),
        },
    }
}

/// ISO `YYYY-MM-DDTHH:MM:SS` for a native `datetime-local` picker: a full
/// datetime if one reads, else midnight of a date, else "".
pub fn datetime_iso_for_picker(s: &str) -> (r: String)
    ensures
        r@ == datetime_iso_spec(s@),
{
    if let Some(t) = parse_naive_datetime(s) {
        return chrono_format_wall(t, ISO_DATETIME_FMT);
    }
    match parse_date(s) {
        Some(d) => chrono_format_wall(WallTime { date: d, hour: 0, minute: 0, second: 0, nano: 0 }, ISO_DATETIME_FMT),
        None => String::new(),
    }
}

// ---------------------------------------------------------------------------
// Input and label values
// ---------------------------------------------------------------------------

/// Lossy wall-clock string for datetime text inputs (display/edit only).
/// Sub-second precision does not survive `from_stored` then `to_stored`.
#[derive(Debug, Clone, PartialEq, Eq)]
pub struct DatetimeLocalInput(String);

impl View for DatetimeLocalInput {
    type V = Seq<char>;

    closed spec fn view(&self) -> Seq<char> {
        self.0@
    }
}

impl DatetimeLocalInput {
    /// An input value from a stored instant, as `DD/MM/YYYY HH:MM:SS` in `tz`.
    pub fn from_stored(dt: Instant, tz: &str) -> (r: Self)
        ensures
            r@ == instant_text(dt.secs_spec(), dt.nanos_spec(), zone_for(tz@), DATETIME_SECONDS_FMT@),
    {
        DatetimeLocalInput(format_in_tz(dt, tz, DATETIME_SECONDS_FMT))
    }

    /// Wrap a raw form/query string (not validated until `to_stored`).
    pub fn from_raw(value: &str) -> (r: Self)
        ensures
            r@ == value@,
    {
        DatetimeLocalInput(to_owned(value))
    }

    /// Read this value as wall time in `tz` and convert it to a UTC instant
    /// (none when that UTC time is no timestamp chrono accepts, which only a
    /// leap second can give).
    pub fn to_stored(&self, tz: &str) -> (r: Option<Instant>)
        ensures
            match wall_of_trimmed(trim(trim(self@))) {
                None => r is None,
                Some(t) => match local_instant(t, zone_for(tz@)) {
                    None => r is None,
                    Some(p) => if timestamp_valid(p.0, p.1) {
                        r matches Some(i) && i.secs_spec() == p.0 && i.nanos_spec() == p.1
                    } else {
                        r is None && t.nano >= 1_000_000_000
                    },
                },
            },
    {
        let inner = string_of(&trim_str(self.0.as_str()));
        let t = parse_naive_datetime(inner.as_str())?;
        let zone = parse_timezone(tz);
        match chrono_local_to_utc(t, zone.as_str()) {
            Some((secs, nanos)) => {
                if chrono_timestamp_ok(secs, nanos) {
                    Some(Instant { secs, nanos })
                } else {
                    None
                }
            },
            None => None,
        }
    }

    /// The text of the value.
    pub fn as_str(&self) -> (r: &str)
        ensures
            r@ == self@,
    {
        self.0.as_str()
    }

    /// The text of the value, owned.
    pub fn into_string(self) -> (r: String)
        ensures
            r@ == self@,
    {
        self.0
    }
}

/// Read-only formatted datetime for UI labels (not for round-trip storage).
#[derive(Debug, Clone, PartialEq, Eq)]
pub struct DatetimeLabel(String);

impl View for DatetimeLabel {
    type V = Seq<char>;

    closed spec fn view(&self) -> Seq<char> {
        self.0@
    }
}

impl DatetimeLabel {
    /// Day-first label with seconds (`DD/MM/YYYY HH:MM:SS`) in `tz`.
    pub fn display(dt: Instant, tz: &str) -> (r: Self)
        ensures
            r@ == instant_text(dt.secs_spec(), dt.nanos_spec(), zone_for(tz@), DATETIME_SECONDS_FMT@),
    {
        DatetimeLabel(format_in_tz(dt, tz, DATETIME_SECONDS_FMT))
    }

    /// Day-first label without seconds (`DD/MM/YYYY HH:MM`) in `tz`.
    pub fn short(dt: Instant, tz: &str) -> (r: Self)
        ensures
            r@ == instant_text(dt.secs_spec(), dt.nanos_spec(), zone_for(tz@), DATETIME_SHORT_FMT@),
    {
        DatetimeLabel(format_in_tz(dt, tz, DATETIME_SHORT_FMT))
    }

    /// Day-first label with seconds in `tz`.
    pub fn seconds(dt: Instant, tz: &str) -> (r: Self)
        ensures
            r@ == instant_text(dt.secs_spec(), dt.nanos_spec(), zone_for(tz@), DATETIME_SECONDS_FMT@),
    {
        DatetimeLabel(format_in_tz(dt, tz, DATETIME_SECONDS_FMT))
    }

    /// The short label, or an empty one when there is no instant.
    pub fn short_optional(dt: Option<Instant>, tz: &str) -> (r: Self)
        ensures
            r@ == match dt {
                Some(d) => instant_text(d.secs_spec(), d.nanos_spec(), zone_for(tz@), DATETIME_SHORT_FMT@),
                None => Seq::empty(),
            },
    {
        match dt {
            Some(d) => Self::short(d, tz),
            None => DatetimeLabel(String::new()),
        }
    }

    /// The text of the label.
    pub fn as_str(&self) -> (r: &str)
        ensures
            r@ == self@,
    {
        self.0.as_str()
    }

    /// The text of the label, owned.
    pub fn into_string(self) -> (r: String)
        ensures
            r@ == self@,
    {
        self.0
    }
}

/// The values of select rows.
pub open spec fn row_keys(rows: Seq<(String, String)>) -> Seq<Seq<char>> {
    rows.map_values(|r: (String, String)| r.0@)
}

/// The texts of a list of strings.
pub open spec fn strings_view(v: Seq<String>) -> Seq<Seq<char>> {
    v.map_values(|s: String| s@)
}

/// Inserting into a sequence adds the element to its multiset.
proof fn lemma_insert_to_multiset<A>(s: Seq<A>, i: int, a: A)
    requires
        0 <= i <= s.len(),
    ensures
        s.insert(i, a).to_multiset() =~= s.to_multiset().insert(a),
{
    broadcast use vstd::seq_lib::group_to_multiset_ensures;

    let t = s.insert(i, a);
    assert(t.remove(i) =~= s);
    assert(t[i] == a);
    assert(t.contains(a));
    assert(t.to_multiset().count(a) > 0);
    assert(s.to_multiset() == t.to_multiset().remove(a));
}

/// `(value, label)` select rows of `names`, both the name, sorted by name:
/// the values are the names, each as often as it is given (so strictly
/// increasing when no name is given twice).
pub fn timezone_rows(names: &Vec<String>) -> (r: Vec<(String, String)>)
    ensures
        row_keys(r@).to_multiset() == strings_view(names@).to_multiset(),
        forall|i: int| 0 <= i < r@.len() ==> (#[trigger] r@[i]).0@ == r@[i].1@,
        forall|i: int, j: int| 0 <= i < j < r@.len() ==> !crate::attrs::key_lt(#[trigger] r@[j].0@, #[trigger] r@[i].0@),
        strings_view(names@).no_duplicates() ==> forall|i: int, j: int|
            0 <= i < j < r@.len() ==> crate::attrs::key_lt(#[trigger] r@[i].0@, #[trigger] r@[j].0@),
{
    broadcast use vstd::seq_lib::group_to_multiset_ensures;

    let mut rows: Vec<(String, String)> = Vec::new();
    let mut k: usize = 0;
    assert(row_keys(rows@) =~= Seq::<Seq<char>>::empty());
    assert(strings_view(names@).take(0) =~= Seq::<Seq<char>>::empty());
    while k < names.len()
        invariant
            k <= names.len(),
            row_keys(rows@).to_multiset() == strings_view(names@).take(k as int).to_multiset(),
            forall|i: int| 0 <= i < rows@.len() ==> (#[trigger] rows@[i]).0@ == rows@[i].1@,
            forall|i: int, j: int| 0 <= i < j < rows@.len() ==> !crate::attrs::key_lt(#[trigger] rows@[j].0@, #[trigger] rows@[i].0@),
        decreases names.len() - k,
    {
        let name = names[k].clone();
        let kv = crate::text::chars_of(name.as_str());
        let mut pos: usize = 0;
        let mut scanning = true;
        while scanning && pos < rows.len()
            invariant
                pos <= rows.len(),
                kv@ == name@,
                forall|j: int| 0 <= j < pos ==> !crate::attrs::key_lt(kv@, #[trigger] rows@[j].0@),
                !scanning ==> pos < rows.len() && crate::attrs::key_lt(kv@, rows@[pos as int].0@),
            decreases rows.len() - pos, if scanning { 1int } else { 0int },
        {
            let rk = crate::text::chars_of(rows[pos].0.as_str());
            if crate::attrs::key_lt_exec(&kv, &rk) {
                scanning = false;
            } else {
                pos = pos + 1;
            }
        }
        let ghost before = rows@;
        let ghost stopped = !scanning;
        rows.insert(pos, (name.clone(), name));
        proof {
            assert(row_keys(rows@) =~= row_keys(before).insert(pos as int, names@[k as int]@));
            lemma_insert_to_multiset(row_keys(before), pos as int, names@[k as int]@);
            assert(strings_view(names@).take(k + 1) =~= strings_view(names@).take(k as int).push(names@[k as int]@));
            vstd::seq_lib::to_multiset_build(strings_view(names@).take(k as int), names@[k as int]@);
            assert(row_keys(rows@).to_multiset() == strings_view(names@).take(k + 1).to_multiset());
            assert forall|i: int| 0 <= i < rows@.len() implies (#[trigger] rows@[i]).0@ == rows@[i].1@ by {
                if i < pos {
                    assert(rows@[i] == before[i]);
                } else if i > pos {
                    assert(rows@[i] == before[i - 1]);
                }
            }
            assert forall|i: int, j: int| 0 <= i < j < rows@.len() implies !crate::attrs::key_lt(#[trigger] rows@[j].0@, #[trigger] rows@[i].0@) by {
                if j < pos {
                    assert(rows@[i] == before[i] && rows@[j] == before[j]);
                } else if j == pos {
                    assert(rows@[i] == before[i]);
                } else if i > pos {
                    assert(rows@[i] == before[i - 1] && rows@[j] == before[j - 1]);
                } else if i < pos {
                    assert(rows@[i] == before[i] && rows@[j] == before[j - 1]);
                } else {
                    let b = before[pos as int].0@;
                    let c = before[j - 1].0@;
                    assert(rows@[j] == before[j - 1]);
                    assert(stopped);
                    if crate::attrs::key_lt(c, kv@) {
                        if j - 1 == pos {
                            crate::attrs::lemma_key_lt_asym(c, kv@);
                        } else {
                            crate::attrs::lemma_key_lt_trans(c, kv@, b);
                        }
                    }
                }
            }
        }
        k = k + 1;
    }
    assert(strings_view(names@).take(names@.len() as int) =~= strings_view(names@));
    proof {
        if strings_view(names@).no_duplicates() {
            strings_view(names@).lemma_multiset_has_no_duplicates();
            row_keys(rows@).lemma_multiset_has_no_duplicates_conv();
            assert forall|i: int, j: int| 0 <= i < j < rows@.len() implies crate::attrs::key_lt(
                #[trigger] rows@[i].0@,
                #[trigger] rows@[j].0@,
            ) by {
                assert(row_keys(rows@)[i] == rows@[i].0@);
                assert(row_keys(rows@)[j] == rows@[j].0@);
                crate::attrs::lemma_key_lt_total(rows@[i].0@, rows@[j].0@);
            }
        }
    }
    rows
}

/// IANA zone names for select widgets: `(value, label)` pairs, both the
/// name, strictly sorted by name, one row per zone chrono-tz lists.
pub fn timezone_choices() -> (r: Vec<(String, String)>)
    ensures
        forall|i: int| 0 <= i < r@.len() ==> (#[trigger] r@[i]).0@ == r@[i].1@ && tz_known(r@[i].0@),
        forall|i: int, j: int| 0 <= i < j < r@.len() ==> crate::attrs::key_lt(#[trigger] r@[i].0@, #[trigger] r@[j].0@),
        r@.len() == TZ_ZONE_COUNT,
        exists|i: int| 0 <= i < r@.len() && #[trigger] r@[i].0@ == DEFAULT_TIMEZONE@,
{
    broadcast use vstd::seq_lib::group_to_multiset_ensures;

    let names = chrono_tz_names();
    let rows = timezone_rows(&names);
    proof {
        assert forall|i: int| 0 <= i < rows@.len() implies tz_known(#[trigger] rows@[i].0@) by {
            let n = rows@[i].0@;
            assert(row_keys(rows@)[i] == n);
            assert(row_keys(rows@).contains(n));
            assert(strings_view(names@).to_multiset().count(n) > 0);
            assert(strings_view(names@).contains(n));
            let j = choose|j: int| 0 <= j < strings_view(names@).len() && strings_view(names@)[j] == n;
            assert(names@[j]@ == n);
        }
        assert(row_keys(rows@).to_multiset().len() == row_keys(rows@).len());
        assert(strings_view(names@).to_multiset().len() == strings_view(names@).len());
        assert(row_keys(rows@).len() == strings_view(names@).len());
        let k = choose|k: int| 0 <= k < names@.len() && #[trigger] names@[k]@ == DEFAULT_TIMEZONE@;
        assert(strings_view(names@)[k] == DEFAULT_TIMEZONE@);
        assert(strings_view(names@).contains(DEFAULT_TIMEZONE@));
        assert(row_keys(rows@).to_multiset().count(DEFAULT_TIMEZONE@) > 0);
        assert(row_keys(rows@).contains(DEFAULT_TIMEZONE@));
        let m = choose|m: int| 0 <= m < row_keys(rows@).len() && row_keys(rows@)[m] == DEFAULT_TIMEZONE@;
        assert(rows@[m].0@ == DEFAULT_TIMEZONE@);
    }
    rows
}
} // verus!
