use crate::number_base_converter::{format_radix, parse_radix, parsed_u64, radix_digits};
use chrono::{Datelike, TimeZone};
use vstd::prelude::*;

verus! {

/// The second count of 0001-01-01T00:00:00Z, the first supported instant.
pub const MIN_TIMESTAMP: i64 = -62135596800;

/// The second count of 9999-12-31T23:59:59Z, the last supported instant.
pub const MAX_TIMESTAMP: i64 = 253402300799;

/// An instant, in seconds since 1970-01-01T00:00:00Z, of the years 1 to 9999.
pub open spec fn in_supported_range(ts: int) -> bool {
    MIN_TIMESTAMP <= ts <= MAX_TIMESTAMP
}

/// What reading `s` with the `strftime`-style `format` as a date and time
/// gives: its year and its second count taken as UTC.
pub uninterp spec fn datetime_reading(s: Seq<char>, format: Seq<char>) -> Option<(int, int)>;

/// What reading `s` with the `strftime`-style `format` as a date alone gives:
/// its year and the second count of its midnight UTC.
pub uninterp spec fn date_reading(s: Seq<char>, format: Seq<char>) -> Option<(int, int)>;

/// The instant `ts` in RFC 3339 form, in UTC.
pub uninterp spec fn rfc3339_text(ts: int) -> Seq<char>;

/// The instant `ts` in RFC 2822 form, in UTC.
pub uninterp spec fn rfc2822_text(ts: int) -> Seq<char>;

/// The instant `ts`, in UTC, written with the `strftime`-style `pattern`.
pub uninterp spec fn strftime_text(ts: int, pattern: Seq<char>) -> Seq<char>;

/// What reading `s` as a signed 64-bit decimal gives: an optional sign, then
/// at least one digit, with a value that fits.
pub open spec fn parsed_i64(s: Seq<char>) -> Option<i64> {
    if s.len() > 0 && s[0] == '-' {
        let d = s.skip(1);
        if d.len() > 0 && d[0] != '+' {
            match parsed_u64(d, 10) {
                Some(v) => if v <= 0x8000_0000_0000_0000 {
                    Some((-(v as int)) as i64)
                } else {
                    None
                },
                None => None,
            }
        } else {
            None
        }
    } else {
        match parsed_u64(s, 10) {
            Some(v) => if v <= i64::MAX {
                Some(v as i64)
            } else {
                None
            },
            None => None,
        }
    }
}

/// `a` when it holds a value, else `b`.
pub open spec fn either(a: Option<(int, int)>, b: Option<(int, int)>) -> Option<(int, int)> {
    if a is Some {
        a
    } else {
        b
    }
}

/// The first of the supported date-and-time formats that reads `s`.
pub open spec fn first_datetime_reading(s: Seq<char>) -> Option<(int, int)> {
    either(
        datetime_reading(s, "%Y-%m-%d %H:%M:%S"@),
        either(
            datetime_reading(s, "%Y-%m-%dT%H:%M:%S%:z"@),
            either(
                datetime_reading(s, "%d/%m/%Y %H:%M:%S"@),
                either(datetime_reading(s, "%Y-%m-%d"@), datetime_reading(s, "%d/%m/%Y"@)),
            ),
        ),
    )
}

/// A reading's instant, or the year error when its year is outside 1-9999.
pub open spec fn year_checked(reading: (int, int)) -> Result<int, Seq<char>> {
    if 1 <= reading.0 <= 9999 {
        Ok(reading.1)
    } else {
        Err("Year out of supported range (1-9999)"@)
    }
}

/// The instant that the text `s` denotes, or the message explaining why it
/// denotes none. A whole number is a second count and must fit in 32 bits;
/// otherwise the supported formats are tried in turn, then a bare
/// `%Y-%m-%d` date at midnight.
pub open spec fn input_instant(s: Seq<char>) -> Result<int, Seq<char>> {
    match parsed_i64(s) {
        Some(t) => if t < i32::MIN || t > i32::MAX {
            Err("Timestamp out of supported range"@)
        } else {
            Ok(t as int)
        },
        None => match first_datetime_reading(s) {
            Some(reading) => year_checked(reading),
            None => match date_reading(s, "%Y-%m-%d"@) {
                Some(reading) => year_checked(reading),
                None => Err("Unrecognized date-time format"@),
            },
        },
    }
}

/// `t` in decimal, with a `-` when negative.
pub open spec fn signed_decimal(t: int) -> Seq<char> {
    if t < 0 {
        seq!['-'] + radix_digits((-t) as nat, 10)
    } else {
        radix_digits(t as nat, 10)
    }
}

/// Converts a date and time between textual formats.
pub struct DateConverter {
    /// The date and time as typed.
    pub input: String,
    /// The instant in RFC 3339 form.
    pub rfc3339: String,
    /// The instant in RFC 2822 form.
    pub rfc2822: String,
    /// The instant in ISO 8601 form.
    pub iso8601: String,
    /// The instant as a Unix timestamp.
    pub unix_timestamp: String,
    /// The instant as a sentence, weekday and month spelled out.
    pub human_readable: String,
    /// The date as day/month/year.
    pub short_date: String,
    /// The time of day.
    pub time_only: String,
}

impl DateConverter {
    /// Every output field holds `m`.
    pub open spec fn all_outputs_are(&self, m: Seq<char>) -> bool {
        &&& self.rfc3339@ == m
        &&& self.rfc2822@ == m
        &&& self.iso8601@ == m
        &&& self.unix_timestamp@ == m
        &&& self.human_readable@ == m
        &&& self.short_date@ == m
        &&& self.time_only@ == m
    }

    /// The output fields show the instant `t`.
    pub open spec fn shows_instant(&self, t: int) -> bool {
        &&& self.rfc3339@ == rfc3339_text(t)
        &&& self.rfc2822@ == rfc2822_text(t)
        &&& self.iso8601@ == strftime_text(t, "%Y-%m-%dT%H:%M:%S%:z"@)
        &&& self.unix_timestamp@ == signed_decimal(t)
        &&& self.human_readable@ == strftime_text(t, "%A, %B %d, %Y, %I:%M:%S %p"@)
        &&& self.short_date@ == strftime_text(t, "%d/%m/%Y"@)
        &&& self.time_only@ == strftime_text(t, "%H:%M:%S"@)
    }

    /// Creates a converter with empty input and outputs.
    pub fn new() -> (r: Self)
        ensures
            r.input@.len() == 0,
            r.all_outputs_are(Seq::empty()),
    {
        DateConverter {
            input: String::new(),
            rfc3339: String::new(),
            rfc2822: String::new(),
            iso8601: String::new(),
            unix_timestamp: String::new(),
            human_readable: String::new(),
            short_date: String::new(),
            time_only: String::new(),
        }
    }

    /// Reads `input` and writes the instant in every output format, or the
    /// reason it could not be read into every output field.
    pub fn convert_all(&mut self)
        ensures
            final(self).input == old(self).input,
            match input_instant(old(self).input@) {
                Ok(t) => final(self).shows_instant(t),
                Err(m) => final(self).all_outputs_are(m),
            },
    {
        match self.parse_input() {
            Ok(t) => self.convert_from_datetime(t),
            Err(m) => self.set_all_to(m.as_str()),
        }
    }

    /// The instant `input` denotes, in seconds since the Unix epoch, or the
    /// message explaining why it denotes none.
    pub fn parse_input(&self) -> (r: Result<i64, String>)
        ensures
            match r {
                Ok(t) => input_instant(self.input@) == Ok::<int, Seq<char>>(t as int)
                    && in_supported_range(t as int),
                Err(m) => input_instant(self.input@) == Err::<int, Seq<char>>(m@),
            },
    {
        let s = self.input.as_str();
        if let Some(t) = parse_i64(s) {
            if t < -2147483648 || t > 2147483647 {
                return Err(String::from_str("Timestamp out of supported range"));
            }
            if !utc_instant_exists(t) {
                return Err(String::from_str("Invalid timestamp"));
            }
            return Ok(t);
        }
        let mut reading = read_datetime(s, "%Y-%m-%d %H:%M:%S");
        if reading.is_none() {
            reading = read_datetime(s, "%Y-%m-%dT%H:%M:%S%:z");
        }
        if reading.is_none() {
            reading = read_datetime(s, "%d/%m/%Y %H:%M:%S");
        }
        if reading.is_none() {
            reading = read_datetime(s, "%Y-%m-%d");
        }
        if reading.is_none() {
            reading = read_datetime(s, "%d/%m/%Y");
        }
        if reading.is_none() {
            reading = read_date(s, "%Y-%m-%d");
        }
        match reading {
            Some((year, t)) => if 1 <= year && year <= 9999 {
                Ok(t)
            } else {
                Err(String::from_str("Year out of supported range (1-9999)"))
            },
            None => Err(String::from_str("Unrecognized date-time format")),
        }
    }

    /// Writes the instant `t` in every output format.
    pub fn convert_from_datetime(&mut self, t: i64)
        requires
            in_supported_range(t as int),
        ensures
            final(self).input == old(self).input,
            final(self).shows_instant(t as int),
    {
        self.rfc3339 = rfc3339_of(t);
        self.rfc2822 = rfc2822_of(t);
        self.iso8601 = format_instant(t, "%Y-%m-%dT%H:%M:%S%:z");
        self.unix_timestamp = format_signed(t);
        self.human_readable = format_instant(t, "%A, %B %d, %Y, %I:%M:%S %p");
        self.short_date = format_instant(t, "%d/%m/%Y");
        self.time_only = format_instant(t, "%H:%M:%S");
    }

    /// Writes `message` into every output field.
    pub fn set_all_to(&mut self, message: &str)
        ensures
            final(self).input == old(self).input,
            final(self).all_outputs_are(message@),
    {
        self.rfc3339 = String::from_str(message);
        self.rfc2822 = String::from_str(message);
        self.iso8601 = String::from_str(message);
        self.unix_timestamp = String::from_str(message);
        self.human_readable = String::from_str(message);
        self.short_date = String::from_str(message);
        self.time_only = String::from_str(message);
    }
}

/// Reads `s` as a signed 64-bit decimal: an optional sign, then digits.
pub fn parse_i64(s: &str) -> (r: Option<i64>)
    ensures
        r == parsed_i64(s@),
{
    let n = s.unicode_len();
    if n > 0 && s.get_char(0) == '-' {
        let d = s.substring_char(1, n);
        assert(d@ =~= s@.skip(1));
        if n == 1 || s.get_char(1) == '+' {
            return None;
        }
        match parse_radix(d, 10) {
            Some(v) => if v <= 0x8000_0000_0000_0000 {
                Some((-(v as i128)) as i64)
            } else {
                None
            },
            None => None,
        }
    } else {
        match parse_radix(s, 10) {
            Some(v) => if v <= 0x7fff_ffff_ffff_ffff {
                Some(v as i64)
            } else {
                None
            },
            None => None,
        }
    }
}

/// `t` in decimal, with a `-` when negative.
pub fn format_signed(t: i64) -> (r: String)
    ensures
        r@ == signed_decimal(t as int),
{
    if t < 0 {
        let mut out = String::from_str("-");
        proof {
            reveal_strlit("-");
        }
        let magnitude: u64 = (-(t as i128)) as u64;
        out.append(format_radix(magnitude, 10).as_str());
        assert(out@ =~= signed_decimal(t as int));
        out
    } else {
        format_radix(t as u64, 10)
    }
}

/// Relies on `chrono::Utc.timestamp_opt(ts, 0).single()`, which holds an
/// instant for every second count of the years 1 to 9999.
#[verifier::external_body]
fn utc_instant_exists(ts: i64) -> (r: bool)
    ensures
        in_supported_range(ts as int) ==> r,
{
    chrono::Utc.timestamp_opt(ts, 0).single().is_some()
}

/// Relies on `chrono::NaiveDateTime::parse_from_str`: the year of the value
/// read and its second count as UTC, whose instant lies in the supported
/// range whenever the year is 1 to 9999.
#[verifier::external_body]
fn read_datetime(s: &str, format: &str) -> (r: Option<(i32, i64)>)
    ensures
        match r {
            Some((y, t)) => datetime_reading(s@, format@) == Some((y as int, t as int)) && (1 <= y
                <= 9999 ==> in_supported_range(t as int)),
            None => datetime_reading(s@, format@) is None,
        },
{
    match chrono::NaiveDateTime::parse_from_str(s, format) {
        Ok(n) => Some((n.year(), n.and_utc().timestamp())),
        Err(_) => None,
    }
}

/// Relies on `chrono::NaiveDate::parse_from_str`: the year of the date read
/// and the second count of its midnight UTC, whose instant lies in the
/// supported range whenever the year is 1 to 9999.
#[verifier::external_body]
fn read_date(s: &str, format: &str) -> (r: Option<(i32, i64)>)
    ensures
        match r {
            Some((y, t)) => date_reading(s@, format@) == Some((y as int, t as int)) && (1 <= y
                <= 9999 ==> in_supported_range(t as int)),
            None => date_reading(s@, format@) is None,
        },
{
    match chrono::NaiveDate::parse_from_str(s, format) {
        Ok(d) => Some((d.year(), d.and_time(chrono::NaiveTime::MIN).and_utc().timestamp())),
        Err(_) => None,
    }
}

/// Relies on `chrono::DateTime::<Utc>::to_rfc3339` for the instant `ts`.
#[verifier::external_body]
fn rfc3339_of(ts: i64) -> (r: String)
    requires
        in_supported_range(ts as int),
    ensures
        r@ == rfc3339_text(ts as int),
{
    chrono::DateTime::from_timestamp(ts, 0).unwrap().to_rfc3339()
}

/// Relies on `chrono::DateTime::<Utc>::to_rfc2822` for the instant `ts`,
/// which panics only outside the years 0 to 9999.
#[verifier::external_body]
fn rfc2822_of(ts: i64) -> (r: String)
    requires
        in_supported_range(ts as int),
    ensures
        r@ == rfc2822_text(ts as int),
{
    chrono::DateTime::from_timestamp(ts, 0).unwrap().to_rfc2822()
}

/// One of the output patterns this converter writes with.
pub open spec fn is_output_pattern(p: Seq<char>) -> bool {
    ||| p == "%Y-%m-%dT%H:%M:%S%:z"@
    ||| p == "%A, %B %d, %Y, %I:%M:%S %p"@
    ||| p == "%d/%m/%Y"@
    ||| p == "%H:%M:%S"@
}

/// Relies on `chrono::DateTime::<Utc>::format` for the instant `ts`; its
/// text is written without error for these well-formed patterns.
#[verifier::external_body]
fn format_instant(ts: i64, pattern: &str) -> (r: String)
    requires
        in_supported_range(ts as int),
        is_output_pattern(pattern@),
    ensures
        r@ == strftime_text(ts as int, pattern@),
{
    chrono::DateTime::from_timestamp(ts, 0).unwrap().format(pattern).to_string()
}

} // verus!
