//! Instants in UTC and their RFC 3339 text.

use chrono::Datelike;
use vstd::prelude::*;

use crate::error::{plugin_failure, RuntimeFailure};
use crate::text::{required_bounded, within};

verus! {

/// The first second of the year -262143.
pub const FIRST_SECOND: i64 = -8_334_601_228_800;

/// The last second of the year 262142.
pub const LAST_SECOND: i64 = 8_210_266_876_799;

/// An instant: whole seconds since 1970-01-01T00:00:00Z and nanoseconds into
/// that second. A leap second keeps the number of the second before it and
/// counts its nanoseconds from 1_000_000_000.
#[derive(Clone, Copy, Debug, Eq, PartialEq, Structural)]
pub struct UtcTime {
    pub seconds: i64,
    pub nanos: u32,
}

impl UtcTime {
    /// Whether the instant lies in the calendar's range; only the last second
    /// of a minute can hold a leap second.
    pub open spec fn valid(self) -> bool {
        &&& FIRST_SECOND <= self.seconds <= LAST_SECOND
        &&& self.nanos < 2_000_000_000
        &&& self.nanos >= 1_000_000_000 ==> self.seconds % 60 == 59
    }

    /// Whether this instant comes before `other`.
    pub open spec fn before(self, other: UtcTime) -> bool {
        self.seconds < other.seconds || (self.seconds == other.seconds && self.nanos < other.nanos)
    }

    /// Whether this instant is `other` or comes before it.
    pub open spec fn at_most(self, other: UtcTime) -> bool {
        !other.before(self)
    }

    /// Whether a step of `step` nanoseconds starts and ends in a leap second
    /// or in the second that it extends.
    pub open spec fn stays_in_leap(self, step: int) -> bool {
        self.nanos >= 1_000_000_000 && -1_000_000_000 < step < 1_000_000_000 && self.nanos + step
            < 2_000_000_000
    }

    /// Nanoseconds since 1970 after a step of `step` nanoseconds that leaves a
    /// leap second or starts outside one. A leap second has no length of its
    /// own: a step that leaves it forward counts from the second it extends.
    pub open spec fn stepped(self, step: int) -> int {
        let within = if self.nanos >= 1_000_000_000 && step > 0 {
            self.nanos - 1_000_000_000
        } else {
            self.nanos as int
        };
        self.seconds * 1_000_000_000 + within + step
    }

    /// The instant `millis` milliseconds later.
    pub open spec fn plus_millis(self, millis: int) -> UtcTime {
        let step = millis * 1_000_000;
        if self.stays_in_leap(step) {
            UtcTime { seconds: self.seconds, nanos: (self.nanos + step) as u32 }
        } else {
            UtcTime {
                seconds: (self.stepped(step) / 1_000_000_000) as i64,
                nanos: (self.stepped(step) % 1_000_000_000) as u32,
            }
        }
    }

    /// Whether the instant `millis` milliseconds later is in range.
    pub open spec fn has_plus_millis(self, millis: int) -> bool {
        let step = millis * 1_000_000;
        self.stays_in_leap(step) || FIRST_SECOND <= self.stepped(step) / 1_000_000_000
            <= LAST_SECOND
    }

    /// The instant that many seconds and nanoseconds after the start of 1970,
    /// if it is one.
    pub fn at(seconds: i64, nanos: u32) -> (r: Option<UtcTime>)
        ensures
            r == (if (UtcTime { seconds, nanos }).valid() {
                Some(UtcTime { seconds, nanos })
            } else {
                None
            }),
    {
        if seconds < FIRST_SECOND || seconds > LAST_SECOND || nanos >= 2_000_000_000 {
            return None;
        }
        if nanos >= 1_000_000_000 {
            let into_minute: i64 = if seconds >= 0 {
                seconds % 60
            } else {
                59 - (-(seconds + 1)) % 60
            };
            assert(into_minute == seconds % 60);
            if into_minute != 59 {
                return None;
            }
        }
        Some(UtcTime { seconds, nanos })
    }

    /// Whether the instant `millis` milliseconds later is in range.
    pub fn has_room(&self, millis: u64) -> (r: bool)
        requires
            self.valid(),
        ensures
            r == self.has_plus_millis(millis as int),
    {
        let step: i128 = millis as i128 * 1_000_000;
        let nanos: i128 = self.nanos as i128;
        if nanos >= 1_000_000_000 && step < 1_000_000_000 && nanos + step < 2_000_000_000 {
            return true;
        }
        let within: i128 = if nanos >= 1_000_000_000 && step > 0 {
            nanos - 1_000_000_000
        } else {
            nanos
        };
        let sum: i128 = self.seconds as i128 * 1_000_000_000 + within + step;
        FIRST_SECOND as i128 * 1_000_000_000 <= sum && sum < (LAST_SECOND as i128 + 1)
            * 1_000_000_000
    }

    /// Whether this instant comes before `other`.
    pub fn is_before(&self, other: &UtcTime) -> (r: bool)
        ensures
            r == self.before(*other),
    {
        self.seconds < other.seconds || (self.seconds == other.seconds && self.nanos < other.nanos)
    }

    /// The later of two instants.
    pub fn later_of(self, other: UtcTime) -> (r: UtcTime)
        ensures
            r == (if other.before(self) {
                self
            } else {
                other
            }),
    {
        if other.is_before(&self) {
            self
        } else {
            other
        }
    }
}

/// The first second of the given year of the Gregorian calendar.
pub open spec fn new_year(year: int) -> int {
    86_400 * (365 * (year - 1970) + (year - 1) / 4 - (year - 1) / 100 + (year - 1) / 400 - 477)
}

/// `DateTime::from_timestamp` with `chrono::Duration::milliseconds` added by
/// `DateTime + TimeDelta`: exactly the instant that many milliseconds later.
#[verifier::external_body]
pub(crate) fn add_millis(time: UtcTime, millis: i64) -> (sum: UtcTime)
    requires
        time.valid(),
        i64::MIN < millis,
        time.has_plus_millis(millis as int),
    ensures
        sum == time.plus_millis(millis as int),
        sum.valid(),
{
    let start = chrono::DateTime::from_timestamp(time.seconds, time.nanos).expect("valid instant");
    let sum = start + chrono::Duration::milliseconds(millis);
    UtcTime { seconds: sum.timestamp(), nanos: sum.timestamp_subsec_nanos() }
}

/// `Datelike::year`: the year of the Gregorian calendar that holds the instant.
#[verifier::external_body]
fn year_of(time: UtcTime) -> (year: i32)
    requires
        time.valid(),
    ensures
        new_year(year as int) <= time.seconds < new_year(year + 1),
{
    chrono::DateTime::from_timestamp(time.seconds, time.nanos).expect("valid instant").year()
}

/// The instant, as seconds and nanoseconds, that RFC 3339 text denotes.
pub uninterp spec fn rfc3339_instant(text: Seq<char>) -> Option<(i64, u32)>;

/// RFC 3339 text of an instant, in UTC with milliseconds.
pub uninterp spec fn rfc3339_millis(seconds: i64, nanos: u32) -> Seq<char>;

/// RFC 3339 text of an instant, in UTC with whole seconds.
pub uninterp spec fn rfc3339_seconds(seconds: i64, nanos: u32) -> Seq<char>;

/// RFC 3339 text of an instant, in UTC with as many digits as it needs.
pub uninterp spec fn rfc3339_exact(seconds: i64, nanos: u32) -> Seq<char>;

/// The instant that `text` denotes in RFC 3339.
pub open spec fn instant_of(text: Seq<char>) -> Option<UtcTime> {
    match rfc3339_instant(text) {
        Some(pair) => Some(UtcTime { seconds: pair.0, nanos: pair.1 }),
        None => None,
    }
}

/// `DateTime::parse_from_rfc3339` followed by `with_timezone(&Utc)`: the
/// instant that the text denotes, or nothing where it is no RFC 3339 text. A
/// parsed instant is in the calendar's range.
#[verifier::external_body]
pub(crate) fn parse_time(value: &str) -> (time: Option<UtcTime>)
    ensures
        match rfc3339_instant(value@) {
            Some(pair) => time == Some((UtcTime { seconds: pair.0, nanos: pair.1 })),
            None => time is None,
        },
        time matches Some(instant) ==> instant.valid(),
{
    match chrono::DateTime::parse_from_rfc3339(value) {
        Ok(parsed) => {
            let utc = parsed.with_timezone(&chrono::Utc);
            Some(UtcTime { seconds: utc.timestamp(), nanos: utc.timestamp_subsec_nanos() })
        }
        Err(_) => None,
    }
}

/// `DateTime::to_rfc3339_opts` with `SecondsFormat::Millis` and `Z` for UTC.
#[verifier::external_body]
fn write_millis(time: UtcTime) -> (text: String)
    requires
        time.valid(),
    ensures
        text@ == rfc3339_millis(time.seconds, time.nanos),
{
    chrono::DateTime::from_timestamp(time.seconds, time.nanos)
        .expect("valid instant")
        .to_rfc3339_opts(chrono::SecondsFormat::Millis, true)
}

/// `DateTime::to_rfc3339_opts` with `SecondsFormat::Secs` and `Z` for UTC.
#[verifier::external_body]
fn write_seconds(time: UtcTime) -> (text: String)
    requires
        time.valid(),
    ensures
        text@ == rfc3339_seconds(time.seconds, time.nanos),
{
    chrono::DateTime::from_timestamp(time.seconds, time.nanos)
        .expect("valid instant")
        .to_rfc3339_opts(chrono::SecondsFormat::Secs, true)
}

/// `DateTime::to_rfc3339_opts` with `SecondsFormat::AutoSi` and `Z` for UTC, the
/// form in which `chrono` serialises an instant. In the years 0 to 9999 the text
/// denotes the very instant that was written.
#[verifier::external_body]
pub(crate) fn write_exact(time: UtcTime) -> (text: String)
    requires
        time.valid(),
    ensures
        text@ == rfc3339_exact(time.seconds, time.nanos),
        four_digit_year(time) ==> rfc3339_instant(text@) == Some((time.seconds, time.nanos)),
{
    chrono::DateTime::from_timestamp(time.seconds, time.nanos)
        .expect("valid instant")
        .to_rfc3339_opts(chrono::SecondsFormat::AutoSi, true)
}

/// The text of an instant, with as many digits as it needs.
pub open spec fn exact_text(time: UtcTime) -> Seq<char> {
    rfc3339_exact(time.seconds, time.nanos)
}

/// Whether the text of an instant denotes the instant.
pub open spec fn reads_back(time: UtcTime) -> bool {
    instant_of(exact_text(time)) == Some(time)
}

/// RFC 3339 text of bounded length.
pub open spec fn time_text(text: Seq<char>) -> bool {
    within(text, 1, 64) && instant_of(text) is Some
}

/// Whether `value` is RFC 3339 text of bounded length.
pub fn valid_time(value: &str) -> (r: bool)
    ensures
        r == time_text(value@),
{
    required_bounded(value, 1, 64) && parse_time(value).is_some()
}

/// Later years begin later.
pub proof fn lemma_new_year_order(a: int, b: int)
    requires
        a <= b,
    ensures
        new_year(a) <= new_year(b),
    decreases b - a,
{
    if a < b {
        lemma_new_year_order(a, b - 1);
    }
}

/// Whether the instant lies in the years 0 to 9999.
pub open spec fn four_digit_year(time: UtcTime) -> bool {
    new_year(0) <= time.seconds < new_year(10_000)
}

pub const YEAR_OUT_OF_RANGE: &'static str =
    "stored Notification timestamp is outside the RFC 3339 four-digit year range";

pub const TIME_TEXT_INVALID: &'static str =
    "stored Notification timestamp violates its bounded Capability Contract";

/// The text of a stored instant, or why it has none.
pub open spec fn formatted_time(time: UtcTime) -> Result<Seq<char>, Seq<char>> {
    let text = rfc3339_millis(time.seconds, time.nanos);
    if !four_digit_year(time) {
        Err(YEAR_OUT_OF_RANGE@)
    } else if !time_text(text) {
        Err(TIME_TEXT_INVALID@)
    } else {
        Ok(text)
    }
}

/// RFC 3339 text, with milliseconds, of a stored instant; instants outside the
/// years 0 to 9999 have none.
pub fn format_time(time: UtcTime) -> (r: Result<String, RuntimeFailure>)
    requires
        time.valid(),
    ensures
        match r {
            Ok(text) => formatted_time(time) == Ok::<Seq<char>, Seq<char>>(text@),
            Err(failure) => formatted_time(time) is Err && failure.is_plugin_failure(
                formatted_time(time)->Err_0,
            ),
        },
{
    let year: i32 = year_of(time);
    proof {
        if year < 0 {
            lemma_new_year_order(year + 1, 0);
        } else {
            lemma_new_year_order(0, year as int);
        }
        if year > 9_999 {
            lemma_new_year_order(10_000, year as int);
        } else {
            lemma_new_year_order(year + 1, 10_000);
        }
    }
    if year < 0 || year > 9_999 {
        return Err(plugin_failure(YEAR_OUT_OF_RANGE));
    }
    let text = write_millis(time);
    if !valid_time(text.as_str()) {
        return Err(plugin_failure(TIME_TEXT_INVALID));
    }
    Ok(text)
}

/// RFC 3339 text, with whole seconds, of an instant shown in a template.
pub fn format_template_time(time: UtcTime) -> (text: String)
    requires
        time.valid(),
    ensures
        text@ == rfc3339_seconds(time.seconds, time.nanos),
{
    write_seconds(time)
}

/// Adding a positive number of milliseconds gives a later instant.
pub proof fn lemma_plus_millis_is_later(time: UtcTime, millis: int)
    requires
        time.valid(),
        millis > 0,
        time.has_plus_millis(millis),
    ensures
        time.before(time.plus_millis(millis)),
{
}

/// A longer wait never ends earlier.
pub proof fn law_longer_waits_end_later(time: UtcTime, a: int, b: int)
    requires
        time.valid(),
        0 <= a <= b,
        time.has_plus_millis(a),
        time.has_plus_millis(b),
    ensures
        time.plus_millis(a).at_most(time.plus_millis(b)),
{
}

} // verus!
