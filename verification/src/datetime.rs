//! Points in time.
//!
//! A [`DateTime`] is an instant: the whole seconds since the Unix epoch
//! and the nanoseconds since the last whole second. The calendar belongs
//! to the `chrono` crate: which instants it can represent, how an instant
//! is written and read as text, and what an instant a duration later is.
//! Each of these is a trusted function here, whose result has a name; what
//! is made of the results is verified.
use vstd::prelude::*;
use crate::text::chars_of;

verus! {

// ---------------------------------------------------------------------
// What the calendar says
// ---------------------------------------------------------------------
/// Whether `chrono` can represent the instant.
pub uninterp spec fn timestamp_in_range(secs: i64, nanos: u32) -> bool;

/// The year of the instant in UTC.
pub uninterp spec fn utc_year(secs: i64, nanos: u32) -> int;

/// The RFC 2822 text of an instant in UTC, such as
/// `Tue, 1 Jul 2003 10:52:37 +0000`.
pub uninterp spec fn rfc2822_text(secs: i64, nanos: u32) -> Seq<char>;

/// The RFC 3339 text of an instant in UTC, with milliseconds and `Z`,
/// such as `2003-07-01T10:52:37.000Z`.
pub uninterp spec fn rfc3339_text(secs: i64, nanos: u32) -> Seq<char>;

/// The instant that an RFC 2822 text denotes, or why it denotes none.
pub uninterp spec fn rfc2822_instant(s: Seq<char>) -> Result<(i64, u32), Seq<char>>;

/// The instant that an RFC 3339 text denotes, or why it denotes none.
pub uninterp spec fn rfc3339_instant(s: Seq<char>) -> Result<(i64, u32), Seq<char>>;

/// The instant that lies a duration after an instant, if `chrono` can
/// represent it.
pub uninterp spec fn instant_after(secs: i64, nanos: u32, by_secs: u64, by_nanos: u32) -> Option<
    (i64, u32),
>;

/// The instant that lies a duration before an instant, if `chrono` can
/// represent it.
pub uninterp spec fn instant_before(secs: i64, nanos: u32, by_secs: u64, by_nanos: u32) -> Option<
    (i64, u32),
>;

/// Whether `chrono` can represent the instant.
///
/// Trusted: this is `chrono::DateTime::from_timestamp`, which returns
/// `None` on an out-of-range number of seconds or an invalid number of
/// nanoseconds. Its source shows that the number of the day of the instant
/// must fit in 32 bits, which keeps the seconds well within two hundred
/// million million either way, that the nanoseconds must be under two
/// thousand million, and that the Unix epoch itself is in range.
#[verifier::external_body]
fn in_range(secs: i64, nanos: u32) -> (r: bool)
    ensures
        r == timestamp_in_range(secs, nanos),
        r ==> -200000000000000 < secs < 200000000000000 && nanos < 2000000000,
        secs == 0 && nanos == 0 ==> r,
{
    chrono::DateTime::from_timestamp(secs, nanos).is_some()
}

/// The year of an instant in UTC.
///
/// Trusted: this is `chrono::Datelike::year` of the instant that
/// `chrono::DateTime::from_timestamp` makes.
#[verifier::external_body]
fn year_of(secs: i64, nanos: u32) -> (r: i32)
    requires
        timestamp_in_range(secs, nanos),
    ensures
        r == utc_year(secs, nanos),
{
    chrono::Datelike::year(&chrono::DateTime::from_timestamp(secs, nanos).unwrap())
}

/// The RFC 2822 text of an instant in UTC.
///
/// Trusted: this is `chrono::DateTime::to_rfc2822`, which panics where
/// the year is negative or has more than four digits, and nowhere else.
#[verifier::external_body]
fn to_rfc2822(secs: i64, nanos: u32) -> (r: String)
    requires
        timestamp_in_range(secs, nanos),
        0 <= utc_year(secs, nanos) <= 9999,
    ensures
        r@ == rfc2822_text(secs, nanos),
{
    chrono::DateTime::from_timestamp(secs, nanos).unwrap().to_rfc2822()
}

/// The RFC 3339 text of an instant in UTC, with milliseconds and `Z`.
///
/// Trusted: this is `chrono::DateTime::to_rfc3339_opts` with
/// `SecondsFormat::Millis` and `use_z`.
#[verifier::external_body]
fn to_rfc3339(secs: i64, nanos: u32) -> (r: String)
    requires
        timestamp_in_range(secs, nanos),
    ensures
        r@ == rfc3339_text(secs, nanos),
{
    let instant = chrono::DateTime::from_timestamp(secs, nanos).unwrap();
    instant.to_rfc3339_opts(chrono::SecondsFormat::Millis, true)
}

/// The instant that an RFC 2822 text denotes.
///
/// Trusted: this is `chrono::DateTime::parse_from_rfc2822`. The instant
/// of what it returns is in range, as every `chrono::DateTime` is; the
/// error is the text of its error.
#[verifier::external_body]
fn from_rfc2822(s: &str) -> (r: Result<(i64, u32), String>)
    ensures
        match r {
            Ok(instant) => rfc2822_instant(s@) == Ok::<(i64, u32), Seq<char>>(instant)
                && timestamp_in_range(instant.0, instant.1),
            Err(message) => rfc2822_instant(s@) == Err::<(i64, u32), Seq<char>>(message@),
        },
{
    match chrono::DateTime::parse_from_rfc2822(s) {
        Ok(instant) => Ok((instant.timestamp(), instant.timestamp_subsec_nanos())),
        Err(error) => Err(error.to_string()),
    }
}

/// The instant that an RFC 3339 text denotes.
///
/// Trusted: this is `chrono::DateTime::parse_from_rfc3339`. The instant
/// of what it returns is in range, as every `chrono::DateTime` is; the
/// error is the text of its error.
#[verifier::external_body]
fn from_rfc3339(s: &str) -> (r: Result<(i64, u32), String>)
    ensures
        match r {
            Ok(instant) => rfc3339_instant(s@) == Ok::<(i64, u32), Seq<char>>(instant)
                && timestamp_in_range(instant.0, instant.1),
            Err(message) => rfc3339_instant(s@) == Err::<(i64, u32), Seq<char>>(message@),
        },
{
    match chrono::DateTime::parse_from_rfc3339(s) {
        Ok(instant) => Ok((instant.timestamp(), instant.timestamp_subsec_nanos())),
        Err(error) => Err(error.to_string()),
    }
}

/// The instant a duration after an instant.
///
/// Trusted: this is `chrono::DateTime::checked_add_signed`, with the
/// duration made by `chrono::TimeDelta::from_std`; each returns nothing
/// where the result is out of its range. The instant of what is returned is
/// in range, as every `chrono::DateTime` is.
#[verifier::external_body]
fn after(secs: i64, nanos: u32, by_secs: u64, by_nanos: u32) -> (r: Option<(i64, u32)>)
    requires
        timestamp_in_range(secs, nanos),
        by_nanos < 1000000000,
    ensures
        r == instant_after(secs, nanos, by_secs, by_nanos),
        r matches Some(instant) ==> timestamp_in_range(instant.0, instant.1),
{
    let by = chrono::TimeDelta::from_std(std::time::Duration::new(by_secs, by_nanos)).ok()?;
    let instant = chrono::DateTime::from_timestamp(secs, nanos).unwrap().checked_add_signed(by)?;
    Some((instant.timestamp(), instant.timestamp_subsec_nanos()))
}

/// The instant a duration before an instant.
///
/// Trusted: this is `chrono::DateTime::checked_sub_signed`, with the
/// duration made by `chrono::TimeDelta::from_std`; each returns nothing
/// where the result is out of its range. The instant of what is returned is
/// in range, as every `chrono::DateTime` is.
#[verifier::external_body]
fn before(secs: i64, nanos: u32, by_secs: u64, by_nanos: u32) -> (r: Option<(i64, u32)>)
    requires
        timestamp_in_range(secs, nanos),
        by_nanos < 1000000000,
    ensures
        r == instant_before(secs, nanos, by_secs, by_nanos),
        r matches Some(instant) ==> timestamp_in_range(instant.0, instant.1),
{
    let by = chrono::TimeDelta::from_std(std::time::Duration::new(by_secs, by_nanos)).ok()?;
    let instant = chrono::DateTime::from_timestamp(secs, nanos).unwrap().checked_sub_signed(by)?;
    Some((instant.timestamp(), instant.timestamp_subsec_nanos()))
}

// ---------------------------------------------------------------------
// Instants
// ---------------------------------------------------------------------
/// The mathematical content of a [`DateTime`].
pub struct Instant {
    pub secs: i64,
    pub nanos: u32,
}

impl Instant {
    /// An instant that `chrono` can represent.
    pub open spec fn wf(self) -> bool {
        timestamp_in_range(self.secs, self.nanos)
    }

    /// The instant of a number of seconds since the Unix epoch: that
    /// number of seconds where it is in range, else the epoch.
    pub open spec fn from_timestamp(secs: i64) -> Instant {
        if timestamp_in_range(secs, 0) {
            Instant { secs, nanos: 0 }
        } else {
            Instant { secs: 0, nanos: 0 }
        }
    }

    /// The instant of a number of milliseconds since the Unix epoch: the
    /// whole seconds below it and the milliseconds above them, where that
    /// is in range, else the epoch.
    pub open spec fn from_timestamp_millis(millis: i64) -> Instant {
        let secs = (millis as int / 1000) as i64;
        let nanos = ((millis as int % 1000) * 1000000) as u32;
        if timestamp_in_range(secs, nanos) {
            Instant { secs, nanos }
        } else {
            Instant { secs: 0, nanos: 0 }
        }
    }

    /// The milliseconds since the Unix epoch.
    pub open spec fn timestamp_millis(self) -> int {
        self.secs * 1000 + self.nanos / 1000000
    }
}

/// Why a text denotes no date and time.
#[derive(Debug)]
pub struct ParseError {
    pub message: String,
}

/// A point in time. `chrono` can represent it.
#[derive(Clone, Copy, Debug, PartialEq, Eq, Structural, PartialOrd, Ord, Hash)]
pub struct DateTime {
    secs: i64,
    nanos: u32,
}

impl View for DateTime {
    type V = Instant;

    closed spec fn view(&self) -> Instant {
        Instant { secs: self.secs, nanos: self.nanos }
    }
}

/// `text` without the `suffix` at its end, as often as it is there.
pub open spec fn trim_end(text: Seq<char>, suffix: Seq<char>) -> Seq<char>
    decreases text.len(),
{
    if suffix.len() > 0 && text.len() >= suffix.len() && text.skip(text.len() - suffix.len())
        == suffix {
        trim_end(text.take(text.len() - suffix.len()), suffix)
    } else {
        text
    }
}

/// The text of a date and time in UTC for a header of HTTP, made of its
/// RFC 2822 text: `GMT` stands in place of the offset `+0000`.
pub open spec fn utc_text(rfc2822: Seq<char>) -> Seq<char> {
    trim_end(rfc2822, " +0000"@) + " GMT"@
}

/// Makes the text of a date and time in UTC of its RFC 2822 text.
pub fn utc_string(rfc2822: &str) -> (r: String)
    ensures
        r@ == utc_text(rfc2822@),
{
    let chars = chars_of(rfc2822);
    let ghost suffix = " +0000"@;
    proof {
        reveal_strlit(" +0000");
    }
    let mut end: usize = chars.len();
    proof {
        assert(rfc2822@.take(end as int) == rfc2822@);
    }
    while end >= 6 && chars[end - 6] == ' ' && chars[end - 5] == '+' && chars[end - 4] == '0'
        && chars[end - 3] == '0' && chars[end - 2] == '0' && chars[end - 1] == '0'
        invariant
            end <= chars.len(),
            chars@ == rfc2822@,
            suffix == " +0000"@,
            suffix.len() == 6,
            suffix[0] == ' ',
            suffix[1] == '+',
            suffix[2] == '0',
            suffix[3] == '0',
            suffix[4] == '0',
            suffix[5] == '0',
            trim_end(rfc2822@, suffix) == trim_end(rfc2822@.take(end as int), suffix),
        decreases end,
    {
        proof {
            let text = rfc2822@.take(end as int);
            assert(text.skip(text.len() - 6) =~= suffix);
            assert(text.take(text.len() - 6) == rfc2822@.take(end - 6));
        }
        end = end - 6;
    }
    proof {
        let text = rfc2822@.take(end as int);
        if text.len() >= 6 && text.skip(text.len() - 6) == suffix {
            let tail = text.skip(text.len() - 6);
            assert(tail[0] == text[end - 6]);
            assert(tail[1] == text[end - 5]);
            assert(tail[2] == text[end - 4]);
            assert(tail[3] == text[end - 3]);
            assert(tail[4] == text[end - 2]);
            assert(tail[5] == text[end - 1]);
        }
        assert(trim_end(text, suffix) == text);
    }
    let mut r = String::new();
    let mut i: usize = 0;
    while i < end
        invariant
            i <= end <= chars.len(),
            chars@ == rfc2822@,
            r@ == rfc2822@.take(i as int),
        decreases end - i,
    {
        crate::text::push_char(&mut r, chars[i]);
        i += 1;
    }
    r.append(" GMT");
    r
}

impl DateTime {
    #[verifier::type_invariant]
    spec fn inv(&self) -> bool {
        self@.wf()
    }

    /// The instant of the given seconds and nanoseconds, if `chrono` can
    /// represent it.
    pub fn from_parts(secs: i64, nanos: u32) -> (r: Option<DateTime>)
        ensures
            match r {
                Some(instant) => instant@ == (Instant { secs, nanos }) && instant@.wf(),
                None => !timestamp_in_range(secs, nanos),
            },
    {
        if in_range(secs, nanos) {
            Some(DateTime { secs, nanos })
        } else {
            None
        }
    }

    /// The Unix epoch.
    pub fn epoch() -> (r: DateTime)
        ensures
            r@ == (Instant { secs: 0, nanos: 0 }),
    {
        // The call states that the epoch is in range.
        let known = in_range(0, 0);
        assert(known);
        DateTime { secs: 0, nanos: 0 }
    }

    /// The instant that lies `secs` seconds after the Unix epoch; the
    /// epoch where that instant is out of range.
    pub fn from_timestamp(secs: i64) -> (r: DateTime)
        ensures
            r@ == Instant::from_timestamp(secs),
    {
        match DateTime::from_parts(secs, 0) {
            Some(instant) => instant,
            None => DateTime::epoch(),
        }
    }

    /// The instant that lies `millis` milliseconds after the Unix epoch;
    /// the epoch where that instant is out of range.
    pub fn from_timestamp_millis(millis: i64) -> (r: DateTime)
        ensures
            r@ == Instant::from_timestamp_millis(millis),
    {
        // The whole seconds below `millis`, and the milliseconds above them.
        let quotient: i64 = millis / 1000;
        let remainder: i64 = millis % 1000;
        let (secs, rest): (i64, i64) = if remainder < 0 {
            (quotient - 1, remainder + 1000)
        } else {
            (quotient, remainder)
        };
        let nanos: u32 = (rest as u32) * 1000000;
        match DateTime::from_parts(secs, nanos) {
            Some(instant) => instant,
            None => DateTime::epoch(),
        }
    }

    /// The whole seconds since the Unix epoch.
    pub fn timestamp(&self) -> (r: i64)
        ensures
            r == self@.secs,
    {
        self.secs
    }

    /// The nanoseconds since the last whole second.
    pub fn timestamp_subsec_nanos(&self) -> (r: u32)
        ensures
            r == self@.nanos,
    {
        self.nanos
    }

    /// The milliseconds since the Unix epoch.
    pub fn timestamp_millis(&self) -> (r: i64)
        ensures
            r == self@.timestamp_millis(),
    {
        proof {
            use_type_invariant(self);
        }
        // The call states the bounds of an instant in range, within which the
        // milliseconds fit in 64 bits.
        let known = in_range(self.secs, self.nanos);
        assert(known);
        self.secs * 1000 + (self.nanos / 1000000) as i64
    }

    /// Reads an RFC 2822 date and time.
    pub fn parse_utc_str(s: &str) -> (r: Result<DateTime, ParseError>)
        ensures
            match r {
                Ok(instant) => rfc2822_instant(s@) == Ok::<(i64, u32), Seq<char>>(
                    (instant@.secs, instant@.nanos),
                ),
                Err(error) => rfc2822_instant(s@) == Err::<(i64, u32), Seq<char>>(error.message@),
            },
    {
        match from_rfc2822(s) {
            Ok((secs, nanos)) => Ok(DateTime { secs, nanos }),
            Err(message) => Err(ParseError { message }),
        }
    }

    /// Reads an RFC 3339 and ISO 8601 date and time.
    pub fn parse_iso_str(s: &str) -> (r: Result<DateTime, ParseError>)
        ensures
            match r {
                Ok(instant) => rfc3339_instant(s@) == Ok::<(i64, u32), Seq<char>>(
                    (instant@.secs, instant@.nanos),
                ),
                Err(error) => rfc3339_instant(s@) == Err::<(i64, u32), Seq<char>>(error.message@),
            },
    {
        match from_rfc3339(s) {
            Ok((secs, nanos)) => Ok(DateTime { secs, nanos }),
            Err(message) => Err(ParseError { message }),
        }
    }

    /// Whether the instant has an RFC 2822 text: its year in UTC is not
    /// negative and has four digits at most.
    pub fn has_utc_string(&self) -> (r: bool)
        ensures
            r == (0 <= utc_year(self@.secs, self@.nanos) <= 9999),
    {
        proof {
            use_type_invariant(self);
        }
        let year = year_of(self.secs, self.nanos);
        0 <= year && year <= 9999
    }

    /// The RFC 2822 text of the instant in UTC, with `GMT` in place of
    /// the offset.
    pub fn to_utc_string(&self) -> (r: String)
        requires
            0 <= utc_year(self@.secs, self@.nanos) <= 9999,
        ensures
            r@ == utc_text(rfc2822_text(self@.secs, self@.nanos)),
    {
        proof {
            use_type_invariant(self);
        }
        utc_string(to_rfc2822(self.secs, self.nanos).as_str())
    }

    /// The RFC 2822 text of the instant in UTC, with `GMT` in place of
    /// the offset, or `None` where the instant has no such text.
    pub fn try_to_utc_string(&self) -> (r: Option<String>)
        ensures
            match r {
                Some(text) => 0 <= utc_year(self@.secs, self@.nanos) <= 9999 && text@ == utc_text(
                    rfc2822_text(self@.secs, self@.nanos),
                ),
                None => !(0 <= utc_year(self@.secs, self@.nanos) <= 9999),
            },
    {
        if self.has_utc_string() {
            Some(self.to_utc_string())
        } else {
            None
        }
    }

    /// The RFC 3339 and ISO 8601 text of the instant in UTC, with
    /// milliseconds.
    pub fn to_iso_string(&self) -> (r: String)
        ensures
            r@ == rfc3339_text(self@.secs, self@.nanos),
    {
        proof {
            use_type_invariant(self);
        }
        to_rfc3339(self.secs, self.nanos)
    }

    /// The instant that lies the given duration later.
    pub fn add(self, secs: u64, nanos: u32) -> (r: DateTime)
        requires
            nanos < 1000000000,
            instant_after(self@.secs, self@.nanos, secs, nanos) is Some,
        ensures
            instant_after(self@.secs, self@.nanos, secs, nanos) == Some((r@.secs, r@.nanos)),
    {
        proof {
            use_type_invariant(&self);
        }
        let (secs, nanos) = after(self.secs, self.nanos, secs, nanos).unwrap();
        DateTime { secs, nanos }
    }

    /// The instant that lies the given duration earlier.
    pub fn sub(self, secs: u64, nanos: u32) -> (r: DateTime)
        requires
            nanos < 1000000000,
            instant_before(self@.secs, self@.nanos, secs, nanos) is Some,
        ensures
            instant_before(self@.secs, self@.nanos, secs, nanos) == Some((r@.secs, r@.nanos)),
    {
        proof {
            use_type_invariant(&self);
        }
        let (secs, nanos) = before(self.secs, self.nanos, secs, nanos).unwrap();
        DateTime { secs, nanos }
    }

    /// The instant that lies the given duration later, or `None` where
    /// that instant is out of range.
    pub fn checked_add(self, secs: u64, nanos: u32) -> (r: Option<DateTime>)
        requires
            nanos < 1000000000,
        ensures
            match r {
                Some(instant) => instant_after(self@.secs, self@.nanos, secs, nanos) == Some(
                    (instant@.secs, instant@.nanos),
                ),
                None => instant_after(self@.secs, self@.nanos, secs, nanos) is None,
            },
    {
        proof {
            use_type_invariant(&self);
        }
        if after(self.secs, self.nanos, secs, nanos).is_some() {
            Some(self.add(secs, nanos))
        } else {
            None
        }
    }

    /// The instant that lies the given duration earlier, or `None` where
    /// that instant is out of range.
    pub fn checked_sub(self, secs: u64, nanos: u32) -> (r: Option<DateTime>)
        requires
            nanos < 1000000000,
        ensures
            match r {
                Some(instant) => instant_before(self@.secs, self@.nanos, secs, nanos) == Some(
                    (instant@.secs, instant@.nanos),
                ),
                None => instant_before(self@.secs, self@.nanos, secs, nanos) is None,
            },
    {
        proof {
            use_type_invariant(&self);
        }
        if before(self.secs, self.nanos, secs, nanos).is_some() {
            Some(self.sub(secs, nanos))
        } else {
            None
        }
    }
}

} // verus!
