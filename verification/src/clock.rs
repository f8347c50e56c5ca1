//! Clocks and instants: the wall-clock `Timestamp` with its printed form, and the
//! readings of the monotonic and the system clock.

use vstd::prelude::*;
use crate::text::opt_text;

verus! {

/// `std::time::Instant`, a reading of the monotonic clock.
#[verifier::external_type_specification]
#[verifier::external_body]
pub struct ExInstant(std::time::Instant);

/// What `time::OffsetDateTime`'s `Display` prints for the UTC date-time that lies
/// `unix_nanos` nanoseconds after the Unix epoch; `None` where
/// `OffsetDateTime::from_unix_timestamp_nanos` rejects the number as out of range.
pub uninterp spec fn utc_datetime_text(unix_nanos: int) -> Option<Seq<char>>;

/// What `time::OffsetDateTime::format` prints with the `Rfc3339` description for the
/// UTC date-time that lies `unix_nanos` nanoseconds after the Unix epoch; `None` where
/// the number is out of range for the crate or the date has no RFC 3339 form.
pub uninterp spec fn rfc3339_text(unix_nanos: int) -> Option<Seq<char>>;

/// The instant's whole seconds fit in sixty-four bits. The `time` crate keeps the
/// seconds of a Unix timestamp in a ranged `i64` and rejects what lies outside.
pub open spec fn in_printable_range(unix_nanos: int) -> bool {
    -9_223_372_036_854_775_808_000_000_000 <= unix_nanos <= 9_223_372_036_854_775_807_999_999_999
}

/// Builds the date-time with `OffsetDateTime::from_unix_timestamp_nanos` and prints it
/// with its `Display` impl. Both are functions of the number alone, and the first
/// rejects a number whose whole seconds do not fit its ranged `i64`.
#[verifier::external_body]
fn format_utc(unix_nanos: i128) -> (text: Option<String>)
    ensures
        opt_text(text) == utc_datetime_text(unix_nanos as int),
        text.is_some() ==> in_printable_range(unix_nanos as int),
{
    match time::OffsetDateTime::from_unix_timestamp_nanos(unix_nanos) {
        Ok(moment) => Some(moment.to_string()),
        Err(_) => None,
    }
}

/// Builds the date-time with `OffsetDateTime::from_unix_timestamp_nanos` and prints it
/// with `OffsetDateTime::format` and the well-known `Rfc3339` description.
#[verifier::external_body]
fn format_rfc3339(unix_nanos: i128) -> (text: Option<String>)
    ensures
        opt_text(text) == rfc3339_text(unix_nanos as int),
{
    match time::OffsetDateTime::from_unix_timestamp_nanos(unix_nanos) {
        Ok(moment) => moment.format(&time::format_description::well_known::Rfc3339).ok(),
        Err(_) => None,
    }
}

/// Reads the monotonic clock with `Instant::now`.
#[verifier::external_body]
pub(crate) fn instant_now() -> (now: std::time::Instant) {
    std::time::Instant::now()
}

/// Nanoseconds that `Instant::elapsed` reports since `origin`. The clock decides.
#[verifier::external_body]
pub(crate) fn elapsed_nanos(origin: &std::time::Instant) -> (nanos: u64) {
    origin.elapsed().as_nanos() as u64
}

/// Nanoseconds between the Unix epoch and `SystemTime::now`, zero for a clock set
/// before the epoch. The clock decides.
#[verifier::external_body]
pub(crate) fn unix_now_nanos() -> (nanos: u64) {
    match std::time::SystemTime::now().duration_since(std::time::UNIX_EPOCH) {
        Ok(since) => since.as_nanos() as u64,
        Err(_) => 0,
    }
}

/// A wall-clock instant in UTC together with its printed form.
#[derive(Debug)]
pub struct Timestamp {
    unix_nanos: i128,
    text: String,
}

/// What a `Timestamp` stands for: nanoseconds since the Unix epoch, and the text
/// that the instant is printed as.
pub struct TimestampView {
    pub nanos: int,
    pub text: Seq<char>,
}

impl View for Timestamp {
    type V = TimestampView;

    closed spec fn view(&self) -> TimestampView {
        TimestampView { nanos: self.unix_nanos as int, text: self.text@ }
    }
}

impl DeepView for Timestamp {
    type V = TimestampView;

    open spec fn deep_view(&self) -> TimestampView {
        self@
    }
}

/// The text is what the instant prints as, and the instant is in range.
pub open spec fn well_printed(stamp: TimestampView) -> bool {
    &&& utc_datetime_text(stamp.nanos) == Some(stamp.text)
    &&& in_printable_range(stamp.nanos)
}

impl Timestamp {
    #[verifier::type_invariant]
    spec fn printed_as_the_crate_prints(self) -> bool {
        well_printed(self@)
    }

    /// The instant `unix_nanos` nanoseconds after the Unix epoch, where it can be
    /// printed.
    pub fn from_unix_nanos(unix_nanos: i128) -> (stamp: Option<Timestamp>)
        ensures
            stamp.is_some() == utc_datetime_text(unix_nanos as int).is_some(),
            stamp.is_some() ==> stamp.unwrap()@.nanos == unix_nanos && well_printed(
                stamp.unwrap()@,
            ),
    {
        match format_utc(unix_nanos) {
            Some(text) => Some(Timestamp { unix_nanos, text }),
            None => None,
        }
    }

    /// Nanoseconds since the Unix epoch.
    pub fn unix_nanos(&self) -> (nanos: i128)
        ensures
            nanos == self@.nanos,
            well_printed(self@),
    {
        proof {
            use_type_invariant(self);
        }
        self.unix_nanos
    }

    /// The instant as the `time` crate prints it.
    pub fn as_text(&self) -> (text: &str)
        ensures
            text@ == self@.text,
            well_printed(self@),
    {
        proof {
            use_type_invariant(self);
        }
        self.text.as_str()
    }
}

impl Clone for Timestamp {
    fn clone(&self) -> (copy: Self)
        ensures
            copy@ == self@,
    {
        proof {
            use_type_invariant(self);
        }
        Timestamp { unix_nanos: self.unix_nanos, text: self.text.clone() }
    }
}

/// Whole milliseconds from `earlier` to `later`, zero where `later` comes first.
pub open spec fn millis_between(earlier: int, later: int) -> int {
    if later <= earlier {
        0
    } else {
        (later - earlier) / 1_000_000
    }
}

/// The printed form of the end of a freeze: RFC 3339 where the instant has such a
/// form, and the epoch otherwise.
pub open spec fn freeze_until_text(until_nanos: int) -> Seq<char> {
    if until_nanos > i128::MAX {
        "1970-01-01T00:00:00Z"@
    } else {
        match rfc3339_text(until_nanos) {
            Some(text) => text,
            None => "1970-01-01T00:00:00Z"@,
        }
    }
}

/// Prints the end of a freeze.
pub fn render_freeze_until(until_nanos: u128) -> (text: String)
    ensures
        text@ == freeze_until_text(until_nanos as int),
{
    if until_nanos <= i128::MAX as u128 {
        match format_rfc3339(until_nanos as i128) {
            Some(text) => text,
            None => "1970-01-01T00:00:00Z".to_owned(),
        }
    } else {
        "1970-01-01T00:00:00Z".to_owned()
    }
}

} // verus!
