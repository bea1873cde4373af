//! Dates as SimpleFIN sends them: whole seconds since the Unix epoch, in the
//! range of dates that chrono's `DateTime<Utc>` can hold.

use vstd::prelude::*;
use vstd::string::StringExecFns;

use crate::text::{append_decimal, int_decimal};

verus! {

/// The earliest number of seconds that names a date: 1 January of year -262143, 00:00:00 UTC.
pub const MIN_TIMESTAMP_SECONDS: i64 = -8_334_601_228_800i64;

/// The latest number of seconds that names a date: 31 December of year 262142, 23:59:59 UTC.
pub const MAX_TIMESTAMP_SECONDS: i64 = 8_210_266_876_799i64;

/// Whether `seconds` since the Unix epoch names a date.
pub open spec fn seconds_in_range(seconds: i64) -> bool {
    MIN_TIMESTAMP_SECONDS <= seconds <= MAX_TIMESTAMP_SECONDS
}

/// Asks chrono whether `DateTime::<Utc>::from_timestamp_secs(seconds)` builds a date.
/// In chrono's source that function builds one exactly when the day that `seconds`
/// falls on lies between 1 January of year -262143 and 31 December of year 262142
/// (`MIN_YEAR` and `MAX_YEAR` of `NaiveDate`), which is the range of
/// `seconds_in_range`; it returns `None` otherwise and never panics.
#[verifier::external_body]
fn chrono_builds_date(seconds: i64) -> (built: bool)
    ensures
        built == seconds_in_range(seconds),
{
    chrono::DateTime::<chrono::Utc>::from_timestamp_secs(seconds).is_some()
}

/// A point in time, held as the whole seconds since the Unix epoch that
/// SimpleFIN sends for it; always a date that chrono can hold.
#[derive(Debug, Clone, Copy, PartialEq, Eq)]
pub struct Timestamp {
    seconds: i64,
}

impl Timestamp {
    #[verifier::type_invariant]
    spec fn in_range(self) -> bool {
        seconds_in_range(self.seconds)
    }
}

impl View for Timestamp {
    type V = i64;

    closed spec fn view(&self) -> i64 {
        self.seconds
    }
}

/// Why a number of seconds could not be read as a date.
#[derive(Debug, Clone, Copy, PartialEq, Eq, Structural)]
pub enum DateError {
    /// The number of seconds lies outside the range of dates.
    OutOfBounds { seconds: i64 },
}

/// The message that a `DateError` is reported with.
pub open spec fn date_error_text(error: DateError) -> Seq<char> {
    match error {
        DateError::OutOfBounds { seconds } => "out of bounds number of seconds: "@ + int_decimal(
            seconds as int,
        ),
    }
}

impl DateError {
    /// The message that this error is reported with.
    pub fn message(&self) -> (text: String)
        ensures
            text@ == date_error_text(*self),
    {
        match self {
            DateError::OutOfBounds { seconds } => {
                let mut text = String::from_str("out of bounds number of seconds: ");
                append_decimal(&mut text, *seconds);
                text
            },
        }
    }
}

/// What reading `seconds` as a date gives.
pub closed spec fn date_read(seconds: i64) -> Result<Timestamp, DateError> {
    if seconds_in_range(seconds) {
        Ok(Timestamp { seconds })
    } else {
        Err(DateError::OutOfBounds { seconds })
    }
}

/// Reads a number of seconds since the Unix epoch as a date; fails with
/// `DateError::OutOfBounds` when no date has that number.
pub fn deserialize_date(seconds: i64) -> (date: Result<Timestamp, DateError>)
    ensures
        date == date_read(seconds),
        date is Ok <==> seconds_in_range(seconds),
        date matches Ok(t) ==> t@ == seconds,
        date matches Err(e) ==> e == (DateError::OutOfBounds { seconds }),
{
    if chrono_builds_date(seconds) {
        Ok(Timestamp { seconds })
    } else {
        Err(DateError::OutOfBounds { seconds })
    }
}

/// Reads a number of seconds since the Unix epoch as an optional date that is present.
pub fn deserialize_date_option(seconds: i64) -> (date: Result<Option<Timestamp>, DateError>)
    ensures
        date == (match date_read(seconds) {
            Ok(t) => Ok(Some(t)),
            Err(e) => Err(e),
        }),
        date is Ok <==> seconds_in_range(seconds),
        date matches Ok(t) ==> t matches Some(t) && t@ == seconds,
        date matches Err(e) ==> e == (DateError::OutOfBounds { seconds }),
{
    match deserialize_date(seconds) {
        Ok(t) => Ok(Some(t)),
        Err(e) => Err(e),
    }
}

/// The number of seconds since the Unix epoch that a date is written as.
pub fn serialize_date(date: &Timestamp) -> (seconds: i64)
    ensures
        seconds == date@,
        seconds_in_range(seconds),
{
    proof { use_type_invariant(date); }
    date.seconds
}

/// The number of seconds since the Unix epoch that a present optional date is
/// written as; an absent one has nothing to be written as.
pub fn serialize_date_option(date: &Option<Timestamp>) -> (seconds: i64)
    requires
        date is Some,
    ensures
        seconds == date.unwrap()@,
        seconds_in_range(seconds),
{
    match date {
        Some(d) => serialize_date(d),
        None => 0,
    }
}

/// A number of seconds in the range of dates reads as a date that is written
/// back as the same number.
pub proof fn lemma_read_then_write(seconds: i64)
    requires
        seconds_in_range(seconds),
    ensures
        date_read(seconds) matches Ok(t) && t@ == seconds,
{
}

/// A date that is written as a number of seconds reads back as the same date.
pub proof fn lemma_write_then_read(date: Timestamp)
    requires
        seconds_in_range(date@),
    ensures
        date_read(date@) == Ok::<Timestamp, DateError>(date),
{
}

/// Two dates written as the same number of seconds are the same date.
pub proof fn lemma_timestamp_determined_by_seconds(a: Timestamp, b: Timestamp)
    requires
        a@ == b@,
    ensures
        a == b,
{
}

} // verus!
