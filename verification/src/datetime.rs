use vstd::prelude::*;
use chrono::{Datelike, Timelike};

verus! {

/// What `chrono::NaiveDateTime::parse_from_str` reads from the text in the
/// format `%+` (ISO 8601 / RFC 3339): the year, month, day, hour, minute,
/// second and nanosecond of the date and time, or the text of the parse
/// error.
pub uninterp spec fn naive_datetime_parse(text: Seq<char>) -> Result<(i32, u32, u32, u32, u32, u32, u32), Seq<char>>;

/// Calls `chrono::NaiveDateTime::parse_from_str` with the format `%+` and
/// reads the fields of the date and time it returns, or the display of its
/// error. Claims that the outcome is the named reading of the text.
#[verifier::external_body]
fn parse_naive_datetime(text: &str) -> (r: Result<(i32, u32, u32, u32, u32, u32, u32), String>)
    ensures
        match r {
            Ok(f) => naive_datetime_parse(text@) == Ok::<(i32, u32, u32, u32, u32, u32, u32), Seq<char>>(f),
            Err(m) => naive_datetime_parse(text@) == Err::<(i32, u32, u32, u32, u32, u32, u32), Seq<char>>(m@),
        },
{
    match chrono::NaiveDateTime::parse_from_str(text, "%+") {
        Ok(d) => Ok((d.year(), d.month(), d.day(), d.hour(), d.minute(), d.second(), d.nanosecond())),
        Err(e) => Err(e.to_string()),
    }
}

/// A failed check of a field: its code and its message.
pub struct CheckFailure {
    pub code: String,
    pub message: Option<String>,
}

/// A date and time as a request gives it, without a time zone.
pub struct RestDateTime {
    pub year: i32,
    pub month: u32,
    pub day: u32,
    pub hour: u32,
    pub minute: u32,
    pub second: u32,
    pub nanosecond: u32,
}

impl RestDateTime {
    /// The fields of the date and time.
    pub open spec fn fields(self) -> (i32, u32, u32, u32, u32, u32, u32) {
        (self.year, self.month, self.day, self.hour, self.minute, self.second, self.nanosecond)
    }
}

/// The message that a text which gives no date and time is refused with.
pub open spec fn spec_parse_failure(error: Seq<char>) -> Seq<char> {
    "Failed to parse datetime: "@ + error
}

impl RestDateTime {
    /// The date and time that a text gives in the format `%+`, or the
    /// failure that names why it gives none.
    pub fn from_str(s: &str) -> (r: Result<RestDateTime, String>)
        ensures
            match r {
                Ok(d) => naive_datetime_parse(s@) == Ok::<(i32, u32, u32, u32, u32, u32, u32), Seq<char>>(d.fields()),
                Err(m) => naive_datetime_parse(s@) matches Err(e) && m@ == spec_parse_failure(e),
            },
    {
        match parse_naive_datetime(s) {
            Ok((year, month, day, hour, minute, second, nanosecond)) => {
                Ok(RestDateTime { year, month, day, hour, minute, second, nanosecond })
            },
            Err(e) => Err(String::from_str("Failed to parse datetime: ").concat(e.as_str())),
        }
    }

    /// The check of a field that must hold a date and time: it passes when
    /// the text gives one, and fails with the code "date time" and the
    /// message "Invalid date time" otherwise.
    pub fn validate(value: &str) -> (r: Result<(), CheckFailure>)
        ensures
            r is Ok == naive_datetime_parse(value@) is Ok,
            r matches Err(f) ==> (f.code@ == "date time"@ && (f.message matches Some(m) && m@ == "Invalid date time"@)),
    {
        if Self::from_str(value).is_err() {
            return Err(CheckFailure {
                code: String::from_str("date time"),
                message: Some(String::from_str("Invalid date time")),
            });
        }
        Ok(())
    }
}

} // verus!
