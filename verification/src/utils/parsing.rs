//! What users type as a date and as a time of day: which formats are
//! tried, in which order, what is assumed where one of the two is missing,
//! and the error for a text that cannot be read.
//!
//! A date and a time together are counted in seconds since the epoch on a
//! clock that knows no time zones; which instant they name depends on the
//! place they are meant for and is settled later.

use vstd::prelude::*;
use vstd::string::*;

verus! {

/// Why a date or a time of day that a user typed cannot be used.
#[derive(Debug)]
pub enum ParseError {
    /// The text is in none of the accepted formats, or the date and time
    /// that were read cannot be counted. Holds what the calendar library
    /// has to say about the text in the preferred format; where no format
    /// is accepted at all, or where the result is out of range, it holds
    /// this library's own words for that.
    ChronoFormat(String),
}

/// The two things that a user can type.
#[derive(Debug, Clone, Copy, PartialEq, Eq, Structural)]
pub enum Part {
    /// A calendar date.
    Date,
    /// A time of day.
    Time,
}

/// The formats in which dates and times of day are accepted, in the order
/// in which they are tried. A format is written as `chrono` takes it, with
/// `%Y` for the year and so on.
#[derive(Debug, Clone)]
pub struct InputFormats {
    pub date: Vec<String>,
    pub time: Vec<String>,
}

/// What `chrono` reads from `text` as a calendar date in the format
/// `format`: the midnight at which the date begins, in seconds since the
/// epoch, or its complaint about the text.
pub uninterp spec fn date_in_format(text: Seq<char>, format: Seq<char>) -> Result<i64, Seq<char>>;

/// What `chrono` reads from `text` as a time of day in the format `format`:
/// the seconds since midnight, or its complaint about the text.
pub uninterp spec fn time_in_format(text: Seq<char>, format: Seq<char>) -> Result<i64, Seq<char>>;

/// Whether `r` stands for the outcome `outcome` of reading a text, a
/// complaint being held as its text.
pub open spec fn is_reading(r: Result<i64, String>, outcome: Result<i64, Seq<char>>) -> bool {
    match r {
        Ok(seconds) => outcome == Ok::<i64, Seq<char>>(seconds),
        Err(complaint) => outcome == Err::<i64, Seq<char>>(complaint@),
    }
}

/// Reads a calendar date: `NaiveDate::parse_from_str` of `chrono`. The
/// date comes back as the midnight at which it begins, in seconds since
/// the epoch, an error as its message. The contract names the result, and
/// claims of a date that it begins a whole number of days from the epoch.
#[verifier::external_body]
fn read_date(text: &str, format: &str) -> (r: Result<i64, String>)
    ensures
        is_reading(r, date_in_format(text@, format@)),
        r matches Ok(seconds) ==> seconds % 86400 == 0,
{
    match chrono::NaiveDate::parse_from_str(text, format) {
        Ok(date) => Ok(date.and_time(chrono::NaiveTime::MIN).and_utc().timestamp()),
        Err(error) => Err(error.to_string()),
    }
}

/// Reads a time of day: `NaiveTime::parse_from_str` of `chrono`. The time
/// comes back as `Timelike::num_seconds_from_midnight` counts it, an error
/// as its message. The contract names the result, and claims of a time
/// that it lies within a day.
#[verifier::external_body]
fn read_time(text: &str, format: &str) -> (r: Result<i64, String>)
    ensures
        is_reading(r, time_in_format(text@, format@)),
        r matches Ok(seconds) ==> 0 <= seconds < 86400,
{
    match chrono::NaiveTime::parse_from_str(text, format) {
        Ok(time) => Ok(i64::from(chrono::Timelike::num_seconds_from_midnight(&time))),
        Err(error) => Err(error.to_string()),
    }
}

/// What is read from `text` in the format `format`.
pub open spec fn reading(part: Part, text: Seq<char>, format: Seq<char>) -> Result<
    i64,
    Seq<char>,
> {
    match part {
        Part::Date => date_in_format(text, format),
        Part::Time => time_in_format(text, format),
    }
}

/// The views of a list of formats.
pub open spec fn format_texts(formats: Seq<String>) -> Seq<Seq<char>> {
    Seq::new(formats.len(), |i: int| formats[i]@)
}

/// What the first of the formats from position `from` on reads that reads
/// anything.
pub open spec fn reading_from(
    part: Part,
    text: Seq<char>,
    formats: Seq<Seq<char>>,
    from: int,
) -> Option<i64>
    decreases formats.len() - from,
{
    if from < 0 || from >= formats.len() {
        None
    } else {
        match reading(part, text, formats[from]) {
            Ok(seconds) => Some(seconds),
            Err(_) => reading_from(part, text, formats, from + 1),
        }
    }
}

/// What is reported where no format reads `text`: the complaint about the
/// first format, which is the preferred one.
pub open spec fn complaint(part: Part, text: Seq<char>, formats: Seq<Seq<char>>) -> Seq<char> {
    if formats.len() == 0 {
        "no format is accepted"@
    } else {
        match reading(part, text, formats[0]) {
            Ok(_) => Seq::empty(),
            Err(complaint) => complaint,
        }
    }
}

/// What the formats make of `text` when they are tried one after another:
/// what the first one reads that reads anything, or else the complaint.
pub open spec fn first_reading(part: Part, text: Seq<char>, formats: Seq<Seq<char>>) -> Result<
    i64,
    Seq<char>,
> {
    match reading_from(part, text, formats, 0) {
        Some(seconds) => Ok(seconds),
        None => Err(complaint(part, text, formats)),
    }
}

/// Whether `r` stands for the outcome `outcome` of reading what a user
/// typed.
pub open spec fn is_parsed(r: Result<i64, ParseError>, outcome: Result<i64, Seq<char>>) -> bool {
    match outcome {
        Ok(seconds) => r == Ok::<i64, ParseError>(seconds),
        Err(complaint) => r matches Err(ParseError::ChronoFormat(reason)) && reason@ == complaint,
    }
}

/// Reads `text` in one format.
fn read(part: Part, text: &str, format: &str) -> (r: Result<i64, String>)
    ensures
        is_reading(r, reading(part, text@, format@)),
        part == Part::Time ==> (r matches Ok(seconds) ==> 0 <= seconds < 86400),
        part == Part::Date ==> (r matches Ok(seconds) ==> seconds % 86400 == 0),
{
    match part {
        Part::Date => read_date(text, format),
        Part::Time => read_time(text, format),
    }
}

/// Tries the formats one after another and returns what the first one
/// reads that reads anything. Where none does, the complaint about the
/// first format is the error.
fn try_parse_localized(part: Part, text: &str, formats: &Vec<String>) -> (r: Result<
    i64,
    ParseError,
>)
    ensures
        is_parsed(r, first_reading(part, text@, format_texts(formats@))),
        part == Part::Time ==> (r matches Ok(seconds) ==> 0 <= seconds < 86400),
        part == Part::Date ==> (r matches Ok(seconds) ==> seconds % 86400 == 0),
{
    if formats.len() == 0 {
        return Err(ParseError::ChronoFormat(String::from_str("no format is accepted")));
    }
    let ghost all = format_texts(formats@);
    let first = match read(part, text, formats[0].as_str()) {
        Ok(seconds) => {
            return Ok(seconds);
        },
        Err(complaint) => complaint,
    };
    let mut i: usize = 1;
    while i < formats.len()
        invariant
            1 <= i <= formats.len(),
            all == format_texts(formats@),
            reading_from(part, text@, all, 0) == reading_from(part, text@, all, i as int),
            first@ == complaint(part, text@, all),
        decreases formats.len() - i,
    {
        match read(part, text, formats[i].as_str()) {
            Ok(seconds) => {
                return Ok(seconds);
            },
            Err(_) => {},
        }
        i = i + 1;
    }
    Err(ParseError::ChronoFormat(first))
}

/// Reads a calendar date in the first of the formats that fits. The date
/// comes back as the midnight at which it begins, in seconds since the
/// epoch.
pub fn try_parse_localized_date(date_str: &str, formats: &InputFormats) -> (r: Result<
    i64,
    ParseError,
>)
    ensures
        is_parsed(r, first_reading(Part::Date, date_str@, format_texts(formats.date@))),
        r matches Ok(seconds) ==> seconds % 86400 == 0,
{
    try_parse_localized(Part::Date, date_str, &formats.date)
}

/// Reads a time of day in the first of the formats that fits. The time
/// comes back in seconds since midnight.
pub fn try_parse_localized_time(time_str: &str, formats: &InputFormats) -> (r: Result<
    i64,
    ParseError,
>)
    ensures
        is_parsed(r, first_reading(Part::Time, time_str@, format_texts(formats.time@))),
        r matches Ok(seconds) ==> 0 <= seconds < 86400,
{
    try_parse_localized(Part::Time, time_str, &formats.time)
}

/// The midnight at which the day of an instant begins.
pub open spec fn midnight_of(seconds: i64) -> int {
    seconds / 86400 * 86400
}

/// The seconds that have passed of the day of an instant.
pub open spec fn second_of_day(seconds: i64) -> int {
    (seconds as int) % 86400
}

/// Parts an instant into the midnight at which its day begins and the
/// seconds that have passed since.
fn split_day(seconds: i64) -> (r: (i128, i64))
    ensures
        r.0 == midnight_of(seconds),
        r.1 == second_of_day(seconds),
{
    // Dividing a negative number rounds towards zero, so the days are
    // counted from a day that lies before every instant.
    let shift: i128 = 106_751_991_200_000;
    let shifted: i128 = seconds as i128 + shift * 86400;
    let day: i128 = shifted / 86400 - shift;
    let rest: i128 = shifted % 86400;
    assert((seconds + shift * 86400) / 86400 == seconds / 86400 + shift);
    assert((seconds + shift * 86400) % 86400 == (seconds as int) % 86400);
    (day * 86400, rest as i64)
}

/// What reading a text as an integer of any size comes to.
pub open spec fn widened(outcome: Result<i64, Seq<char>>) -> Result<int, Seq<char>> {
    match outcome {
        Ok(seconds) => Ok(seconds as int),
        Err(complaint) => Err(complaint),
    }
}

/// The date that counts where `date_input` is what the user typed: what is
/// read from it, and the day of `now_local_seconds` where nothing was
/// typed. A date is given by the midnight at which it begins.
pub open spec fn date_part(
    date_input: Option<String>,
    formats: InputFormats,
    now_local_seconds: i64,
) -> Result<int, Seq<char>> {
    match date_input {
        Some(text) => widened(first_reading(Part::Date, text@, format_texts(formats.date@))),
        None => Ok(midnight_of(now_local_seconds)),
    }
}

/// The time of day that counts where `time_input` is what the user typed:
/// what is read from it, and the time of day of `now_local_seconds` where
/// nothing was typed. A time is given in seconds since midnight.
pub open spec fn time_part(
    time_input: Option<String>,
    formats: InputFormats,
    now_local_seconds: i64,
) -> Result<int, Seq<char>> {
    match time_input {
        Some(text) => widened(first_reading(Part::Time, text@, format_texts(formats.time@))),
        None => Ok(second_of_day(now_local_seconds)),
    }
}

/// A date and a time of day put together, where both could be read and
/// the result can be counted. A date that cannot be read is reported
/// before a time is looked at.
pub open spec fn date_and_time(date: Result<int, Seq<char>>, time: Result<int, Seq<char>>) -> Result<
    i64,
    Seq<char>,
> {
    match date {
        Err(complaint) => Err(complaint),
        Ok(midnight) => match time {
            Err(complaint) => Err(complaint),
            Ok(seconds) => if i64::MIN <= midnight + seconds <= i64::MAX {
                Ok((midnight + seconds) as i64)
            } else {
                Err("input is out of range"@)
            },
        },
    }
}

/// A date and a time of day that are put together are found again in the
/// result: the result lies on the date, at the time of day.
pub proof fn law_date_and_time_kept(midnight: int, seconds: int)
    requires
        midnight % 86400 == 0,
        0 <= seconds < 86400,
        i64::MIN <= midnight + seconds <= i64::MAX,
    ensures
        date_and_time(Ok(midnight), Ok(seconds)) matches Ok(together) && midnight_of(together)
            == midnight && second_of_day(together) == seconds,
{
    let together = midnight + seconds;
    assert(together / 86400 * 86400 == midnight && together % 86400 == seconds) by {
        assert(midnight == (midnight / 86400) * 86400);
        vstd::arithmetic::div_mod::lemma_fundamental_div_mod_converse(
            together,
            86400,
            midnight / 86400,
            seconds,
        );
    }
}

/// Reads the date and the time of day that a user typed. Where the date is
/// missing it is today, where the time is missing it is now;
/// `now_local_seconds` says what today and now are. The result counts the
/// seconds since the epoch on a clock that knows no time zones. A date
/// that cannot be read is reported before a time is looked at.
pub fn parse_datetime(
    date_input: Option<String>,
    time_input: Option<String>,
    formats: &InputFormats,
    now_local_seconds: i64,
) -> (r: Result<i64, ParseError>)
    ensures
        is_parsed(
            r,
            date_and_time(
                date_part(date_input, *formats, now_local_seconds),
                time_part(time_input, *formats, now_local_seconds),
            ),
        ),
        date_input is None && time_input is None ==> r == Ok::<i64, ParseError>(now_local_seconds),
{
    let now = split_day(now_local_seconds);
    // default to today if no date is provided
    let date_value: i128 = match date_input {
        Some(date_str) => match try_parse_localized_date(date_str.as_str(), formats) {
            Ok(midnight) => midnight as i128,
            Err(error) => {
                return Err(error);
            },
        },
        None => now.0,
    };
    // default to the current time if no time is provided
    let time_value: i64 = match time_input {
        Some(time_str) => match try_parse_localized_time(time_str.as_str(), formats) {
            Ok(seconds) => seconds,
            Err(error) => {
                return Err(error);
            },
        },
        None => now.1,
    };
    let seconds: i128 = date_value + time_value as i128;
    if seconds < i64::MIN as i128 || seconds > i64::MAX as i128 {
        Err(ParseError::ChronoFormat(String::from_str("input is out of range")))
    } else {
        Ok(seconds as i64)
    }
}

impl Default for InputFormats {
    /// Dates as `2024-01-31`, `31.01.2024` or `31/01/2024`, times as
    /// `18:30:00` or `18:30`.
    fn default() -> (r: InputFormats)
        ensures
            format_texts(r.date@) == seq!["%Y-%m-%d"@, "%d.%m.%Y"@, "%d/%m/%Y"@],
            format_texts(r.time@) == seq!["%H:%M:%S"@, "%H:%M"@],
    {
        let mut date: Vec<String> = Vec::new();
        date.push(String::from_str("%Y-%m-%d"));
        date.push(String::from_str("%d.%m.%Y"));
        date.push(String::from_str("%d/%m/%Y"));
        let mut time: Vec<String> = Vec::new();
        time.push(String::from_str("%H:%M:%S"));
        time.push(String::from_str("%H:%M"));
        assert(format_texts(date@) == seq!["%Y-%m-%d"@, "%d.%m.%Y"@, "%d/%m/%Y"@]);
        assert(format_texts(time@) == seq!["%H:%M:%S"@, "%H:%M"@]);
        InputFormats { date, time }
    }
}

} // verus!
