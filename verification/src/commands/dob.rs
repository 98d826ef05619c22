//! The date-of-birth command: parses a birth date, computes the age in
//! whole years against the current date, and chooses the reply.

use vstd::prelude::*;

use crate::commands::view_opt_str;
use crate::numeral::{i64_to_string, spec_decimal};

verus! {

/// A calendar date as plain values.
#[derive(Clone, Copy, PartialEq, Eq, Structural, Debug)]
pub struct Date {
    /// Calendar year.
    pub year: i32,
    /// Month of the year, starting from 1.
    pub month: u32,
    /// Day of the month, starting from 1.
    pub day: u32,
}

impl Date {
    /// The range the external calendar library guarantees for any date it
    /// returns: a bounded year, a month from 1 to 12 and a day from 1 to 31.
    pub open spec fn in_range(self) -> bool {
        &&& -262145 <= self.year <= 262143
        &&& 1 <= self.month <= 12
        &&& 1 <= self.day <= 31
    }
}

/// Why a date string was rejected.
#[derive(Clone, Copy, PartialEq, Eq, Structural, Debug)]
pub enum DateError {
    /// The text does not follow the expected format.
    BadFormat,
    /// A field is out of its permitted range.
    OutOfRange,
    /// The text ended before every field was read.
    TooShort,
    /// Any other parse failure.
    Other,
}

/// What parsing a text as a `YYYY-MM-DD` date returns.
pub uninterp spec fn date_parse_of(s: Seq<char>) -> Result<Date, DateError>;

/// Relies on chrono's `NaiveDate::parse_from_str` with the `%Y-%m-%d`
/// format: the result is a function of the text alone, and a parsed date is
/// a valid calendar date within chrono's documented year range. The error
/// kinds are taken from `ParseError::kind`.
#[verifier::external_body]
fn parse_date(s: &str) -> (r: Result<Date, DateError>)
    ensures
        r == date_parse_of(s@),
        r matches Ok(d) ==> d.in_range(),
{
    match chrono::NaiveDate::parse_from_str(s, "%Y-%m-%d") {
        Ok(d) => Ok(
            Date {
                year: chrono::Datelike::year(&d),
                month: chrono::Datelike::month(&d),
                day: chrono::Datelike::day(&d),
            },
        ),
        Err(e) => Err(match e.kind() {
            chrono::format::ParseErrorKind::BadFormat => DateError::BadFormat,
            chrono::format::ParseErrorKind::OutOfRange => DateError::OutOfRange,
            chrono::format::ParseErrorKind::TooShort => DateError::TooShort,
            _ => DateError::Other,
        }),
    }
}

/// Relies on chrono's `Utc::now` and `date_naive`: the current date depends
/// on the clock, so nothing is assumed of it beyond being a valid calendar
/// date within chrono's documented year range.
#[verifier::external_body]
fn today_date() -> (r: Date)
    ensures
        r.in_range(),
{
    let now = chrono::Utc::now().date_naive();
    Date {
        year: chrono::Datelike::year(&now),
        month: chrono::Datelike::month(&now),
        day: chrono::Datelike::day(&now),
    }
}

/// The age in whole years at `today` of someone born on `dob`: the year
/// difference, less one when the birthday has not yet occurred this year.
pub open spec fn spec_age(today: Date, dob: Date) -> int {
    today.year - dob.year - if today.month < dob.month || (today.month == dob.month && today.day
        < dob.day) {
        1int
    } else {
        0int
    }
}

/// Computes the age in whole years at `today` of someone born on `dob`.
pub fn compute_age(today: Date, dob: Date) -> (age: i32)
    requires
        today.in_range(),
        dob.in_range(),
    ensures
        age as int == spec_age(today, dob),
{
    let mut age: i32 = today.year - dob.year;
    if today.month < dob.month || (today.month == dob.month && today.day < dob.day) {
        age = age - 1;
    }
    age
}

/// The reply for each way a date string can be rejected.
pub open spec fn spec_reply_for_error(e: DateError) -> Seq<char> {
    match e {
        DateError::BadFormat => "The date should be entered in `YYYY-MM-DD` format."@,
        DateError::OutOfRange => "Ensure the month is between 1 and 12, and the day is valid for the given month."@,
        DateError::TooShort => "The date is incomplete. Please fill in the missing fields."@,
        DateError::Other => "An unexpected error occurred while parsing the date."@,
    }
}

/// The reply for one way a date string was rejected.
pub fn reply_for_error(e: DateError) -> (r: &'static str)
    ensures
        r@ == spec_reply_for_error(e),
{
    match e {
        DateError::BadFormat => "The date should be entered in `YYYY-MM-DD` format.",
        DateError::OutOfRange => "Ensure the month is between 1 and 12, and the day is valid for the given month.",
        DateError::TooShort => "The date is incomplete. Please fill in the missing fields.",
        DateError::Other => "An unexpected error occurred while parsing the date.",
    }
}

/// The command's reply: a prompt when no date was given, the explanation
/// when the date is rejected, and otherwise the age in decimal.
pub open spec fn spec_dob_reply(input: Option<Seq<char>>, today: Date) -> Seq<char> {
    match input {
        None => "Please enter a date."@,
        Some(s) => match date_parse_of(s) {
            Ok(d) => spec_decimal(spec_age(today, d)),
            Err(e) => spec_reply_for_error(e),
        },
    }
}

/// Chooses the command's reply for a given current date.
pub fn dob_reply(input: Option<&str>, today: Date) -> (r: String)
    requires
        today.in_range(),
    ensures
        r@ == spec_dob_reply(view_opt_str(input), today),
{
    match input {
        None => "Please enter a date.".to_owned(),
        Some(s) => match parse_date(s) {
            Ok(d) => {
                let age = compute_age(today, d);
                i64_to_string(age as i64)
            },
            Err(e) => reply_for_error(e).to_owned(),
        },
    }
}

/// The date-of-birth command.
pub struct Command;

impl Command {
    /// The command's name.
    pub fn name() -> (r: &'static str)
        ensures
            r@ == "dob"@,
    {
        "dob"
    }

    /// The command's description.
    pub fn description() -> (r: &'static str)
        ensures
            r@ == "Calculate the age from given date of birth time."@,
    {
        "Calculate the age from given date of birth time."
    }

    /// The name of the command's required date option.
    pub fn option_name() -> (r: &'static str)
        ensures
            r@ == "date"@,
    {
        "date"
    }

    /// The description of the command's required date option.
    pub fn option_description() -> (r: &'static str)
        ensures
            r@ == "Date in `YYYY-MM-DD` format."@,
    {
        "Date in `YYYY-MM-DD` format."
    }

    /// Executes the command against the current date.
    pub fn execute(input: Option<&str>) -> (r: String)
        ensures
            exists|today: Date|
                today.in_range() && r@ == spec_dob_reply(view_opt_str(input), today),
    {
        let today = today_date();
        let r = dob_reply(input, today);
        proof {
            assert(today.in_range() && r@ == spec_dob_reply(view_opt_str(input), today));
        }
        r
    }
}

} // verus!
