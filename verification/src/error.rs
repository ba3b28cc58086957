//! Why a date could not be built.

use vstd::prelude::*;

verus! {

/// The ways in which building a date fails.
#[derive(Debug, Clone, Copy, PartialEq, Eq, Structural)]
pub enum DateParseError {
    /// The format tag is none of the supported ones.
    UnsupportedFormat,
    /// The day does not exist in its month.
    InvalidDay,
    /// The month is not one of the twelve.
    InvalidMonth,
    /// The year is zero.
    InvalidYear,
    /// The serial day count lies before the first day of the date system.
    InvalidSerialNumber,
    /// A serial day count led to a day that its month does not have.
    InvalidDate,
}

impl DateParseError {
    /// Whether the error has a text. The two errors of serial decoding have none.
    pub open spec fn has_message(self) -> bool {
        !(self is InvalidSerialNumber) && !(self is InvalidDate)
    }

    /// The text of an error that has one, and the empty text otherwise.
    pub open spec fn message_text(self) -> Seq<char> {
        match self {
            DateParseError::UnsupportedFormat => "Unsupported date format"@,
            DateParseError::InvalidDay => "Invalid day"@,
            DateParseError::InvalidMonth => "Invalid month"@,
            DateParseError::InvalidYear => "Invalid year"@,
            DateParseError::InvalidSerialNumber => Seq::empty(),
            DateParseError::InvalidDate => Seq::empty(),
        }
    }

    /// The text that describes the error to a reader. It is there for the errors
    /// that have one.
    pub fn message(&self) -> (text: String)
        requires
            self.has_message(),
        ensures
            text@ == self.message_text(),
    {
        match self {
            DateParseError::UnsupportedFormat => "Unsupported date format".to_owned(),
            DateParseError::InvalidDay => "Invalid day".to_owned(),
            DateParseError::InvalidMonth => "Invalid month".to_owned(),
            DateParseError::InvalidYear => "Invalid year".to_owned(),
            DateParseError::InvalidSerialNumber | DateParseError::InvalidDate => unreached(),
        }
    }
}

} // verus!
