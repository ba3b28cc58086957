//! Raw cells: what a row source hands over before anything is known of a cell's
//! kind.
//!
//! A raw cell is questioned through probes, each of which either extracts a value
//! of one kind or fails. [`RawCell`] keeps the answers to all of them as plain
//! values; [`RawCell::probe`] collects them from a cell of a worksheet.

use vstd::prelude::*;
use calamine::{CellErrorType, Data, DataType};

verus! {

/// `calamine::Data`: a cell of a worksheet, as the reader of the workbook hands it
/// over. Nothing of its contents is visible to the verifier: it is questioned
/// through the probes below.
#[verifier::external_type_specification]
#[verifier::external_body]
pub struct ExData(calamine::Data);

/// The marks that a failed formula leaves in a cell.
#[derive(Debug, Clone, Copy, PartialEq, Eq, Structural)]
pub enum CellError {
    /// A division by zero.
    Div0,
    /// A value that is not available.
    NA,
    /// A name that nothing answers to.
    Name,
    /// An intersection of two ranges that do not meet.
    Null,
    /// A number that cannot be had.
    Num,
    /// A reference to a cell that is not there.
    Ref,
    /// A value of the wrong kind.
    Value,
    /// Data that is still being fetched.
    GettingData,
}

/// The answers of one cell to every probe.
///
/// Nothing ties the answers to each other: a cell may answer several probes, or
/// none.
#[derive(Debug, Clone, PartialEq, Eq)]
pub struct RawCell {
    /// The integer that integer extraction gives.
    pub int: Option<i64>,
    /// The bit pattern of the binary64 number that float extraction gives.
    pub float: Option<u64>,
    /// The text that string extraction gives.
    pub text: Option<String>,
    /// The truth value that boolean extraction gives.
    pub boolean: Option<bool>,
    /// Whether the emptiness check holds.
    pub empty: bool,
    /// The mark that error extraction gives.
    pub error: Option<CellError>,
    /// For a date and time payload, the bit pattern of the binary64 number that
    /// holds its serial.
    pub date_time: Option<u64>,
}

/// A raw cell as a mathematical value.
pub struct RawCellView {
    pub int: Option<i64>,
    pub float: Option<u64>,
    pub text: Option<Seq<char>>,
    pub boolean: Option<bool>,
    pub empty: bool,
    pub error: Option<CellError>,
    pub date_time: Option<u64>,
}

impl View for RawCell {
    type V = RawCellView;

    open spec fn view(&self) -> RawCellView {
        RawCellView {
            int: self.int,
            float: self.float,
            text: self.text.deep_view(),
            boolean: self.boolean,
            empty: self.empty,
            error: self.error,
            date_time: self.date_time,
        }
    }
}

impl DeepView for RawCell {
    type V = RawCellView;

    open spec fn deep_view(&self) -> RawCellView {
        self@
    }
}

/// What `calamine::DataType::get_int` gives for a cell of a worksheet.
pub uninterp spec fn int_answer(data: Data) -> Option<i64>;

/// What `calamine::DataType::get_float` gives for a cell of a worksheet, as a bit
/// pattern.
pub uninterp spec fn float_answer(data: Data) -> Option<u64>;

/// What `calamine::DataType::get_string` gives for a cell of a worksheet.
pub uninterp spec fn text_answer(data: Data) -> Option<Seq<char>>;

/// What `calamine::DataType::get_bool` gives for a cell of a worksheet.
pub uninterp spec fn bool_answer(data: Data) -> Option<bool>;

/// What `calamine::DataType::is_empty` gives for a cell of a worksheet.
pub uninterp spec fn empty_answer(data: Data) -> bool;

/// What `calamine::DataType::get_error` gives for a cell of a worksheet, with the
/// mark under its name in [`CellError`].
pub uninterp spec fn error_answer(data: Data) -> Option<CellError>;

/// What `calamine::ExcelDateTime::as_f64` gives for the payload of a cell of a
/// worksheet that holds a date and time, as a bit pattern; nothing for a cell of
/// another kind.
pub uninterp spec fn date_time_answer(data: Data) -> Option<u64>;

/// The answers of a cell of a worksheet to every probe.
pub open spec fn answers(data: Data) -> RawCellView {
    RawCellView {
        int: int_answer(data),
        float: float_answer(data),
        text: text_answer(data),
        boolean: bool_answer(data),
        empty: empty_answer(data),
        error: error_answer(data),
        date_time: date_time_answer(data),
    }
}

/// Calls `calamine::DataType::get_int` on a `calamine::Data`.
///
/// Believed, not proved: the result is what [`int_answer`] names, that is, it
/// depends on the cell alone.
#[verifier::external_body]
fn probe_int(data: &Data) -> (answer: Option<i64>)
    ensures
        answer == int_answer(*data),
{
    data.get_int()
}

/// Calls `calamine::DataType::get_float` on a `calamine::Data` and hands the
/// number over as its bit pattern.
///
/// Believed, not proved: the result is what [`float_answer`] names, that is, it
/// depends on the cell alone.
#[verifier::external_body]
fn probe_float(data: &Data) -> (answer: Option<u64>)
    ensures
        answer == float_answer(*data),
{
    data.get_float().map(|number| number.to_bits())
}

/// Calls `calamine::DataType::get_string` on a `calamine::Data` and copies the
/// text.
///
/// Believed, not proved: the result holds the text that [`text_answer`] names,
/// that is, it depends on the cell alone.
#[verifier::external_body]
fn probe_text(data: &Data) -> (answer: Option<String>)
    ensures
        answer.deep_view() == text_answer(*data),
{
    data.get_string().map(|text| text.to_string())
}

/// Calls `calamine::DataType::get_bool` on a `calamine::Data`.
///
/// Believed, not proved: the result is what [`bool_answer`] names, that is, it
/// depends on the cell alone.
#[verifier::external_body]
fn probe_bool(data: &Data) -> (answer: Option<bool>)
    ensures
        answer == bool_answer(*data),
{
    data.get_bool()
}

/// Calls `calamine::DataType::is_empty` on a `calamine::Data`.
///
/// Believed, not proved: the result is what [`empty_answer`] names, that is, it
/// depends on the cell alone.
#[verifier::external_body]
fn probe_empty(data: &Data) -> (answer: bool)
    ensures
        answer == empty_answer(*data),
{
    data.is_empty()
}

/// Calls `calamine::DataType::get_error` on a `calamine::Data` and renames the
/// mark, variant by variant.
///
/// Believed, not proved: the result is what [`error_answer`] names, that is, it
/// depends on the cell alone.
#[verifier::external_body]
fn probe_error(data: &Data) -> (answer: Option<CellError>)
    ensures
        answer == error_answer(*data),
{
    match data.get_error() {
        Some(CellErrorType::Div0) => Some(CellError::Div0),
        Some(CellErrorType::NA) => Some(CellError::NA),
        Some(CellErrorType::Name) => Some(CellError::Name),
        Some(CellErrorType::Null) => Some(CellError::Null),
        Some(CellErrorType::Num) => Some(CellError::Num),
        Some(CellErrorType::Ref) => Some(CellError::Ref),
        Some(CellErrorType::Value) => Some(CellError::Value),
        Some(CellErrorType::GettingData) => Some(CellError::GettingData),
        None => None,
    }
}

/// Calls `calamine::ExcelDateTime::as_f64` on the payload of a `calamine::Data`
/// that holds a date and time, and hands the number over as its bit pattern. A
/// cell of any other kind gives nothing.
///
/// Believed, not proved: the result is what [`date_time_answer`] names, that is,
/// it depends on the cell alone.
#[verifier::external_body]
fn probe_date_time(data: &Data) -> (answer: Option<u64>)
    ensures
        answer == date_time_answer(*data),
{
    match data {
        Data::DateTime(date_time) => Some(date_time.as_f64().to_bits()),
        _ => None,
    }
}

impl Default for RawCell {
    /// A raw cell that answers no probe.
    fn default() -> (raw: RawCell)
        ensures
            raw@ == (RawCellView {
                int: None,
                float: None,
                text: None,
                boolean: None,
                empty: false,
                error: None,
                date_time: None,
            }),
    {
        RawCell {
            int: None,
            float: None,
            text: None,
            boolean: None,
            empty: false,
            error: None,
            date_time: None,
        }
    }
}

impl RawCell {
    /// Puts every probe to a cell of a worksheet and keeps the answers.
    pub fn probe(data: &Data) -> (raw: RawCell)
        ensures
            raw@ == answers(*data),
    {
        RawCell {
            int: probe_int(data),
            float: probe_float(data),
            text: probe_text(data),
            boolean: probe_bool(data),
            empty: probe_empty(data),
            error: probe_error(data),
            date_time: probe_date_time(data),
        }
    }
}

} // verus!
