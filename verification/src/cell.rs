//! Typed cell values, and the dispatch that settles the kind of a raw cell.

use vstd::prelude::*;
use vstd::std_specs::convert::FromSpecImpl;
use crate::date::Date;
use crate::raw::{RawCell, RawCellView};

verus! {

/// The kinds of value that a cell can hold.
#[derive(Debug, Clone, PartialEq, Eq)]
pub enum CellValues {
    /// A whole number.
    Int(i32),
    /// A binary64 number, held as its bit pattern.
    Float(u64),
    /// A text.
    Text(String),
    /// A calendar date.
    Date(Date),
}

/// A cell value as a mathematical value.
pub enum CellValueView {
    Int(i32),
    Float(u64),
    Text(Seq<char>),
    Date(Date),
}

impl View for CellValues {
    type V = CellValueView;

    open spec fn view(&self) -> CellValueView {
        match self {
            CellValues::Int(number) => CellValueView::Int(*number),
            CellValues::Float(bits) => CellValueView::Float(*bits),
            CellValues::Text(text) => CellValueView::Text(text@),
            CellValues::Date(date) => CellValueView::Date(*date),
        }
    }
}

impl DeepView for CellValues {
    type V = CellValueView;

    open spec fn deep_view(&self) -> CellValueView {
        self@
    }
}

impl From<i32> for CellValues {
    /// A cell value that holds a whole number.
    fn from(value: i32) -> (cell: CellValues) {
        CellValues::Int(value)
    }
}

impl FromSpecImpl<i32> for CellValues {
    open spec fn obeys_from_spec() -> bool {
        true
    }

    open spec fn from_spec(value: i32) -> CellValues {
        CellValues::Int(value)
    }
}

impl From<String> for CellValues {
    /// A cell value that holds a text.
    fn from(value: String) -> (cell: CellValues) {
        CellValues::Text(value)
    }
}

impl FromSpecImpl<String> for CellValues {
    open spec fn obeys_from_spec() -> bool {
        true
    }

    open spec fn from_spec(value: String) -> CellValues {
        CellValues::Text(value)
    }
}

impl<'a> From<&'a str> for CellValues {
    /// A cell value that holds a copy of a text.
    fn from(value: &'a str) -> (cell: CellValues)
        ensures
            cell@ == CellValueView::Text(value@),
    {
        CellValues::Text(value.to_owned())
    }
}

impl<'a> FromSpecImpl<&'a str> for CellValues {
    /// Two strings can hold one text and still be two values, so no spec function
    /// names the cell that `from` makes: `from` itself says which text it holds.
    open spec fn obeys_from_spec() -> bool {
        false
    }

    open spec fn from_spec(value: &'a str) -> CellValues {
        arbitrary()
    }
}

/// A cell of a table: a value, or nothing.
#[derive(Debug, Clone, PartialEq, Eq)]
pub struct Cell {
    pub value: Option<CellValues>,
}

impl View for Cell {
    type V = Option<CellValueView>;

    open spec fn view(&self) -> Option<CellValueView> {
        self.value.deep_view()
    }
}

impl DeepView for Cell {
    type V = Option<CellValueView>;

    open spec fn deep_view(&self) -> Option<CellValueView> {
        self@
    }
}

/// The step of the dispatch that settles a raw cell.
#[derive(Debug, Clone, Copy, PartialEq, Eq, Structural)]
pub enum Dispatch {
    /// Integer extraction gave a number that 32 signed bits hold.
    Integer,
    /// Float extraction gave a number.
    Float,
    /// String extraction gave a text.
    Text,
    /// Boolean extraction gave a truth value.
    Boolean,
    /// The cell is empty.
    Empty,
    /// Error extraction gave a mark.
    Error,
    /// No probe was answered.
    Unrecognized,
}

/// The first step, in the order of the dispatch, that a raw cell meets.
///
/// An integer that 32 signed bits cannot hold does not stop the dispatch: the
/// later probes still count, and where none of them is answered the cell is left
/// without a value.
pub open spec fn dispatch_of(raw: RawCellView) -> Dispatch {
    if raw.int is Some && i32::MIN <= raw.int->Some_0 <= i32::MAX {
        Dispatch::Integer
    } else if raw.float is Some {
        Dispatch::Float
    } else if raw.text is Some {
        Dispatch::Text
    } else if raw.boolean is Some {
        Dispatch::Boolean
    } else if raw.empty {
        Dispatch::Empty
    } else if raw.error is Some {
        Dispatch::Error
    } else {
        Dispatch::Unrecognized
    }
}

/// A truth value as a text.
pub open spec fn bool_text(value: bool) -> Seq<char> {
    if value {
        "true"@
    } else {
        "false"@
    }
}

/// The value that the dispatch gives a raw cell, if it gives one.
pub open spec fn classified(raw: RawCellView) -> Option<CellValueView> {
    match dispatch_of(raw) {
        Dispatch::Integer => Some(CellValueView::Int(raw.int->Some_0 as i32)),
        Dispatch::Float => Some(CellValueView::Float(raw.float->Some_0)),
        Dispatch::Text => Some(CellValueView::Text(raw.text->Some_0)),
        Dispatch::Boolean => Some(CellValueView::Text(bool_text(raw.boolean->Some_0))),
        Dispatch::Empty => None,
        Dispatch::Error => None,
        Dispatch::Unrecognized => None,
    }
}

/// Finds the step of the dispatch that settles a raw cell.
pub fn dispatch(raw: &RawCell) -> (step: Dispatch)
    ensures
        step == dispatch_of(raw@),
{
    if let Some(number) = raw.int {
        if number >= (i32::MIN as i64) && number <= (i32::MAX as i64) {
            return Dispatch::Integer;
        }
    }
    if raw.float.is_some() {
        Dispatch::Float
    } else if raw.text.is_some() {
        Dispatch::Text
    } else if raw.boolean.is_some() {
        Dispatch::Boolean
    } else if raw.empty {
        Dispatch::Empty
    } else if raw.error.is_some() {
        Dispatch::Error
    } else {
        Dispatch::Unrecognized
    }
}

/// Settles the kind of a raw cell and gives its value: a whole number, a binary64
/// number, or a text. A truth value becomes the text `true` or `false`. An empty
/// cell, a cell with an error mark and a cell that answers no probe have no
/// value.
pub fn into_cell_value(raw: &RawCell) -> (value: Option<CellValues>)
    ensures
        value.deep_view() == classified(raw@),
        value is Some <==> {
            ||| raw@.int is Some && i32::MIN <= raw@.int->Some_0 <= i32::MAX
            ||| raw@.float is Some
            ||| raw@.text is Some
            ||| raw@.boolean is Some
        },
{
    match dispatch(raw) {
        Dispatch::Integer => Some(CellValues::Int(raw.int.unwrap() as i32)),
        Dispatch::Float => Some(CellValues::Float(raw.float.unwrap())),
        Dispatch::Text => Some(CellValues::Text(raw.text.as_ref().unwrap().clone())),
        Dispatch::Boolean => if raw.boolean.unwrap() {
            Some(CellValues::Text("true".to_owned()))
        } else {
            Some(CellValues::Text("false".to_owned()))
        },
        Dispatch::Empty => None,
        Dispatch::Error => None,
        Dispatch::Unrecognized => None,
    }
}

} // verus!
