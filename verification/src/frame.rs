//! Tables of typed cells, built from the raw cells of a sheet.

use vstd::prelude::*;
use crate::cell::{classified, into_cell_value, Cell, CellValueView, CellValues};
use crate::date::{decoded, Date};
use crate::date_laws::lemma_every_serial_has_a_date;
use crate::error::DateParseError;
use crate::raw::{RawCell, RawCellView};
use crate::serial::{lemma_whole_days_fit, serial_of_bits, whole_days};

verus! {

/// How a table is built from a sheet.
#[derive(Debug, Clone, PartialEq, Eq)]
pub struct BuildOptions {
    /// The name of the sheet that the row source is asked for.
    pub sheet_name: String,
    /// Whether the first row of the sheet holds headers. A header row is no data
    /// and is left out of the table.
    pub with_headers: bool,
}

impl BuildOptions {
    /// The options for a sheet name and a header flag, either of which may be
    /// left open: the sheet is then `Sheet1`, and the first row is data.
    pub fn new(provided_sheet_name: Option<&str>, provided_with_headers: Option<bool>) -> (options:
        BuildOptions)
        ensures
            options.sheet_name@ == match provided_sheet_name {
                Some(name) => name@,
                None => "Sheet1"@,
            },
            options.with_headers == match provided_with_headers {
                Some(flag) => flag,
                None => false,
            },
    {
        let sheet_name = match provided_sheet_name {
            Some(name) => name.to_owned(),
            None => "Sheet1".to_owned(),
        };
        let with_headers = match provided_with_headers {
            Some(flag) => flag,
            None => false,
        };
        BuildOptions { sheet_name, with_headers }
    }
}

impl Default for BuildOptions {
    /// The options where nothing is asked for: the sheet `Sheet1`, whose first
    /// row is data.
    fn default() -> (options: BuildOptions)
        ensures
            options.sheet_name@ == "Sheet1"@,
            !options.with_headers,
    {
        BuildOptions::new(None, None)
    }
}

/// What comes of reading a raw cell as a date: nothing where it holds no date and
/// time, and else the outcome of decoding the whole days of its serial.
pub open spec fn date_attempt(raw: RawCellView) -> Option<Result<Date, DateParseError>> {
    match raw.date_time {
        Some(bits) => Some(decoded(whole_days(bits))),
        None => None,
    }
}

/// The date of a raw cell, where reading it as a date succeeds.
pub open spec fn dated(raw: RawCellView) -> Option<Date> {
    match date_attempt(raw) {
        Some(Ok(date)) => Some(date),
        _ => None,
    }
}

/// The cell that a raw cell becomes: the value that the dispatch gives it, else
/// its date, else nothing.
pub open spec fn cell_of(raw: RawCellView) -> Option<CellValueView> {
    match classified(raw) {
        Some(value) => Some(value),
        None => match dated(raw) {
            Some(date) => Some(CellValueView::Date(date)),
            None => None,
        },
    }
}

/// Whether a cell holds no date, or one that is well formed.
pub open spec fn holds_sound_date(cell: Option<CellValueView>) -> bool {
    cell matches Some(CellValueView::Date(date)) ==> date.wf()
}

/// Whether every date in a table is well formed.
pub open spec fn holds_sound_dates(table: Seq<Seq<Option<CellValueView>>>) -> bool {
    forall|line: int, column: int|
        0 <= line < table.len() && 0 <= column < table[line].len() ==> holds_sound_date(
            #[trigger] table[line][column],
        )
}

/// The row that a row of raw cells becomes: cell by cell, in the same order.
pub open spec fn row_of(row: Seq<RawCellView>) -> Seq<Option<CellValueView>> {
    Seq::new(row.len(), |column: int| cell_of(row[column]))
}

/// The rows of a sheet that are data: all of them, or all but the first where
/// that one holds headers.
pub open spec fn data_rows(rows: Seq<Seq<RawCellView>>, with_headers: bool) -> Seq<
    Seq<RawCellView>,
> {
    if with_headers && rows.len() > 0 {
        rows.subrange(1, rows.len() as int)
    } else {
        rows
    }
}

/// The table that a sheet becomes: its data rows, row by row, in the same order.
pub open spec fn table_of(rows: Seq<Seq<RawCellView>>, with_headers: bool) -> Seq<
    Seq<Option<CellValueView>>,
> {
    let body = data_rows(rows, with_headers);
    Seq::new(body.len(), |line: int| row_of(body[line]))
}

/// Whatever a raw cell answers, the date that it may become is well formed.
pub proof fn lemma_cells_hold_sound_dates(raw: RawCellView)
    ensures
        holds_sound_date(cell_of(raw)),
{
    if let Some(bits) = raw.date_time {
        lemma_whole_days_fit(bits);
        if whole_days(bits) >= 1 {
            lemma_every_serial_has_a_date(whole_days(bits));
        }
    }
}

/// Whatever the raw cells of a sheet answer, every date in its table is well
/// formed.
pub proof fn lemma_tables_hold_sound_dates(rows: Seq<Seq<RawCellView>>, with_headers: bool)
    ensures
        holds_sound_dates(table_of(rows, with_headers)),
{
    let body = data_rows(rows, with_headers);
    let table = table_of(rows, with_headers);
    assert forall|line: int, column: int|
        0 <= line < table.len() && 0 <= column < table[line].len() implies holds_sound_date(
        #[trigger] table[line][column],
    ) by {
        lemma_cells_hold_sound_dates(body[line][column]);
    }
}

impl Cell {
    /// Turns a raw cell into a cell: it gets the value that the dispatch gives
    /// it; failing that, its date; failing that, nothing.
    pub fn from_raw(raw: &RawCell) -> (cell: Cell)
        ensures
            cell@ == cell_of(raw@),
            holds_sound_date(cell@),
    {
        proof {
            lemma_cells_hold_sound_dates(raw@);
        }
        match into_cell_value(raw) {
            Some(value) => Cell { value: Some(value) },
            None => match DataFrame::handle_dates(raw) {
                Some(date) => Cell { value: Some(CellValues::Date(date)) },
                None => Cell { value: None },
            },
        }
    }
}

/// A table: rows of cells. The rows need not be of one length.
#[derive(Debug, Clone, PartialEq, Eq)]
pub struct DataFrame {
    pub data: Vec<Vec<Cell>>,
}

impl View for DataFrame {
    type V = Seq<Seq<Option<CellValueView>>>;

    open spec fn view(&self) -> Seq<Seq<Option<CellValueView>>> {
        self.data.deep_view()
    }
}

impl DataFrame {
    /// A table of the given rows.
    pub fn new(data: Vec<Vec<Cell>>) -> (frame: DataFrame)
        ensures
            frame.data == data,
            frame@ == data.deep_view(),
    {
        DataFrame { data }
    }

    /// Reads a raw cell as a date and says how that went: nothing where the cell
    /// holds no date and time, and else the date or the reason why its serial
    /// stands for none.
    pub fn decode_date(raw: &RawCell) -> (attempt: Option<Result<Date, DateParseError>>)
        ensures
            attempt == date_attempt(raw@),
            attempt matches Some(Ok(date)) ==> date.wf(),
    {
        match raw.date_time {
            Some(bits) => Some(Date::from_excel_datetype(serial_of_bits(bits))),
            None => None,
        }
    }

    /// Reads a raw cell as a date. A cell that holds no date and time has none,
    /// and neither has one whose serial stands for no date.
    pub fn handle_dates(raw: &RawCell) -> (date: Option<Date>)
        ensures
            date == dated(raw@),
            date matches Some(found) ==> found.wf(),
    {
        match Self::decode_date(raw) {
            Some(Ok(date)) => Some(date),
            _ => None,
        }
    }

    /// Builds the table of a sheet. Every raw cell becomes one cell, in its
    /// place: no row is padded and none is cut. Where the options say that the
    /// sheet has headers, its first row is left out.
    pub fn build(rows: &Vec<Vec<RawCell>>, options: &BuildOptions) -> (frame: DataFrame)
        ensures
            frame@ == table_of(rows.deep_view(), options.with_headers),
            holds_sound_dates(frame@),
            frame@.len() == data_rows(rows.deep_view(), options.with_headers).len(),
            forall|line: int|
                0 <= line < frame@.len() ==> (#[trigger] frame@[line]).len() == data_rows(
                    rows.deep_view(),
                    options.with_headers,
                )[line].len(),
            forall|line: int, column: int|
                0 <= line < frame@.len() && 0 <= column < frame@[line].len() ==> #[trigger] frame@[line][column]
                    == cell_of(data_rows(rows.deep_view(), options.with_headers)[line][column]),
    {
        let first: usize = if options.with_headers && rows.len() > 0 {
            1
        } else {
            0
        };
        let mut data: Vec<Vec<Cell>> = Vec::new();
        let mut line: usize = first;
        while line < rows.len()
            invariant
                first <= line <= rows.len(),
                data.len() == line - first,
                forall|k: int|
                    0 <= k < data.len() ==> (#[trigger] data@[k]).deep_view() == row_of(
                        rows@[k + first].deep_view(),
                    ),
            decreases rows.len() - line,
        {
            let row = &rows[line];
            let mut cells: Vec<Cell> = Vec::new();
            let mut column: usize = 0;
            while column < row.len()
                invariant
                    column <= row.len(),
                    cells.len() == column,
                    forall|k: int| 0 <= k < column ==> (#[trigger] cells@[k])@ == cell_of(row@[k]@),
                decreases row.len() - column,
            {
                cells.push(Cell::from_raw(&row[column]));
                column += 1;
            }
            assert(cells.deep_view() =~= row_of(row.deep_view()));
            data.push(cells);
            line += 1;
        }
        let frame = DataFrame { data };
        proof {
            assert(frame@ =~= table_of(rows.deep_view(), options.with_headers));
            lemma_tables_hold_sound_dates(rows.deep_view(), options.with_headers);
        }
        frame
    }

    /// Replaces the table by that of a sheet, or by the empty table where the row
    /// source has no sheet to give.
    pub fn read_from_sheet(&mut self, sheet: Option<&Vec<Vec<RawCell>>>, options: &BuildOptions)
        ensures
            final(self)@ == match sheet {
                Some(rows) => table_of(rows.deep_view(), options.with_headers),
                None => Seq::empty(),
            },
            holds_sound_dates(final(self)@),
    {
        match sheet {
            Some(rows) => {
                *self = Self::build(rows, options);
            },
            None => {
                self.data = Vec::new();
            },
        }
    }
}

} // verus!
