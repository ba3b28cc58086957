//! Typed tables from spreadsheet cells.
//!
//! A row source hands over cells that answer a handful of probes. This crate turns
//! each into one of a closed set of typed values and assembles them, row by row,
//! into a table. Cells holding a date carry a serial day count of the 1900 date
//! system, which is decoded into a calendar date.
//!
//! The modules, from the leaves up:
//!
//! - [`calendar`]: leap years, month lengths and day counts, as mathematics;
//! - [`date`]: dates, built from a serial day count or from three numbers and a
//!   format tag, and [`date_laws`]: what holds of them;
//! - [`serial`]: the whole days in a serial that is held as a binary64 number;
//! - [`raw`]: the answers of a cell to the probes;
//! - [`cell`]: typed values, and the dispatch that gives a raw cell its kind;
//! - [`frame`]: tables, and how a sheet of raw cells becomes one.
//!
//! Every executable function is verified against the contract that it states. The
//! one place where a contract is believed and not proved is the probing of a
//! worksheet cell in [`raw`], which calls into the workbook reader.

pub mod calendar;
pub mod cell;
pub mod date;
pub mod date_laws;
pub mod error;
pub mod frame;
pub mod raw;
pub mod serial;
pub mod text;

pub use cell::{dispatch, into_cell_value, Cell, CellValues, Dispatch};
pub use date::Date;
pub use error::DateParseError;
pub use frame::{BuildOptions, DataFrame};
pub use raw::{CellError, RawCell};
